//! A checked enumeration protocol for the well-known directory search paths
//! that `sysdir(3)` offers on Apple platforms.
//!
//! The platform hands out paths one at a time through an opaque numeric
//! cursor and a caller-owned byte buffer, and it checks neither. This library
//! holds everything about that exchange that can be decided without the
//! platform at hand: the catalog of directory kinds and domain bits, the
//! cursor's life from its start to the terminal sentinel, the capacity that
//! the buffer must have, and the reading of one nul-terminated path out of
//! it.
//!
//! An enumeration goes like this:
//!
//! 1. [`sysdir_start_search_path_enumeration`] makes the enumeration for a
//!    directory kind and a domain mask.
//! 2. [`SearchPathEnumeration::platform_call`] names the platform call that
//!    is due, or refuses the step.
//! 3. The caller makes that call with its buffer.
//! 4. [`sysdir_get_next_search_path_enumeration`] takes the state that the
//!    platform returned and the buffer, and hands out the path, or nothing
//!    when the platform returned the terminal sentinel.
//!
//! Steps 2 to 4 are repeated until nothing is handed out. What holds of
//! every such run is proved in [`laws`].

pub mod catalog;
pub mod enumeration;
pub mod error;
pub mod laws;
pub mod path;
pub mod platform;

pub use catalog::{
    sysdir_search_path_directory_t, sysdir_search_path_domain_mask_t,
    sysdir_search_path_enumeration_state, PATH_MAX,
    SYSDIR_DOMAIN_MASK_ALL, SYSDIR_DOMAIN_MASK_LOCAL, SYSDIR_DOMAIN_MASK_NETWORK,
    SYSDIR_DOMAIN_MASK_SYSTEM, SYSDIR_DOMAIN_MASK_USER,
};
pub use enumeration::{
    sysdir_get_next_search_path_enumeration, sysdir_start_search_path_enumeration, EnumerationView,
    PlatformCall, SearchPathEnumeration,
};
pub use error::SysdirError;
pub use path::read_path;
pub use platform::Platform;
