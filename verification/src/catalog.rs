//! The platform's catalog: the directory kinds, the domain bits and the
//! length limit of a path, each with the number that `sysdir.h` and
//! `limits.h` give it.

use vstd::prelude::*;

verus! {

/// A set of installation domains, one bit for each. Any combination of the
/// bits below is a valid query, and so is a mask with none of them: it finds
/// nothing.
#[allow(non_camel_case_types)]
pub type sysdir_search_path_domain_mask_t = u32;

/// The platform's cursor through an enumeration, as a bare number. Zero is
/// the terminal sentinel; every other value means something to the platform
/// alone.
#[allow(non_camel_case_types)]
pub type sysdir_search_path_enumeration_state = u32;

/// The capacity a path buffer must have, in bytes. The platform writes no
/// path that, with its terminating nul, is longer than this.
pub const PATH_MAX: u32 = 1024;

/// The user's home directory.
pub const SYSDIR_DOMAIN_MASK_USER: sysdir_search_path_domain_mask_t = 1;

/// This machine, for all of its users.
pub const SYSDIR_DOMAIN_MASK_LOCAL: sysdir_search_path_domain_mask_t = 2;

/// The local area network.
pub const SYSDIR_DOMAIN_MASK_NETWORK: sysdir_search_path_domain_mask_t = 4;

/// What the system's vendor provides.
pub const SYSDIR_DOMAIN_MASK_SYSTEM: sysdir_search_path_domain_mask_t = 8;

/// Every domain: the four above and any that may follow.
pub const SYSDIR_DOMAIN_MASK_ALL: sysdir_search_path_domain_mask_t = 0x0ffff;

/// A kind of well-known directory. The set is closed: the platform knows
/// these kinds and no others.
#[allow(non_camel_case_types)]
#[derive(Debug, Clone, Copy, PartialEq, Eq, Hash, Structural)]
pub enum sysdir_search_path_directory_t {
    /// Supported applications (`Applications`).
    SYSDIR_DIRECTORY_APPLICATION,
    /// Unsupported applications and demonstration versions (`Applications/Demos`).
    SYSDIR_DIRECTORY_DEMO_APPLICATION,
    /// Developer applications (`Developer/Applications`).
    SYSDIR_DIRECTORY_DEVELOPER_APPLICATION,
    /// System and network administration applications (`Applications/Utilities`).
    SYSDIR_DIRECTORY_ADMIN_APPLICATION,
    /// User-visible documentation, support and configuration files (`Library`).
    SYSDIR_DIRECTORY_LIBRARY,
    /// Developer resources (`Developer`).
    SYSDIR_DIRECTORY_DEVELOPER,
    /// User home directories (`Users`).
    SYSDIR_DIRECTORY_USER,
    /// Documentation (`Library/Documentation`).
    SYSDIR_DIRECTORY_DOCUMENTATION,
    /// Documents (`Documents`).
    SYSDIR_DIRECTORY_DOCUMENT,
    /// Core services (`Library/CoreServices`).
    SYSDIR_DIRECTORY_CORESERVICE,
    /// The user's autosaved documents (`Library/Autosave Information`).
    SYSDIR_DIRECTORY_AUTOSAVED_INFORMATION,
    /// The user's desktop (`Desktop`).
    SYSDIR_DIRECTORY_DESKTOP,
    /// Discardable cache files (`Library/Caches`).
    SYSDIR_DIRECTORY_CACHES,
    /// Application support files (`Library/Application Support`).
    SYSDIR_DIRECTORY_APPLICATION_SUPPORT,
    /// The user's downloads (`Downloads`).
    SYSDIR_DIRECTORY_DOWNLOADS,
    /// Input methods (`Library/Input Methods`).
    SYSDIR_DIRECTORY_INPUT_METHODS,
    /// The user's movies (`Movies`).
    SYSDIR_DIRECTORY_MOVIES,
    /// The user's music (`Music`).
    SYSDIR_DIRECTORY_MUSIC,
    /// The user's pictures (`Pictures`).
    SYSDIR_DIRECTORY_PICTURES,
    /// The system's printer descriptions (`Library/Printers/PPDs`).
    SYSDIR_DIRECTORY_PRINTER_DESCRIPTION,
    /// The user's public sharing directory (`Public`).
    SYSDIR_DIRECTORY_SHARED_PUBLIC,
    /// Preference panes (`Library/PreferencePanes`).
    SYSDIR_DIRECTORY_PREFERENCE_PANES,
    /// Every directory where applications can be (`Applications`, `Applications/Utilities`, and so on).
    SYSDIR_DIRECTORY_ALL_APPLICATIONS,
    /// Every directory where resources can be (`Library`, `Developer`).
    SYSDIR_DIRECTORY_ALL_LIBRARIES,
}

impl sysdir_search_path_directory_t {
    /// The number by which the platform knows this kind.
    pub open spec fn spec_code(self) -> u32 {
        match self {
            Self::SYSDIR_DIRECTORY_APPLICATION => 1,
            Self::SYSDIR_DIRECTORY_DEMO_APPLICATION => 2,
            Self::SYSDIR_DIRECTORY_DEVELOPER_APPLICATION => 3,
            Self::SYSDIR_DIRECTORY_ADMIN_APPLICATION => 4,
            Self::SYSDIR_DIRECTORY_LIBRARY => 5,
            Self::SYSDIR_DIRECTORY_DEVELOPER => 6,
            Self::SYSDIR_DIRECTORY_USER => 7,
            Self::SYSDIR_DIRECTORY_DOCUMENTATION => 8,
            Self::SYSDIR_DIRECTORY_DOCUMENT => 9,
            Self::SYSDIR_DIRECTORY_CORESERVICE => 10,
            Self::SYSDIR_DIRECTORY_AUTOSAVED_INFORMATION => 11,
            Self::SYSDIR_DIRECTORY_DESKTOP => 12,
            Self::SYSDIR_DIRECTORY_CACHES => 13,
            Self::SYSDIR_DIRECTORY_APPLICATION_SUPPORT => 14,
            Self::SYSDIR_DIRECTORY_DOWNLOADS => 15,
            Self::SYSDIR_DIRECTORY_INPUT_METHODS => 16,
            Self::SYSDIR_DIRECTORY_MOVIES => 17,
            Self::SYSDIR_DIRECTORY_MUSIC => 18,
            Self::SYSDIR_DIRECTORY_PICTURES => 19,
            Self::SYSDIR_DIRECTORY_PRINTER_DESCRIPTION => 20,
            Self::SYSDIR_DIRECTORY_SHARED_PUBLIC => 21,
            Self::SYSDIR_DIRECTORY_PREFERENCE_PANES => 22,
            Self::SYSDIR_DIRECTORY_ALL_APPLICATIONS => 100,
            Self::SYSDIR_DIRECTORY_ALL_LIBRARIES => 101,
        }
    }

    /// Gives the number by which the platform knows this kind.
    #[verifier::when_used_as_spec(spec_code)]
    pub fn code(self) -> (code: u32)
        ensures
            code == self.spec_code(),
    {
        match self {
            Self::SYSDIR_DIRECTORY_APPLICATION => 1,
            Self::SYSDIR_DIRECTORY_DEMO_APPLICATION => 2,
            Self::SYSDIR_DIRECTORY_DEVELOPER_APPLICATION => 3,
            Self::SYSDIR_DIRECTORY_ADMIN_APPLICATION => 4,
            Self::SYSDIR_DIRECTORY_LIBRARY => 5,
            Self::SYSDIR_DIRECTORY_DEVELOPER => 6,
            Self::SYSDIR_DIRECTORY_USER => 7,
            Self::SYSDIR_DIRECTORY_DOCUMENTATION => 8,
            Self::SYSDIR_DIRECTORY_DOCUMENT => 9,
            Self::SYSDIR_DIRECTORY_CORESERVICE => 10,
            Self::SYSDIR_DIRECTORY_AUTOSAVED_INFORMATION => 11,
            Self::SYSDIR_DIRECTORY_DESKTOP => 12,
            Self::SYSDIR_DIRECTORY_CACHES => 13,
            Self::SYSDIR_DIRECTORY_APPLICATION_SUPPORT => 14,
            Self::SYSDIR_DIRECTORY_DOWNLOADS => 15,
            Self::SYSDIR_DIRECTORY_INPUT_METHODS => 16,
            Self::SYSDIR_DIRECTORY_MOVIES => 17,
            Self::SYSDIR_DIRECTORY_MUSIC => 18,
            Self::SYSDIR_DIRECTORY_PICTURES => 19,
            Self::SYSDIR_DIRECTORY_PRINTER_DESCRIPTION => 20,
            Self::SYSDIR_DIRECTORY_SHARED_PUBLIC => 21,
            Self::SYSDIR_DIRECTORY_PREFERENCE_PANES => 22,
            Self::SYSDIR_DIRECTORY_ALL_APPLICATIONS => 100,
            Self::SYSDIR_DIRECTORY_ALL_LIBRARIES => 101,
        }
    }

    /// Finds the kind that the platform knows by `code`. There is none where
    /// no kind has that number.
    pub fn from_code(code: u32) -> (dir: Option<Self>)
        ensures
            match dir {
                Some(d) => d.spec_code() == code,
                None => forall|d: Self| #[trigger] d.spec_code() != code,
            },
    {
        match code {
            1 => Some(Self::SYSDIR_DIRECTORY_APPLICATION),
            2 => Some(Self::SYSDIR_DIRECTORY_DEMO_APPLICATION),
            3 => Some(Self::SYSDIR_DIRECTORY_DEVELOPER_APPLICATION),
            4 => Some(Self::SYSDIR_DIRECTORY_ADMIN_APPLICATION),
            5 => Some(Self::SYSDIR_DIRECTORY_LIBRARY),
            6 => Some(Self::SYSDIR_DIRECTORY_DEVELOPER),
            7 => Some(Self::SYSDIR_DIRECTORY_USER),
            8 => Some(Self::SYSDIR_DIRECTORY_DOCUMENTATION),
            9 => Some(Self::SYSDIR_DIRECTORY_DOCUMENT),
            10 => Some(Self::SYSDIR_DIRECTORY_CORESERVICE),
            11 => Some(Self::SYSDIR_DIRECTORY_AUTOSAVED_INFORMATION),
            12 => Some(Self::SYSDIR_DIRECTORY_DESKTOP),
            13 => Some(Self::SYSDIR_DIRECTORY_CACHES),
            14 => Some(Self::SYSDIR_DIRECTORY_APPLICATION_SUPPORT),
            15 => Some(Self::SYSDIR_DIRECTORY_DOWNLOADS),
            16 => Some(Self::SYSDIR_DIRECTORY_INPUT_METHODS),
            17 => Some(Self::SYSDIR_DIRECTORY_MOVIES),
            18 => Some(Self::SYSDIR_DIRECTORY_MUSIC),
            19 => Some(Self::SYSDIR_DIRECTORY_PICTURES),
            20 => Some(Self::SYSDIR_DIRECTORY_PRINTER_DESCRIPTION),
            21 => Some(Self::SYSDIR_DIRECTORY_SHARED_PUBLIC),
            22 => Some(Self::SYSDIR_DIRECTORY_PREFERENCE_PANES),
            100 => Some(Self::SYSDIR_DIRECTORY_ALL_APPLICATIONS),
            101 => Some(Self::SYSDIR_DIRECTORY_ALL_LIBRARIES),
            _ => None,
        }
    }
}

/// No two kinds share a number: a kind can be told from its code.
pub proof fn codes_are_distinct(
    a: sysdir_search_path_directory_t,
    b: sysdir_search_path_directory_t,
)
    requires
        a.spec_code() == b.spec_code(),
    ensures
        a == b,
{
}

/// The four domains are four separate bits, and the mask for all domains
/// holds each of them.
pub proof fn domains_are_separate_bits()
    ensures
        SYSDIR_DOMAIN_MASK_USER & SYSDIR_DOMAIN_MASK_LOCAL == 0,
        SYSDIR_DOMAIN_MASK_USER & SYSDIR_DOMAIN_MASK_NETWORK == 0,
        SYSDIR_DOMAIN_MASK_USER & SYSDIR_DOMAIN_MASK_SYSTEM == 0,
        SYSDIR_DOMAIN_MASK_LOCAL & SYSDIR_DOMAIN_MASK_NETWORK == 0,
        SYSDIR_DOMAIN_MASK_LOCAL & SYSDIR_DOMAIN_MASK_SYSTEM == 0,
        SYSDIR_DOMAIN_MASK_NETWORK & SYSDIR_DOMAIN_MASK_SYSTEM == 0,
        SYSDIR_DOMAIN_MASK_ALL & SYSDIR_DOMAIN_MASK_USER == SYSDIR_DOMAIN_MASK_USER,
        SYSDIR_DOMAIN_MASK_ALL & SYSDIR_DOMAIN_MASK_LOCAL == SYSDIR_DOMAIN_MASK_LOCAL,
        SYSDIR_DOMAIN_MASK_ALL & SYSDIR_DOMAIN_MASK_NETWORK == SYSDIR_DOMAIN_MASK_NETWORK,
        SYSDIR_DOMAIN_MASK_ALL & SYSDIR_DOMAIN_MASK_SYSTEM == SYSDIR_DOMAIN_MASK_SYSTEM,
{
    assert(1u32 & 2u32 == 0) by (bit_vector);
    assert(1u32 & 4u32 == 0) by (bit_vector);
    assert(1u32 & 8u32 == 0) by (bit_vector);
    assert(2u32 & 4u32 == 0) by (bit_vector);
    assert(2u32 & 8u32 == 0) by (bit_vector);
    assert(4u32 & 8u32 == 0) by (bit_vector);
    assert(0x0ffffu32 & 1u32 == 1u32) by (bit_vector);
    assert(0x0ffffu32 & 2u32 == 2u32) by (bit_vector);
    assert(0x0ffffu32 & 4u32 == 4u32) by (bit_vector);
    assert(0x0ffffu32 & 8u32 == 8u32) by (bit_vector);
}

} // verus!
