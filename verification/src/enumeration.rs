//! The enumeration itself: a cursor that is started for one directory kind
//! and one domain mask, advanced one path at a time, and done for good once
//! the platform returns the terminal sentinel.
//!
//! The platform is not called from here. Each step has two halves: before the
//! call, [`SearchPathEnumeration::platform_call`] checks that the step may be
//! taken and names the call that is due; after it,
//! [`sysdir_get_next_search_path_enumeration`] takes what the platform
//! returned and decides what the step has brought.

use crate::catalog::{
    sysdir_search_path_directory_t, sysdir_search_path_domain_mask_t,
    sysdir_search_path_enumeration_state, PATH_MAX,
};
use crate::error::SysdirError;
use crate::path::{path_of, read_path};
use crate::platform::Platform;
use vstd::prelude::*;

verus! {

/// What an enumeration is made of.
pub struct EnumerationView {
    /// The directory kind that it was started for.
    pub dir: sysdir_search_path_directory_t,
    /// The domain mask that it was started for.
    pub domain_mask: sysdir_search_path_domain_mask_t,
    /// The state that the platform returned last. There is none before the
    /// first step: only a step tells whether an enumeration has ended.
    pub cursor: Option<sysdir_search_path_enumeration_state>,
}

impl EnumerationView {
    /// An enumeration that has been started and not advanced yet.
    pub open spec fn fresh(
        dir: sysdir_search_path_directory_t,
        domain_mask: sysdir_search_path_domain_mask_t,
    ) -> Self {
        EnumerationView { dir, domain_mask, cursor: None }
    }

    /// The same enumeration, brought to `state` by the platform.
    pub open spec fn at(self, state: sysdir_search_path_enumeration_state) -> Self {
        EnumerationView { cursor: Some(state), ..self }
    }

    /// The platform has returned the terminal sentinel.
    pub open spec fn is_done(self) -> bool {
        self.cursor == Some(0u32)
    }

    /// The call that takes the enumeration one step on.
    pub open spec fn due_call(self) -> PlatformCall {
        match self.cursor {
            None => PlatformCall::Start {
                dir: self.dir.spec_code(),
                domain_mask: self.domain_mask,
            },
            Some(state) => PlatformCall::Resume { state },
        }
    }
}

/// The platform call that is due for an enumeration's next step. The path
/// buffer goes with it in either case.
#[derive(Debug, Clone, Copy, PartialEq, Eq, Structural)]
pub enum PlatformCall {
    /// Begin: the platform's start function with this directory code and
    /// domain mask, then its next function with the state that came back.
    Start { dir: u32, domain_mask: sysdir_search_path_domain_mask_t },
    /// Go on: the platform's next function with this state.
    Resume { state: sysdir_search_path_enumeration_state },
}

/// An enumeration of the paths of one directory kind in the domains of one
/// mask.
///
/// It is made by [`sysdir_start_search_path_enumeration`] alone, it cannot
/// be copied, and it holds nothing that would have to be released: to give
/// an enumeration up, drop it.
#[derive(Debug)]
pub struct SearchPathEnumeration {
    dir: sysdir_search_path_directory_t,
    domain_mask: sysdir_search_path_domain_mask_t,
    cursor: Option<sysdir_search_path_enumeration_state>,
}

impl View for SearchPathEnumeration {
    type V = EnumerationView;

    closed spec fn view(&self) -> EnumerationView {
        EnumerationView { dir: self.dir, domain_mask: self.domain_mask, cursor: self.cursor }
    }
}

/// What a step brings: a path, nothing because the enumeration has ended, or
/// the reason why the step was refused.
pub type Yielded = Result<Option<Seq<u8>>, SysdirError>;

/// What one step makes of an enumeration and of the platform's answer to it:
/// the enumeration after the step, and what the step brings.
///
/// `next` is the state that the platform returned and `buffer` the path
/// buffer as the call left it.
/// - An enumeration that is done, or a buffer of fewer than [`PATH_MAX`]
///   bytes, is refused, and the enumeration stays as it was.
/// - The terminal sentinel ends the enumeration. It brings no path, and the
///   buffer is not looked at.
/// - Any other state brings the path that the buffer holds and is kept for
///   the step that follows. A buffer that holds no path is refused.
pub open spec fn advance_spec(
    before: EnumerationView,
    next: sysdir_search_path_enumeration_state,
    buffer: Seq<u8>,
) -> (EnumerationView, Yielded) {
    if before.is_done() || buffer.len() < PATH_MAX {
        (before, Err(SysdirError::PreconditionViolation))
    } else if next == 0 {
        (before.at(0), Ok(None))
    } else {
        match path_of(buffer) {
            Some(path) => (before.at(next), Ok(Some(path))),
            None => (before, Err(SysdirError::PreconditionViolation)),
        }
    }
}

/// Starts an enumeration of the paths of `dir` in the domains of
/// `domain_mask`.
///
/// Every mask is accepted, one without any known bit too: such an
/// enumeration ends with its first step. The platform is not asked anything
/// yet. Where it does not provide the facility there is nothing to
/// enumerate, and no enumeration is made.
pub fn sysdir_start_search_path_enumeration(
    platform: Platform,
    dir: sysdir_search_path_directory_t,
    domain_mask: sysdir_search_path_domain_mask_t,
) -> (started: Result<SearchPathEnumeration, SysdirError>)
    ensures
        match started {
            Ok(state) => platform.is_supported() && state@ == EnumerationView::fresh(
                dir,
                domain_mask,
            ),
            Err(e) => !platform.is_supported() && e == SysdirError::UnsupportedPlatform,
        },
{
    if platform.is_supported() {
        Ok(SearchPathEnumeration { dir, domain_mask, cursor: None })
    } else {
        Err(SysdirError::UnsupportedPlatform)
    }
}

impl SearchPathEnumeration {
    /// The directory kind that the enumeration was started for.
    pub fn directory(&self) -> (dir: sysdir_search_path_directory_t)
        ensures
            dir == self@.dir,
    {
        self.dir
    }

    /// The domain mask that the enumeration was started for.
    pub fn domain_mask(&self) -> (domain_mask: sysdir_search_path_domain_mask_t)
        ensures
            domain_mask == self@.domain_mask,
    {
        self.domain_mask
    }

    /// Tells whether the platform has returned the terminal sentinel.
    pub fn is_done(&self) -> (done: bool)
        ensures
            done == self@.is_done(),
    {
        match self.cursor {
            Some(state) => state == 0,
            None => false,
        }
    }

    /// Names the platform call that takes the enumeration one step on, to be
    /// made with a path buffer of `capacity` bytes.
    ///
    /// The call must not be made where this is refused: the platform checks
    /// neither the state nor the buffer that it is given. It is refused for
    /// an enumeration that is done and for a buffer of fewer than
    /// [`PATH_MAX`] bytes, and for nothing else.
    pub fn platform_call(&self, capacity: usize) -> (call: Result<PlatformCall, SysdirError>)
        ensures
            match call {
                Ok(due) => !self@.is_done() && capacity >= PATH_MAX && due == self@.due_call(),
                Err(e) => (self@.is_done() || capacity < PATH_MAX) && e
                    == SysdirError::PreconditionViolation,
            },
    {
        if self.is_done() || capacity < PATH_MAX as usize {
            return Err(SysdirError::PreconditionViolation);
        }
        match self.cursor {
            None => Ok(PlatformCall::Start { dir: self.dir.code(), domain_mask: self.domain_mask }),
            Some(state) => Ok(PlatformCall::Resume { state }),
        }
    }
}

/// Takes an enumeration one step on, given the platform's answer to the
/// call that [`SearchPathEnumeration::platform_call`] named: `next` is the
/// state that the platform returned, `path` the buffer that it was given.
///
/// The step brings `Some` path, or `None` when the enumeration has ended.
/// An enumeration that finds nothing ends with its first step, and that is
/// no error. [`advance_spec`] says what the step is in each case; a step
/// that is refused leaves the enumeration as it was, so that it can be taken
/// again.
pub fn sysdir_get_next_search_path_enumeration(
    state: &mut SearchPathEnumeration,
    next: sysdir_search_path_enumeration_state,
    path: &[u8],
) -> (yielded: Result<Option<Vec<u8>>, SysdirError>)
    ensures
        final(state)@ == advance_spec(old(state)@, next, path@).0,
        match yielded {
            Ok(Some(p)) => advance_spec(old(state)@, next, path@).1 == Yielded::Ok(Some(p@)),
            Ok(None) => advance_spec(old(state)@, next, path@).1 == Yielded::Ok(None),
            Err(e) => advance_spec(old(state)@, next, path@).1 == Yielded::Err(e),
        },
{
    if state.is_done() || path.len() < PATH_MAX as usize {
        return Err(SysdirError::PreconditionViolation);
    }
    if next == 0 {
        state.cursor = Some(0);
        return Ok(None);
    }
    match read_path(path) {
        Some(found) => {
            state.cursor = Some(next);
            Ok(Some(found))
        },
        None => Err(SysdirError::PreconditionViolation),
    }
}

} // verus!
