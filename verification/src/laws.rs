//! What holds of every enumeration, whatever the platform answers.
//!
//! The platform's side of an enumeration is a sequence of answers, one to
//! each step. The laws below are stated over
//! [`advance_spec`](crate::enumeration::advance_spec), the step that
//! [`sysdir_get_next_search_path_enumeration`](crate::enumeration::sysdir_get_next_search_path_enumeration)
//! takes, and over runs of such steps.

use crate::catalog::{
    sysdir_search_path_directory_t, sysdir_search_path_domain_mask_t,
    sysdir_search_path_enumeration_state, PATH_MAX,
};
use crate::enumeration::{advance_spec, EnumerationView, Yielded};
use crate::error::SysdirError;
use crate::path::{is_terminator, path_is_whole, path_of};
use vstd::prelude::*;

verus! {

/// The platform's answer to one step.
pub struct Answer {
    /// The state that the platform returned.
    pub next: sysdir_search_path_enumeration_state,
    /// The path buffer as the call left it.
    pub buffer: Seq<u8>,
}

/// The paths that an enumeration yields, in their order, when its steps get
/// `answers` one after the other. The enumeration is driven until a step
/// brings no path: it has ended then, or the step was refused.
pub open spec fn paths_yielded(start: EnumerationView, answers: Seq<Answer>) -> Seq<Seq<u8>>
    decreases answers.len(),
{
    if answers.len() == 0 {
        Seq::empty()
    } else {
        let step = advance_spec(start, answers[0].next, answers[0].buffer);
        match step.1 {
            Ok(Some(path)) => seq![path] + paths_yielded(step.0, answers.drop_first()),
            _ => Seq::empty(),
        }
    }
}

/// The enumeration as such a run leaves it.
pub open spec fn state_after(start: EnumerationView, answers: Seq<Answer>) -> EnumerationView
    decreases answers.len(),
{
    if answers.len() == 0 {
        start
    } else {
        let step = advance_spec(start, answers[0].next, answers[0].buffer);
        match step.1 {
            Ok(Some(_)) => state_after(step.0, answers.drop_first()),
            _ => step.0,
        }
    }
}

/// Two answers say the same: the same state, either both in a buffer of
/// sufficient capacity or both not, and, unless the state is the terminal
/// sentinel, the same path. The buffers may differ in their capacity and in
/// what follows the path.
pub open spec fn same_answer(a: Answer, b: Answer) -> bool {
    &&& a.next == b.next
    &&& a.buffer.len() >= PATH_MAX <==> b.buffer.len() >= PATH_MAX
    &&& a.next != 0 ==> path_of(a.buffer) == path_of(b.buffer)
}

/// An enumeration that is done stays done: every further step is refused
/// and changes nothing.
pub proof fn done_is_final(
    state: EnumerationView,
    next: sysdir_search_path_enumeration_state,
    buffer: Seq<u8>,
)
    requires
        state.is_done(),
    ensures
        advance_spec(state, next, buffer) == (
            state,
            Yielded::Err(SysdirError::PreconditionViolation),
        ),
{
}

/// A step leaves an enumeration done exactly when it was accepted and the
/// platform returned the terminal sentinel. The directory kind and the
/// domain mask never change.
pub proof fn only_the_sentinel_ends(
    state: EnumerationView,
    next: sysdir_search_path_enumeration_state,
    buffer: Seq<u8>,
)
    requires
        !state.is_done(),
    ensures
        advance_spec(state, next, buffer).0.is_done() <==> buffer.len() >= PATH_MAX && next == 0,
        advance_spec(state, next, buffer).0.dir == state.dir,
        advance_spec(state, next, buffer).0.domain_mask == state.domain_mask,
{
}

/// An enumeration whose first step gets the terminal sentinel has found
/// nothing. That is an outcome like any other, and no error: the step is
/// accepted, no path is yielded, and the enumeration is done.
pub proof fn immediate_end_yields_nothing(
    dir: sysdir_search_path_directory_t,
    domain_mask: sysdir_search_path_domain_mask_t,
    answers: Seq<Answer>,
)
    requires
        answers.len() > 0,
        answers[0].next == 0,
        answers[0].buffer.len() >= PATH_MAX,
    ensures
        advance_spec(EnumerationView::fresh(dir, domain_mask), 0, answers[0].buffer).1
            == Yielded::Ok(None),
        paths_yielded(EnumerationView::fresh(dir, domain_mask), answers).len() == 0,
        state_after(EnumerationView::fresh(dir, domain_mask), answers).is_done(),
{
}

/// The terminal sentinel bounds an enumeration: where the platform's answer
/// number `k` (counted from zero) is the sentinel, at most `k` paths are
/// yielded, however many answers follow.
pub proof fn sentinel_bounds_the_paths(start: EnumerationView, answers: Seq<Answer>, k: int)
    requires
        0 <= k < answers.len(),
        answers[k].next == 0,
    ensures
        paths_yielded(start, answers).len() <= k,
    decreases answers.len(),
{
    let step = advance_spec(start, answers[0].next, answers[0].buffer);
    if k > 0 && step.1 is Ok && step.1.unwrap() is Some {
        sentinel_bounds_the_paths(step.0, answers.drop_first(), k - 1);
    }
}

/// Runs that get the same answers yield the same paths in the same order,
/// and end in the same state.
pub proof fn same_answers_same_paths(
    start: EnumerationView,
    first: Seq<Answer>,
    second: Seq<Answer>,
)
    requires
        first.len() == second.len(),
        forall|i: int| 0 <= i < first.len() ==> same_answer(#[trigger] first[i], second[i]),
    ensures
        paths_yielded(start, first) == paths_yielded(start, second),
        state_after(start, first) == state_after(start, second),
    decreases first.len(),
{
    if first.len() > 0 {
        assert(same_answer(first[0], second[0]));
        let step = advance_spec(start, first[0].next, first[0].buffer);
        assert(step == advance_spec(start, second[0].next, second[0].buffer));
        assert forall|i: int| 0 <= i < first.drop_first().len() implies same_answer(
            #[trigger] first.drop_first()[i],
            second.drop_first()[i],
        ) by {
            assert(same_answer(first[i + 1], second[i + 1]));
        }
        same_answers_same_paths(step.0, first.drop_first(), second.drop_first());
    }
}

/// Starting is repeatable: two enumerations started for the same directory
/// kind and domain mask, each driven on its own with buffers of its own,
/// yield the same paths in the same order as long as the platform answers
/// both alike.
pub proof fn equal_starts_yield_equal_paths(
    dir: sysdir_search_path_directory_t,
    domain_mask: sysdir_search_path_domain_mask_t,
    first: Seq<Answer>,
    second: Seq<Answer>,
)
    requires
        first.len() == second.len(),
        forall|i: int| 0 <= i < first.len() ==> same_answer(#[trigger] first[i], second[i]),
    ensures
        paths_yielded(EnumerationView::fresh(dir, domain_mask), first) == paths_yielded(
            EnumerationView::fresh(dir, domain_mask),
            second,
        ),
{
    same_answers_same_paths(EnumerationView::fresh(dir, domain_mask), first, second);
}

/// No path is ever cut short. The path that step `i` of a run yields is the
/// whole text of that step's buffer, from its first byte up to the nul that
/// ends it, and with that nul it takes no more than [`PATH_MAX`] bytes.
pub proof fn yielded_paths_are_whole(start: EnumerationView, answers: Seq<Answer>, i: int)
    requires
        0 <= i < paths_yielded(start, answers).len(),
    ensures
        i < answers.len(),
        paths_yielded(start, answers)[i].len() < PATH_MAX,
        is_terminator(answers[i].buffer, paths_yielded(start, answers)[i].len() as int),
        paths_yielded(start, answers)[i] == answers[i].buffer.subrange(
            0,
            paths_yielded(start, answers)[i].len() as int,
        ),
    decreases answers.len(),
{
    let step = advance_spec(start, answers[0].next, answers[0].buffer);
    if i == 0 {
        path_is_whole(answers[0].buffer);
    } else {
        yielded_paths_are_whole(step.0, answers.drop_first(), i - 1);
    }
}

} // verus!
