//! What holds of the running tasks of a process, whatever they are.

use crate::running::Running;
use vstd::prelude::*;

verus! {

/// Nothing can be taken out at the beginning.
pub proof fn law_nothing_runs_at_first<H>(name: String)
    ensures
        forall|running: &mut Running<H>, taken: Option<H>|
            call_ensures(Running::<H>::new, (), *running) && #[trigger] call_ensures(
                Running::<H>::remove,
                (running, &name),
                taken,
            ) ==> taken is None,
{
}

/// What was recorded last under a name is what is taken out under it, whatever was recorded under it
/// before.
pub proof fn law_latest_task_is_taken_out<H>(name: String, same: String, handle: H)
    requires
        name@ == same@,
    ensures
        forall|first: &mut Running<H>, second: &mut Running<H>, done: (), taken: Option<H>|
            {
                &&& #[trigger] call_ensures(Running::<H>::insert, (first, name, handle), done)
                &&& #[trigger] call_ensures(Running::<H>::remove, (second, &same), taken)
                &&& *final(first) == *second
            } ==> taken == Some(handle),
{
}

/// Recording a task under one name does not touch what is recorded under another.
pub proof fn law_other_names_keep_their_tasks<H>(name: String, other: String, handle: H)
    requires
        name@ != other@,
    ensures
        forall|
            first: &mut Running<H>,
            second: &mut Running<H>,
            instead: &mut Running<H>,
            done: (),
            taken: Option<H>,
            would_be: Option<H>,
        |
            {
                &&& #[trigger] call_ensures(Running::<H>::insert, (first, name, handle), done)
                &&& #[trigger] call_ensures(Running::<H>::remove, (second, &other), taken)
                &&& #[trigger] call_ensures(Running::<H>::remove, (instead, &other), would_be)
                &&& *final(first) == *second
                &&& *first == *instead
            } ==> taken == would_be,
{
}

/// What is taken out is gone: it cannot be taken out again.
pub proof fn law_taken_out_is_gone<H>(name: String, same: String)
    requires
        name@ == same@,
    ensures
        forall|
            first: &mut Running<H>,
            second: &mut Running<H>,
            taken: Option<H>,
            again: Option<H>,
        |
            {
                &&& #[trigger] call_ensures(Running::<H>::remove, (first, &name), taken)
                &&& #[trigger] call_ensures(Running::<H>::remove, (second, &same), again)
                &&& *final(first) == *second
            } ==> again is None,
{
}

/// Taking a task out under one name does not touch what is recorded under another.
pub proof fn law_taking_out_spares_other_names<H>(name: String, other: String)
    requires
        name@ != other@,
    ensures
        forall|
            first: &mut Running<H>,
            second: &mut Running<H>,
            instead: &mut Running<H>,
            gone: Option<H>,
            taken: Option<H>,
            would_be: Option<H>,
        |
            {
                &&& #[trigger] call_ensures(Running::<H>::remove, (first, &name), gone)
                &&& #[trigger] call_ensures(Running::<H>::remove, (second, &other), taken)
                &&& #[trigger] call_ensures(Running::<H>::remove, (instead, &other), would_be)
                &&& *final(first) == *second
                &&& *first == *instead
            } ==> taken == would_be,
{
}

} // verus!
