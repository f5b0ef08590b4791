//! What holds of a listener manager over its whole life.

use crate::manager;
use crate::manager::{ListenerManager, RunAction, RunEvent};
use crate::xds::UpdateEvent;
use vstd::prelude::*;

verus! {

/// The tasks that run after a history of events.
pub open spec fn tasks_after_all<H, L, E>(
    tasks: Map<Seq<char>, H>,
    history: Seq<RunEvent<H, L, E>>,
) -> Map<Seq<char>, H>
    decreases history.len(),
{
    if history.len() == 0 {
        tasks
    } else {
        manager::tasks_after(tasks_after_all(tasks, history.drop_last()), history.last())
    }
}

/// Whether the event is the start of a task of this name.
pub open spec fn starts<H, L, E>(event: RunEvent<H, L, E>, name: Seq<char>) -> bool {
    match event {
        RunEvent::Started { name: started, .. } => started@ == name,
        _ => false,
    }
}

/// Whether the event takes the listener of this name away.
pub open spec fn removes<H, L, E>(event: RunEvent<H, L, E>, name: Seq<char>) -> bool {
    match event {
        RunEvent::Update(Some(UpdateEvent::Remove(removed))) => removed@ == name,
        _ => false,
    }
}

/// Whether the event at `i` starts a task of this name, and no later event starts another or
/// takes the listener away.
pub open spec fn still_running<H, L, E>(
    history: Seq<RunEvent<H, L, E>>,
    name: Seq<char>,
    i: int,
) -> bool {
    &&& 0 <= i < history.len()
    &&& starts(history[i], name)
    &&& forall|j: int|
        #![trigger history[j]]
        i < j < history.len() ==> !starts(history[j], name) && !removes(history[j], name)
}

/// Over any history that begins with no tasks, a name has a task exactly where one was started
/// for it since it was last taken away; the handle kept is that of the last start.
pub proof fn law_latest_start_runs<H, L, E>(history: Seq<RunEvent<H, L, E>>, name: Seq<char>)
    ensures
        ({
            let tasks = tasks_after_all(Map::empty(), history);
            &&& tasks.contains_key(name) <==> exists|i: int| still_running(history, name, i)
            &&& forall|i: int| #[trigger]
                still_running(history, name, i) ==> tasks[name] == history[i]->handle
        }),
    decreases history.len(),
{
    let tasks = tasks_after_all(Map::<Seq<char>, H>::empty(), history);
    if history.len() > 0 {
        let before = history.drop_last();
        let last = history.len() - 1;
        let event = history[last];
        law_latest_start_runs(before, name);
        if starts(event, name) {
            assert(still_running(history, name, last));
            assert forall|i: int| #[trigger] still_running(history, name, i) implies i == last by {
                if i < last {
                    assert(!starts(history[last], name));
                }
            }
        } else if removes(event, name) {
            assert forall|i: int| !#[trigger] still_running(history, name, i) by {
                if 0 <= i < last {
                    assert(history[last] == event);
                }
            }
        } else {
            assert forall|i: int| #[trigger]
                still_running(history, name, i) == still_running(before, name, i) by {
                if still_running(history, name, i) {
                    assert forall|j: int|
                        #![trigger before[j]]
                        i < j < before.len() implies !starts(before[j], name) && !removes(
                        before[j],
                        name,
                    ) by {
                        assert(history[j] == before[j]);
                    }
                    assert(i != last);
                }
                if still_running(before, name, i) {
                    assert forall|j: int|
                        #![trigger history[j]]
                        i < j < history.len() implies !starts(history[j], name) && !removes(
                        history[j],
                        name,
                    ) by {
                        if j < last {
                            assert(history[j] == before[j]);
                        }
                    }
                }
            }
            if tasks.contains_key(name) {
                let i = choose|i: int| still_running(before, name, i);
                assert(still_running(history, name, i));
            }
            if exists|i: int| still_running(history, name, i) {
                let i = choose|i: int| still_running(history, name, i);
                assert(still_running(before, name, i));
            }
        }
    }
}

/// Taking a listener away stops the task that was started for it last, and no other: an earlier
/// task of the same name is left alone. Where no task runs under the name, that is reported.
pub proof fn law_removal_stops_latest_task<H, L, E>(
    history: Seq<RunEvent<H, L, E>>,
    name: String,
)
    ensures
        ({
            let tasks = tasks_after_all(Map::empty(), history);
            let removal = RunEvent::<H, L, E>::Update(Some(UpdateEvent::Remove(name)));
            let action = manager::action_for(tasks, removal);
            &&& forall|i: int| #[trigger]
                still_running(history, name@, i) ==> action == RunAction::<H, L, E>::Abort {
                    name,
                    handle: history[i]->handle,
                }
            &&& (forall|i: int| !#[trigger] still_running(history, name@, i)) ==> action
                == RunAction::<H, L, E>::ReportNotRunning(name)
        }),
{
    law_latest_start_runs(history, name@);
}

/// A listener that was taken away does not run, and taking it away again stops nothing.
pub proof fn law_removal_is_final<H, L, E>(tasks: Map<Seq<char>, H>, name: String)
    ensures
        ({
            let removal = RunEvent::<H, L, E>::Update(Some(UpdateEvent::Remove(name)));
            let after = manager::tasks_after(tasks, removal);
            &&& !after.contains_key(name@)
            &&& manager::action_for(after, removal) == RunAction::<H, L, E>::ReportNotRunning(name)
            &&& manager::tasks_after(after, removal) == after
        }),
{
    let removal = RunEvent::<H, L, E>::Update(Some(UpdateEvent::Remove(name)));
    let after = manager::tasks_after(tasks, removal);
    assert(manager::tasks_after(after, removal) =~= after);
}

/// An event about one listener leaves the tasks of all others as they are.
pub proof fn law_names_are_independent<H, L, E>(
    tasks: Map<Seq<char>, H>,
    event: RunEvent<H, L, E>,
    name: Seq<char>,
)
    requires
        !starts(event, name),
        !removes(event, name),
    ensures
        ({
            let after = manager::tasks_after(tasks, event);
            &&& after.contains_key(name) <==> tasks.contains_key(name)
            &&& after.contains_key(name) ==> after[name] == tasks[name]
        }),
{
}

/// A listener that is added and found is started, and runs from then on under its name; the
/// tasks change only once it has been started.
pub proof fn law_added_listener_runs<H, L, E>(
    tasks: Map<Seq<char>, H>,
    name: String,
    listener: L,
    handle: H,
)
    ensures
        ({
            let added = RunEvent::<H, L, E>::Update(Some(UpdateEvent::Insert(name)));
            let fetched = RunEvent::<H, L, E>::Fetched { name, found: Ok(listener) };
            let started = RunEvent::<H, L, E>::Started { name, handle };
            &&& manager::action_for(tasks, added) == RunAction::<H, L, E>::Fetch(name)
            &&& manager::tasks_after(tasks, added) == tasks
            &&& manager::action_for(tasks, fetched) == RunAction::<H, L, E>::Spawn {
                name,
                listener,
            }
            &&& manager::tasks_after(tasks, fetched) == tasks
            &&& manager::tasks_after(tasks, started) == tasks.insert(name@, handle)
        }),
{
}

/// A listener that is added and not found changes nothing.
pub proof fn law_missing_listener_is_skipped<H, L, E>(
    tasks: Map<Seq<char>, H>,
    name: String,
    error: E,
)
    ensures
        ({
            let fetched = RunEvent::<H, L, E>::Fetched { name, found: Err(error) };
            &&& manager::action_for(tasks, fetched) == RunAction::<H, L, E>::ReportLookup {
                name,
                error,
            }
            &&& manager::tasks_after(tasks, fetched) == tasks
        }),
{
}

/// The manager stops exactly where the process is to stop or no more updates will come, whatever
/// runs; the end of a task is no reason.
pub proof fn law_stops_only_when_told<H, L, E>(
    tasks: Map<Seq<char>, H>,
    event: RunEvent<H, L, E>,
)
    ensures
        manager::action_for(tasks, event) is Stop <==> (event is Cancelled || event == RunEvent::<
            H,
            L,
            E,
        >::Update(None)),
{
}

/// The tasks taken over at the start are those that starting them one after the other would give.
pub proof fn law_new_starts_in_order<H, L, E>(started: Seq<(String, H)>)
    ensures
        manager::started_tasks(started) == tasks_after_all(
            Map::empty(),
            started.map_values(
                |entry: (String, H)| RunEvent::<H, L, E>::Started { name: entry.0, handle: entry.1 },
            ),
        ),
    decreases started.len(),
{
    let event = |entry: (String, H)| RunEvent::<H, L, E>::Started {
        name: entry.0,
        handle: entry.1,
    };
    let history = started.map_values(event);
    if started.len() > 0 {
        law_new_starts_in_order::<H, L, E>(started.drop_last());
        assert(history.drop_last() =~= started.drop_last().map_values(event));
    }
}

/// Each thing to do has its own occasion, and each occasion is met with one thing, whatever runs. A
/// look-up follows only on a listener being added, a start only on one being found; nothing follows
/// on a start or on the end of a task.
pub proof fn law_each_action_has_its_occasion<H, L, E>(event: RunEvent<H, L, E>)
    ensures
        forall|manager: &mut ListenerManager<H>, action: RunAction<H, L, E>| #[trigger]
            call_ensures(ListenerManager::<H>::run::<L, E>, (manager, event), action) ==> {
                &&& action is Wait <==> (event is Started || event is TaskEnded)
                &&& action is Stop <==> (event is Cancelled || (event matches RunEvent::Update(
                    None,
                )))
                &&& action is Fetch <==> (event matches RunEvent::Update(
                    Some(UpdateEvent::Insert(_)),
                ))
                &&& action is Spawn <==> (event matches RunEvent::Fetched { found: Ok(_), .. })
                &&& action is ReportLookup <==> (event matches RunEvent::Fetched {
                    found: Err(_),
                    ..
                })
                &&& (action is Abort || action is ReportNotRunning) <==> (event
                    matches RunEvent::Update(Some(UpdateEvent::Remove(_))))
            },
{
}

/// What is to be done is done for the listener that the occasion was about, and with what was
/// brought: the listener that was found is started, the error of the look-up is reported.
pub proof fn law_actions_keep_to_their_listener<H, L, E>(event: RunEvent<H, L, E>)
    ensures
        forall|manager: &mut ListenerManager<H>, action: RunAction<H, L, E>| #[trigger]
            call_ensures(ListenerManager::<H>::run::<L, E>, (manager, event), action)
                ==> match action {
                RunAction::Fetch(name) => event == RunEvent::<H, L, E>::Update(
                    Some(UpdateEvent::Insert(name)),
                ),
                RunAction::Spawn { name, listener } => event == RunEvent::<H, L, E>::Fetched {
                    name,
                    found: Ok(listener),
                },
                RunAction::ReportLookup { name, error } => event == RunEvent::<
                    H,
                    L,
                    E,
                >::Fetched { name, found: Err(error) },
                RunAction::Abort { name, .. } => event == RunEvent::<H, L, E>::Update(
                    Some(UpdateEvent::Remove(name)),
                ),
                RunAction::ReportNotRunning(name) => event == RunEvent::<H, L, E>::Update(
                    Some(UpdateEvent::Remove(name)),
                ),
                _ => true,
            },
{
}

/// An update is settled in at most three steps, and leads to one start at most: what is looked up for
/// an update is either reported or started, and once it is started, nothing more is to be done.
/// Whatever runs in between makes no difference.
pub proof fn law_each_update_is_settled<H, L, E>(
    update: UpdateEvent,
    found: Result<L, E>,
    handle: H,
    name: String,
    started: String,
)
    ensures
        forall|
            first: &mut ListenerManager<H>,
            second: &mut ListenerManager<H>,
            third: &mut ListenerManager<H>,
            asked: RunAction<H, L, E>,
            answered: RunAction<H, L, E>,
            last: RunAction<H, L, E>,
        |
            {
                &&& #[trigger] call_ensures(
                    ListenerManager::<H>::run::<L, E>,
                    (first, RunEvent::Update(Some(update))),
                    asked,
                )
                &&& #[trigger] call_ensures(
                    ListenerManager::<H>::run::<L, E>,
                    (second, RunEvent::Fetched { name, found }),
                    answered,
                )
                &&& #[trigger] call_ensures(
                    ListenerManager::<H>::run::<L, E>,
                    (third, RunEvent::Started { name: started, handle }),
                    last,
                )
            } ==> {
                &&& asked is Fetch || asked is Abort || asked is ReportNotRunning
                &&& answered is Spawn || answered is ReportLookup
                &&& last is Wait
            },
{
}

/// A listener whose task was started is stopped by that task's handle when it is taken away.
pub proof fn law_started_task_is_the_one_stopped<H, L, E>(name: String, gone: String, handle: H)
    requires
        name@ == gone@,
    ensures
        forall|
            first: &mut ListenerManager<H>,
            second: &mut ListenerManager<H>,
            noted: RunAction<H, L, E>,
            action: RunAction<H, L, E>,
        |
            {
                &&& #[trigger] call_ensures(
                    ListenerManager::<H>::run::<L, E>,
                    (first, RunEvent::Started { name, handle }),
                    noted,
                )
                &&& #[trigger] call_ensures(
                    ListenerManager::<H>::run::<L, E>,
                    (second, RunEvent::Update(Some(UpdateEvent::Remove(gone)))),
                    action,
                )
                &&& *final(first) == *second
            } ==> action == (RunAction::<H, L, E>::Abort { name: gone, handle }),
{
}

/// A listener that was taken away is not stopped a second time.
pub proof fn law_stopped_once<H, L, E>(name: String, again: String)
    requires
        name@ == again@,
    ensures
        forall|
            first: &mut ListenerManager<H>,
            second: &mut ListenerManager<H>,
            stopped: RunAction<H, L, E>,
            action: RunAction<H, L, E>,
        |
            {
                &&& #[trigger] call_ensures(
                    ListenerManager::<H>::run::<L, E>,
                    (first, RunEvent::Update(Some(UpdateEvent::Remove(name)))),
                    stopped,
                )
                &&& #[trigger] call_ensures(
                    ListenerManager::<H>::run::<L, E>,
                    (second, RunEvent::Update(Some(UpdateEvent::Remove(again)))),
                    action,
                )
                &&& *final(first) == *second
            } ==> action == RunAction::<H, L, E>::ReportNotRunning(again),
{
}

/// What taking a listener away does is not changed by an event that neither starts nor takes away
/// the same listener: it stops the task that it would have stopped before.
pub proof fn law_other_events_change_no_removal<H, L, E>(event: RunEvent<H, L, E>, gone: String)
    requires
        event matches RunEvent::Started { name, .. } ==> name@ != gone@,
        event matches RunEvent::Update(Some(UpdateEvent::Remove(name))) ==> name@ != gone@,
    ensures
        forall|
            first: &mut ListenerManager<H>,
            second: &mut ListenerManager<H>,
            instead: &mut ListenerManager<H>,
            noted: RunAction<H, L, E>,
            action: RunAction<H, L, E>,
            would_be: RunAction<H, L, E>,
        |
            {
                &&& #[trigger] call_ensures(
                    ListenerManager::<H>::run::<L, E>,
                    (first, event),
                    noted,
                )
                &&& #[trigger] call_ensures(
                    ListenerManager::<H>::run::<L, E>,
                    (second, RunEvent::Update(Some(UpdateEvent::Remove(gone)))),
                    action,
                )
                &&& #[trigger] call_ensures(
                    ListenerManager::<H>::run::<L, E>,
                    (instead, RunEvent::Update(Some(UpdateEvent::Remove(gone)))),
                    would_be,
                )
                &&& *final(first) == *second
                &&& *first == *instead
            } ==> action == would_be,
{
}

/// What a list of tasks holds at a name: the handle of the last entry of that name.
proof fn lemma_started_tasks<H>(started: Seq<(String, H)>, name: Seq<char>, k: int)
    requires
        forall|j: int| k < j < started.len() ==> (#[trigger] started[j]).0@ != name,
        k == -1 || 0 <= k < started.len() && started[k].0@ == name,
    ensures
        manager::started_tasks(started).contains_key(name) <==> k >= 0,
        k >= 0 ==> manager::started_tasks(started)[name] == started[k].1,
    decreases started.len(),
{
    if started.len() > 0 && k != started.len() - 1 {
        let front = started.drop_last();
        assert(started[started.len() - 1].0@ != name);
        assert forall|j: int| k < j < front.len() implies (#[trigger] front[j]).0@ != name by {
            assert(started[j] == front[j]);
        }
        lemma_started_tasks(front, name, k);
    }
}

/// A manager that took over a list of tasks stops, for a listener that is taken away, the last task
/// of that name in the list, which is at `k`, and reports that none runs where there is none and `k`
/// is -1.
pub proof fn law_tasks_taken_over_can_be_stopped<H, L, E>(
    started: Vec<(String, H)>,
    gone: String,
    k: int,
)
    requires
        forall|j: int| k < j < started@.len() ==> (#[trigger] started@[j]).0@ != gone@,
        k == -1 || 0 <= k < started@.len() && started@[k].0@ == gone@,
    ensures
        forall|manager: &mut ListenerManager<H>, action: RunAction<H, L, E>|
            {
                &&& call_ensures(ListenerManager::<H>::new, (started,), *manager)
                &&& #[trigger] call_ensures(
                    ListenerManager::<H>::run::<L, E>,
                    (manager, RunEvent::Update(Some(UpdateEvent::Remove(gone)))),
                    action,
                )
            } ==> action == if k >= 0 {
                RunAction::<H, L, E>::Abort { name: gone, handle: started@[k].1 }
            } else {
                RunAction::<H, L, E>::ReportNotRunning(gone)
            },
{
    lemma_started_tasks(started@, gone@, k);
}

} // verus!
