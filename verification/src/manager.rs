//! The listener manager: which listeners run, and what to do when one is added or taken away.
//!
//! Waiting, looking a listener up, and starting or stopping its task are not done here.
//! [`ListenerManager::run`] is told of each thing that has happened, and says what to do next.

use crate::running::Running;
use crate::xds::UpdateEvent;
use vstd::prelude::*;

verus! {

/// The tasks of the listeners that have been started, by the listeners' names. `H` is what stops
/// a task.
pub struct ListenerManager<H> {
    running: Running<H>,
}

/// Something that has happened. `L` is a listener, `E` the error of a look-up.
pub enum RunEvent<H, L, E> {
    /// The task of some listener has come to its end.
    TaskEnded,
    /// An update of the set of listeners, or `None` where there will be no more of them.
    Update(Option<UpdateEvent>),
    /// The process is to stop.
    Cancelled,
    /// A listener has been looked up.
    Fetched { name: String, found: Result<L, E> },
    /// A task has been started for a listener.
    Started { name: String, handle: H },
}

/// What to do next.
pub enum RunAction<H, L, E> {
    /// Wait for something else to happen.
    Wait,
    /// Look the listener of this name up, and tell of [`RunEvent::Fetched`].
    Fetch(String),
    /// Spawn a task for this listener, and tell of [`RunEvent::Started`].
    Spawn { name: String, listener: L },
    /// Log that the listener was not found.
    ReportLookup { name: String, error: E },
    /// Stop the listener of this name, by its handle.
    Abort { name: String, handle: H },
    /// Log that there is no task to stop.
    ReportNotRunning(String),
    /// Stop all tasks, and return.
    Stop,
}

/// The tasks that run after something has happened.
pub open spec fn tasks_after<H, L, E>(
    tasks: Map<Seq<char>, H>,
    event: RunEvent<H, L, E>,
) -> Map<Seq<char>, H> {
    match event {
        RunEvent::Started { name, handle } => tasks.insert(name@, handle),
        RunEvent::Update(Some(UpdateEvent::Remove(name))) => tasks.remove(name@),
        _ => tasks,
    }
}

/// What to do when something has happened.
pub open spec fn action_for<H, L, E>(
    tasks: Map<Seq<char>, H>,
    event: RunEvent<H, L, E>,
) -> RunAction<H, L, E> {
    match event {
        RunEvent::TaskEnded => RunAction::Wait,
        RunEvent::Update(Some(UpdateEvent::Insert(name))) => RunAction::Fetch(name),
        RunEvent::Update(Some(UpdateEvent::Remove(name))) => if tasks.contains_key(name@) {
            RunAction::Abort { name, handle: tasks[name@] }
        } else {
            RunAction::ReportNotRunning(name)
        },
        RunEvent::Update(None) => RunAction::Stop,
        RunEvent::Cancelled => RunAction::Stop,
        RunEvent::Fetched { name, found: Ok(listener) } => RunAction::Spawn { name, listener },
        RunEvent::Fetched { name, found: Err(error) } => RunAction::ReportLookup { name, error },
        RunEvent::Started { .. } => RunAction::Wait,
    }
}

/// The tasks of a list, the later of two of the same name counting.
pub open spec fn started_tasks<H>(started: Seq<(String, H)>) -> Map<Seq<char>, H>
    decreases started.len(),
{
    if started.len() == 0 {
        Map::empty()
    } else {
        started_tasks(started.drop_last()).insert(started.last().0@, started.last().1)
    }
}

impl<H> ListenerManager<H> {
    /// The tasks by name.
    pub closed spec fn view(&self) -> Map<Seq<char>, H> {
        self.running@
    }

    /// Takes over the tasks of the listeners that were there from the start.
    pub fn new(started: Vec<(String, H)>) -> (manager: Self)
        ensures
            manager@ == started_tasks(started@),
    {
        let mut running: Running<H> = Running::new();
        let ghost all = started@;
        for entry in it: started
            invariant
                it.seq() == all,
                running@ == started_tasks(all.take(it.index() as int)),
        {
            proof {
                let i = it.index() as int;
                assert(all.take(i + 1).drop_last() =~= all.take(i));
            }
            running.insert(entry.0, entry.1);
        }
        assert(all.take(all.len() as int) =~= all);
        ListenerManager { running }
    }

    /// Takes note of something that has happened, and says what to do next.
    pub fn run<L, E>(&mut self, event: RunEvent<H, L, E>) -> (action: RunAction<H, L, E>)
        ensures
            final(self)@ == tasks_after(old(self)@, event),
            action == action_for(old(self)@, event),
            event is Started ==> action is Wait,
            action is Fetch ==> event matches RunEvent::Update(Some(UpdateEvent::Insert(_))),
    {
        match event {
            RunEvent::TaskEnded => RunAction::Wait,
            RunEvent::Update(Some(UpdateEvent::Insert(name))) => RunAction::Fetch(name),
            RunEvent::Update(Some(UpdateEvent::Remove(name))) => match self.running.remove(&name) {
                Some(handle) => RunAction::Abort { name, handle },
                None => RunAction::ReportNotRunning(name),
            },
            RunEvent::Update(None) => RunAction::Stop,
            RunEvent::Cancelled => RunAction::Stop,
            RunEvent::Fetched { name, found: Ok(listener) } => RunAction::Spawn { name, listener },
            RunEvent::Fetched { name, found: Err(error) } => RunAction::ReportLookup {
                name,
                error,
            },
            RunEvent::Started { name, handle } => {
                self.running.insert(name, handle);
                RunAction::Wait
            },
        }
    }
}

} // verus!
