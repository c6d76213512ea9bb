//! Server lifecycle: counting in-flight stream tasks, deciding whether a
//! connection keeps accepting streams, and the outcome of a graceful
//! shutdown.

use vstd::prelude::*;

use crate::text::{decimal, decimal_text};

verus! {

#[verifier::external_type_specification]
#[verifier::external_body]
pub struct ExJoinError(tokio::task::JoinError);

/// What happens to the set of task guards: one is taken, or one is
/// dropped.
#[derive(PartialEq, Eq, Structural, Clone, Copy, Debug)]
pub enum TaskEvent {
    Begin,
    Finish,
}

/// The number of tasks in flight after `event`, from `active`.
pub open spec fn after_event(active: nat, event: TaskEvent) -> nat {
    match event {
        TaskEvent::Begin => active + 1,
        TaskEvent::Finish => (active - 1) as nat,
    }
}

/// The number of tasks in flight after `events`, from `active`.
pub open spec fn after_events(active: nat, events: Seq<TaskEvent>) -> nat
    decreases events.len(),
{
    if events.len() == 0 {
        active
    } else {
        after_event(after_events(active, events.drop_last()), events.last())
    }
}

/// How many of `events` take a guard.
pub open spec fn guards_taken(events: Seq<TaskEvent>) -> nat
    decreases events.len(),
{
    if events.len() == 0 {
        0
    } else {
        guards_taken(events.drop_last()) + if events.last() == TaskEvent::Begin { 1nat } else { 0nat }
    }
}

/// How many of `events` drop a guard.
pub open spec fn guards_dropped(events: Seq<TaskEvent>) -> nat
    decreases events.len(),
{
    if events.len() == 0 {
        0
    } else {
        guards_dropped(events.drop_last()) + if events.last() == TaskEvent::Finish { 1nat } else { 0nat }
    }
}

/// Every drop in `events` drops a guard taken before it and not dropped
/// yet: no prefix drops more guards than it takes.
pub open spec fn drops_follow_takes(events: Seq<TaskEvent>) -> bool {
    forall|k: int| 0 <= k <= events.len() ==> guards_dropped(#[trigger] events.take(k)) <= guards_taken(
        events.take(k),
    )
}

/// The number of stream tasks in flight.
#[derive(Debug)]
pub struct TaskCount {
    active: usize,
}

impl TaskCount {
    /// Tasks in flight.
    pub closed spec fn active(&self) -> nat {
        self.active as nat
    }

    /// No task in flight.
    pub fn new() -> (r: TaskCount)
        ensures
            r.active() == 0,
    {
        TaskCount { active: 0 }
    }

    /// Tasks in flight.
    pub fn count(&self) -> (r: usize)
        ensures
            r == self.active(),
    {
        self.active
    }

    /// A task starts.
    pub fn begin(&mut self)
        requires
            old(self).active() < usize::MAX,
        ensures
            final(self).active() == old(self).active() + 1,
            final(self).active() == after_event(old(self).active(), TaskEvent::Begin),
    {
        self.active = self.active + 1;
    }

    /// A task ends; the answer tells whether it was the last one, in which
    /// case whoever waits for the tasks is woken.
    pub fn finish(&mut self) -> (last: bool)
        requires
            old(self).active() > 0,
        ensures
            final(self).active() == old(self).active() - 1,
            final(self).active() == after_event(old(self).active(), TaskEvent::Finish),
            last == (old(self).active() == 1),
    {
        self.active = self.active - 1;
        self.active == 0
    }

    /// Whether no task is in flight, so that waiting is over at once.
    pub fn is_idle(&self) -> (r: bool)
        ensures
            r == (self.active() == 0),
    {
        self.active == 0
    }
}

/// Starting from no task, whatever order guards are taken and dropped in,
/// the count of tasks in flight is the number of guards taken and not yet
/// dropped, and no drop ever meets an empty count.
pub proof fn law_count_is_live_guards(events: Seq<TaskEvent>)
    requires
        drops_follow_takes(events),
    ensures
        after_events(0, events) == guards_taken(events) - guards_dropped(events),
        forall|k: int|
            0 <= k < events.len() && events[k] == TaskEvent::Finish ==> after_events(
                0,
                #[trigger] events.take(k),
            ) > 0,
    decreases events.len(),
{
    if events.len() > 0 {
        let prefix = events.drop_last();
        assert forall|k: int| 0 <= k <= prefix.len() implies guards_dropped(
            #[trigger] prefix.take(k),
        ) <= guards_taken(prefix.take(k)) by {
            assert(prefix.take(k) =~= events.take(k));
        }
        law_count_is_live_guards(prefix);
        assert(events.take(events.len() as int) =~= events);
        assert forall|k: int|
            0 <= k < events.len() && events[k] == TaskEvent::Finish implies after_events(
            0,
            #[trigger] events.take(k),
        ) > 0 by {
            if k < prefix.len() {
                assert(prefix.take(k) =~= events.take(k));
                assert(prefix[k] == events[k]);
            } else {
                assert(events.take(k) =~= prefix);
            }
        }
    }
}

/// Why a graceful shutdown did not complete.
#[derive(Debug)]
pub enum ShutdownError {
    /// Tasks were still running when the wait ended.
    Timeout { remaining_tasks: usize, timeout: std::time::Duration },
    /// A task could not be joined.
    TaskJoinError(tokio::task::JoinError),
}

/// Calls `Duration`'s `Debug` (such as `50ms`). Nothing is claimed of the
/// text.
#[verifier::external_body]
fn duration_text(d: &std::time::Duration) -> String {
    format!("{:?}", d)
}

/// Calls `JoinError`'s `Display`. Nothing is claimed of the text.
#[verifier::external_body]
fn join_error_text(e: &tokio::task::JoinError) -> String {
    e.to_string()
}

impl ShutdownError {
    /// The display text of the error.
    pub fn text(&self) -> (r: String)
        ensures
            match self {
                ShutdownError::Timeout { remaining_tasks, .. } => {
                    let head = "Shutdown timeout exceeded: "@ + decimal_text(*remaining_tasks as nat)
                        + " tasks still active after "@;
                    r@.len() >= head.len() && r@.subrange(0, head.len() as int) == head
                },
                ShutdownError::TaskJoinError(_) => r@.len() >= 17 && r@.subrange(0, 17)
                    == "Task join error: "@,
            },
    {
        proof {
            reveal_strlit("Shutdown timeout exceeded: ");
            reveal_strlit(" tasks still active after ");
            reveal_strlit("Task join error: ");
        }
        match self {
            ShutdownError::Timeout { remaining_tasks, timeout } => {
                let mut r = "Shutdown timeout exceeded: ".to_owned();
                r.append(decimal(*remaining_tasks as u64).as_str());
                r.append(" tasks still active after ");
                let ghost head = r@;
                r.append(duration_text(timeout).as_str());
                assert(r@.subrange(0, head.len() as int) =~= head);
                r
            },
            ShutdownError::TaskJoinError(e) => {
                let mut r = "Task join error: ".to_owned();
                r.append(join_error_text(e).as_str());
                assert(r@.subrange(0, 17) =~= "Task join error: "@);
                r
            },
        }
    }
}

/// The outcome of a graceful shutdown: done when the tasks drained within
/// the timeout, otherwise a timeout naming the tasks still running.
pub fn shutdown_outcome(drained: bool, remaining: usize, timeout: std::time::Duration) -> (r: Result<
    (),
    ShutdownError,
>)
    ensures
        drained ==> r is Ok,
        !drained ==> (r matches Err(ShutdownError::Timeout { remaining_tasks, timeout: t })
            && remaining_tasks == remaining && t == timeout),
{
    if drained {
        Ok(())
    } else {
        Err(ShutdownError::Timeout { remaining_tasks: remaining, timeout })
    }
}

/// What happened in a connection's accept loop.
#[derive(PartialEq, Eq, Structural, Clone, Copy, Debug)]
pub enum AcceptEvent {
    /// The server signalled shutdown.
    ShutdownSignalled,
    /// The peer opened a stream.
    StreamAccepted,
    /// Accepting failed; the connection is likely closed.
    AcceptFailed,
}

/// What the accept loop does next.
#[derive(PartialEq, Eq, Structural, Clone, Copy, Debug)]
pub enum AcceptAction {
    /// Leave the loop.
    Stop,
    /// Count a new task and handle the stream in it.
    Spawn,
}

/// A connection keeps accepting streams until shutdown is signalled or
/// under way, or accepting fails; only an accepted stream while the server
/// is not shutting down is handled.
pub fn on_accept(event: AcceptEvent, shutting_down: bool) -> (r: AcceptAction)
    ensures
        r == (if event == AcceptEvent::StreamAccepted && !shutting_down {
            AcceptAction::Spawn
        } else {
            AcceptAction::Stop
        }),
{
    match event {
        AcceptEvent::ShutdownSignalled => AcceptAction::Stop,
        AcceptEvent::StreamAccepted => if shutting_down {
            AcceptAction::Stop
        } else {
            AcceptAction::Spawn
        },
        AcceptEvent::AcceptFailed => AcceptAction::Stop,
    }
}

} // verus!
