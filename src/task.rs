//! The two-phase task protocol: work runs once on a worker thread, and its
//! result is delivered once, back on the thread that created the task.
//! The host's threads carry out the actions that this state machine returns.

use vstd::prelude::*;

verus! {

/// Where a task stands.
pub enum TaskPhase<R> {
    /// Created on its thread of origin; its work has not run.
    Pending,
    /// The work ran and left this result, not yet delivered.
    Completed(R),
    /// The result was delivered.
    Delivered,
}

/// What the host does next for a task.
pub enum TaskAction<R> {
    /// Run the task's work on the worker thread, then call `complete`.
    RunWork,
    /// Dispatch the runnable back to its thread of origin.
    DispatchToSource,
    /// Hand this result to the task's completion handler, on the thread of origin.
    Deliver(R),
    /// Nothing is left to do.
    Nothing,
}

pub open spec fn spec_run<R>(p: TaskPhase<R>) -> (TaskPhase<R>, TaskAction<R>) {
    match p {
        TaskPhase::Pending => (TaskPhase::Pending, TaskAction::RunWork),
        TaskPhase::Completed(r) => (TaskPhase::Delivered, TaskAction::Deliver(r)),
        TaskPhase::Delivered => (TaskPhase::Delivered, TaskAction::Nothing),
    }
}

pub open spec fn spec_complete<R>(p: TaskPhase<R>, result: R) -> (TaskPhase<R>, TaskAction<R>) {
    match p {
        TaskPhase::Pending => (TaskPhase::Completed(result), TaskAction::DispatchToSource),
        _ => (p, TaskAction::Nothing),
    }
}

/// A unit of work with its single result slot.
pub struct TaskRunnable<R> {
    name: String,
    phase: TaskPhase<R>,
}

impl<R> TaskRunnable<R> {
    pub closed spec fn phase(&self) -> TaskPhase<R> {
        self.phase
    }

    pub closed spec fn spec_name(&self) -> Seq<char> {
        self.name@
    }

    /// The name that the host shows for this runnable.
    pub fn get_name(&self) -> (r: String)
        ensures
            r@ == self.spec_name(),
    {
        self.name.clone()
    }

    pub fn new(name: String) -> (r: TaskRunnable<R>)
        ensures
            r.phase() == TaskPhase::<R>::Pending,
            r.spec_name() == name@,
    {
        TaskRunnable { name, phase: TaskPhase::Pending }
    }

    /// Runs the runnable on whichever thread it was dispatched to: a pending
    /// task asks for its work to run; a completed one hands its result over
    /// for delivery, once.
    pub fn run(&mut self) -> (a: TaskAction<R>)
        ensures
            (final(self).phase(), a) == spec_run(old(self).phase()),
            final(self).spec_name() == old(self).spec_name(),
    {
        let mut phase = TaskPhase::Delivered;
        std::mem::swap(&mut phase, &mut self.phase);
        match phase {
            TaskPhase::Pending => {
                self.phase = TaskPhase::Pending;
                TaskAction::RunWork
            },
            TaskPhase::Completed(r) => TaskAction::Deliver(r),
            TaskPhase::Delivered => TaskAction::Nothing,
        }
    }

    /// Stores the result of the work, on the worker thread. Only the first
    /// result of a pending task is kept.
    pub fn complete(&mut self, result: R) -> (a: TaskAction<R>)
        ensures
            (final(self).phase(), a) == spec_complete(old(self).phase(), result),
            final(self).spec_name() == old(self).spec_name(),
    {
        match self.phase {
            TaskPhase::Pending => {
                self.phase = TaskPhase::Completed(result);
                TaskAction::DispatchToSource
            },
            _ => TaskAction::Nothing,
        }
    }
}

/// A task's work runs once and its result is delivered once: from a new
/// task, running it asks for the work, completing it with a result asks for
/// the dispatch back, the next run delivers that result, and every later run
/// or completion does nothing.
pub proof fn lemma_task_delivers_once<R>(result: R, later: R)
    ensures
        spec_run(TaskPhase::<R>::Pending) == (TaskPhase::<R>::Pending, TaskAction::<R>::RunWork),
        spec_complete(TaskPhase::<R>::Pending, result) == (
            TaskPhase::Completed(result),
            TaskAction::<R>::DispatchToSource,
        ),
        spec_complete(TaskPhase::Completed(result), later) == (
            TaskPhase::Completed(result),
            TaskAction::<R>::Nothing,
        ),
        spec_run(TaskPhase::Completed(result)) == (
            TaskPhase::<R>::Delivered,
            TaskAction::Deliver(result),
        ),
        spec_run(TaskPhase::<R>::Delivered) == (TaskPhase::<R>::Delivered, TaskAction::<R>::Nothing),
        spec_complete(TaskPhase::<R>::Delivered, later) == (
            TaskPhase::<R>::Delivered,
            TaskAction::<R>::Nothing,
        ),
{
}

} // verus!
