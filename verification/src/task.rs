//! `TaskController`: spawns tasks that are cut short when the controller is
//! cancelled or when its optional timeout elapses.

use std::time::Duration;
use tokio::sync::broadcast::{Receiver, Sender};
use tokio::time::Instant;
use vstd::prelude::*;

use crate::model::{deadline_for, ContextModel};
use crate::tokio_api::{
    channel_of, deadline_after, instant_add, duration_secs, new_cancel_sender, subscribe, MAX_TIMEOUT_SECS,
};

verus! {

/// Spawns tasks which are cancelled when `cancel` is called on the controller (or
/// when it is dropped), or when the optional timeout supplied at construction has
/// elapsed. Unlike a `Context`, the tasks are cut short abruptly.
///
/// Its model (`@`) is the `ContextModel` of the cancellation that every task it
/// spawns obeys: its channel, its deadline, and no parent.
pub struct TaskController {
    timeout: Option<Instant>,
    cancel_sender: Sender<()>,
}

/// What a task spawned by a controller sees first.
pub enum TaskEvent<T> {
    /// The task's future completed with this output.
    Finished(T),
    /// The controller was cancelled or dropped.
    Cancelled,
    /// The controller's deadline passed.
    DeadlineReached,
}

impl View for TaskController {
    type V = ContextModel;

    closed spec fn view(&self) -> ContextModel {
        ContextModel::root(self.cancel_sender, self.timeout)
    }
}

impl TaskController {
    /// Cancels every task spawned by this controller; dropping the controller does
    /// the same.
    pub fn cancel(self) {
    }

    /// A controller whose tasks are cancelled only by `cancel`.
    pub fn new() -> (controller: TaskController)
        ensures
            controller@.deadline is None,
            controller@.parent is None,
    {
        let tx = new_cancel_sender(1);
        TaskController { timeout: None, cancel_sender: tx }
    }

    /// A controller whose tasks are cancelled by `cancel`, or once `timeout` has
    /// elapsed from now.
    pub fn with_timeout(timeout: Duration) -> (controller: TaskController)
        requires
            duration_secs(timeout) <= MAX_TIMEOUT_SECS,
        ensures
            deadline_for(controller@.deadline, Some(timeout)),
            controller@.parent is None,
    {
        let tx = new_cancel_sender(1);
        let (start, deadline) = deadline_after(timeout);
        let controller = TaskController { timeout: Some(deadline), cancel_sender: tx };
        assert(controller@.deadline == Some(instant_add(start, Some(timeout)->0)));
        controller
    }

    /// The deadline after which spawned tasks are cut short, if there is one.
    pub fn deadline(&self) -> (deadline: Option<Instant>)
        ensures
            deadline == self@.deadline,
    {
        self.timeout
    }

    /// A new receiver of the controller's cancel signal, for a task to wait on.
    pub fn subscribe(&mut self) -> (receiver: Receiver<()>)
        ensures
            channel_of(receiver) == old(self)@.channel,
            *final(self) == *old(self),
    {
        subscribe(&self.cancel_sender)
    }

    /// What a spawned task yields, given the first event it sees: the future's
    /// output when it finished first, and `None` when the task was cut short by
    /// cancellation or by the deadline.
    pub fn outcome<T>(event: TaskEvent<T>) -> (output: Option<T>)
        ensures
            match event {
                TaskEvent::Finished(v) => output == Some(v),
                TaskEvent::Cancelled => output is None,
                TaskEvent::DeadlineReached => output is None,
            },
    {
        match event {
            TaskEvent::Finished(v) => Some(v),
            TaskEvent::Cancelled => None,
            TaskEvent::DeadlineReached => None,
        }
    }
}

} // verus!
