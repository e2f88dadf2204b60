//! Cancellation of asynchronous work, with a handle that cancels every related
//! future and an optional timeout: the chainable `context::Context`, the
//! `task::TaskController`, and, here at the crate root, the plain `Context` and
//! `Handle` without chaining.

use std::time::Duration;
use tokio::sync::broadcast::{Receiver, Sender};
use tokio::time::Instant;
use vstd::prelude::*;

use crate::model::{deadline_for, ContextModel, Wake};
use crate::tokio_api::{
    channel_of, deadline_after, instant_add, duration_secs, new_cancel_sender, subscribe, whole_secs, MAX_TIMEOUT_SECS,
};

pub mod context;
pub mod model;
pub mod shared;
pub mod task;
pub mod tokio_api;

verus! {

/// Whether the library can turn `timeout` into a deadline: the functions that take
/// a timeout require this of it.
pub fn timeout_supported(timeout: &Duration) -> (ok: bool)
    ensures
        ok == (duration_secs(*timeout) <= MAX_TIMEOUT_SECS),
{
    whole_secs(timeout) <= MAX_TIMEOUT_SECS
}

/// A context without chaining. If a timeout was supplied, `done` completes once it
/// has elapsed; otherwise only when the handle is cancelled or dropped.
pub struct Context {
    pub(crate) timeout: Option<Instant>,
    pub(crate) cancel_receiver: Receiver<()>,
}

/// Returned with a new `Context`; cancels it, explicitly or by being dropped, and
/// spawns more contexts tied to it.
pub struct Handle {
    /// Copied into every context spawned off this handle.
    pub(crate) timeout: Option<Instant>,
    /// Dropping it cancels every context spawned off this handle.
    pub(crate) cancel_sender: Sender<()>,
}

impl Context {
    /// The receiver of the cancel signal that this context holds.
    pub closed spec fn receiver(&self) -> Receiver<()> {
        self.cancel_receiver
    }

    /// This context with its receiver replaced by `receiver` and nothing else changed.
    pub closed spec fn with_receiver(&self, receiver: Receiver<()>) -> Context {
        Context { cancel_receiver: receiver, ..*self }
    }
}

impl View for Context {
    type V = ContextModel;

    closed spec fn view(&self) -> ContextModel {
        ContextModel::root(channel_of(self.cancel_receiver), self.timeout)
    }
}

/// A handle's model is the model of every context it spawns.
impl View for Handle {
    type V = ContextModel;

    closed spec fn view(&self) -> ContextModel {
        ContextModel::root(self.cancel_sender, self.timeout)
    }
}

impl Handle {
    /// Cancels the context, so that `done` completes at once: dropping the handle
    /// drops the sender, which closes the channel.
    pub fn cancel(self) {
    }

    /// Spawns a context identical to the one created along with this handle.
    pub fn spawn_ctx(&mut self) -> (ctx: Context)
        ensures
            ctx@ == old(self)@,
            *final(self) == *old(self),
    {
        Context {
            timeout: self.timeout,
            cancel_receiver: subscribe(&self.cancel_sender),
        }
    }
}

impl Context {
    /// Builds a new context and its handle. `done` completes when the handle is
    /// cancelled or dropped, or when the optional timeout has elapsed.
    pub fn new(timeout: Option<Duration>) -> (res: (Context, Handle))
        requires
            timeout matches Some(t) ==> duration_secs(t) <= MAX_TIMEOUT_SECS,
        ensures
            res.0@ == res.1@,
            deadline_for(res.1@.deadline, timeout),
            res.1@.parent is None,
    {
        let timeout = match timeout {
            Some(t) => {
                let (start, deadline) = deadline_after(t);
                assert(Some(deadline) == Some(instant_add(start, t)));
                Some(deadline)
            },
            None => None,
        };
        let tx = new_cancel_sender(1);
        let mut handle = Handle { timeout, cancel_sender: tx };
        (handle.spawn_ctx(), handle)
    }

    /// The deadline after which `done` completes, if there is one.
    pub fn deadline(&self) -> (deadline: Option<Instant>)
        ensures
            deadline == self@.deadline,
    {
        self.timeout
    }

    /// The receiver of the cancel signal, for `done` to wait on.
    pub fn cancel_receiver(&mut self) -> (receiver: &mut Receiver<()>)
        ensures
            *receiver == old(self).receiver(),
            channel_of(*receiver) == old(self)@.channel,
            final(self).receiver() == *final(receiver),
            *final(self) == old(self).with_receiver(*final(receiver)),
            channel_of(*final(receiver)) == channel_of(*receiver) ==> final(self)@ == old(self)@,
    {
        &mut self.cancel_receiver
    }

    /// What `done` does when `source` fires: it completes (`true`) on every source
    /// it waits on, and ignores (`false`) a source it does not wait on.
    pub fn on_wake(&self, source: Wake) -> (finish: bool)
        ensures
            finish == self@.listens_to(source),
    {
        match source {
            Wake::Deadline => self.timeout.is_some(),
            Wake::Cancel => true,
            Wake::Parent => false,
        }
    }
}

/// Cancelling (or dropping) a handle cancels every context spawned off it.
pub proof fn lemma_cancel_cancels_spawned(handle: Handle, ctx: Context, signals: crate::model::Signals)
    requires
        ctx@ == handle@,
        signals.dropped.contains(handle@.channel),
    ensures
        ctx@.completes(signals),
{
}

/// A context with a timeout is cancelled once its deadline has passed.
pub proof fn lemma_deadline_cancels(ctx: Context, signals: crate::model::Signals)
    requires
        ctx@.deadline matches Some(d) && (signals.elapsed)(d),
    ensures
        ctx@.completes(signals),
{
}

} // verus!
