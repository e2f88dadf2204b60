//! Chainable contexts: `Context`, its `Handle`, and the shared `RefContext` that can
//! serve as a parent.

use std::time::Duration;
use tokio::sync::broadcast::{Receiver, Sender};
use tokio::time::Instant;
use vstd::prelude::*;

use crate::model::{deadline_for, ContextModel, Signals, Wake};
use crate::shared::share_context;
pub use crate::shared::RefContext;
use crate::tokio_api::{
    channel_of, deadline_after, duration_secs, new_cancel_sender,
    instant_add, subscribe, SharedContext, MAX_TIMEOUT_SECS,
};

verus! {

/// An object passed to asynchronous functions, telling them whether they should
/// terminate gracefully.
///
/// Its `done` future completes when the `Handle` it was made with is cancelled or
/// dropped, when its optional deadline passes, or when its optional parent context
/// is done. Its model (`@`) is a `ContextModel`.
pub struct Context {
    /// An optional deadline. Once it has passed, `done` completes at once.
    pub(crate) timeout: Option<Instant>,
    /// Receives the cancel signal from the handle that spawned this context.
    pub(crate) cancel_receiver: Receiver<()>,
    /// An optional parent whose cancellation cancels this context too.
    pub(crate) parent_ctx: Option<RefContext>,
}

/// Returned with a new `Context`; cancels it, explicitly with `cancel` or by being
/// dropped. Only the owner of the handle can spawn more contexts tied to it.
pub struct Handle {
    /// Copied into every context spawned off this handle.
    pub(crate) timeout: Option<Instant>,
    /// Dropping it closes the channel, which cancels every spawned context.
    pub(crate) cancel_sender: Sender<()>,
    /// Copied into every context spawned off this handle, if it is chained.
    pub(crate) parent_ctx: Option<RefContext>,
}

/// The shared cell of an optional parent.
pub open spec fn parent_cell_of(parent: Option<RefContext>) -> Option<SharedContext> {
    match parent {
        Some(p) => Some(p.cell()),
        None => None,
    }
}

/// The model of an optional parent.
pub open spec fn parent_model(parent: Option<RefContext>) -> Option<Box<ContextModel>> {
    match parent {
        Some(p) => Some(Box::new(p@)),
        None => None,
    }
}

impl Context {
    /// The receiver of the cancel signal that this context holds.
    pub closed spec fn receiver(&self) -> Receiver<()> {
        self.cancel_receiver
    }

    /// The shared cell of the parent that this context is chained to, if any.
    pub closed spec fn parent_cell(&self) -> Option<SharedContext> {
        parent_cell_of(self.parent_ctx)
    }

    /// This context with its receiver replaced by `receiver` and nothing else changed.
    pub closed spec fn with_receiver(&self, receiver: Receiver<()>) -> Context {
        Context { cancel_receiver: receiver, ..*self }
    }
}

impl View for Context {
    type V = ContextModel;

    closed spec fn view(&self) -> ContextModel {
        ContextModel {
            channel: channel_of(self.cancel_receiver),
            deadline: self.timeout,
            parent: parent_model(self.parent_ctx),
        }
    }
}

impl Handle {
    /// The shared cell of the parent that the handle's contexts are chained to, if any.
    pub closed spec fn parent_cell(&self) -> Option<SharedContext> {
        parent_cell_of(self.parent_ctx)
    }
}

/// A handle's model is the model of every context it spawns.
impl View for Handle {
    type V = ContextModel;

    closed spec fn view(&self) -> ContextModel {
        ContextModel { channel: self.cancel_sender, deadline: self.timeout, parent: parent_model(self.parent_ctx) }
    }
}

/// Whether a context made with this optional timeout has a deadline that the
/// library can compute (see `MAX_TIMEOUT_SECS`).
pub open spec fn timeout_ok(timeout: Option<Duration>) -> bool {
    timeout matches Some(t) ==> duration_secs(t) <= MAX_TIMEOUT_SECS
}

/// The deadline that an optional timeout gives: none without a timeout.
fn optional_deadline(timeout: Option<Duration>) -> (deadline: Option<Instant>)
    requires
        timeout_ok(timeout),
    ensures
        deadline_for(deadline, timeout),
{
    match timeout {
        Some(t) => {
            let (start, deadline) = deadline_after(t);
            assert(Some(deadline) == Some(instant_add(start, t)));
            Some(deadline)
        },
        None => None,
    }
}

impl Handle {
    /// Cancels the context, so that `done` completes at once: dropping the handle
    /// drops the sender, which closes the channel.
    pub fn cancel(self) {
    }

    /// Spawns a context identical to the one created along with this handle: same
    /// deadline, same parent, listening to the same cancel channel.
    pub fn spawn_ctx(&mut self) -> (ctx: Context)
        ensures
            ctx@ == old(self)@,
            ctx.parent_cell() == old(self).parent_cell(),
            *final(self) == *old(self),
    {
        let parent_ctx = match &self.parent_ctx {
            Some(ctx) => Some(ctx.clone()),
            None => None,
        };
        Context {
            timeout: self.timeout,
            cancel_receiver: subscribe(&self.cancel_sender),
            parent_ctx,
        }
    }

    /// Spawns a `RefContext` identical to the context created along with this handle.
    pub fn spawn_ref(&mut self) -> (ctx: RefContext)
        ensures
            ctx@ == old(self)@,
            ctx.parent_cell() == old(self).parent_cell(),
            *final(self) == *old(self),
    {
        RefContext::from(self.spawn_ctx())
    }
}

impl Context {
    /// Builds the handle, and the first context spawned off it.
    fn build(timeout: Option<Duration>, parent_ctx: Option<RefContext>) -> (res: (Context, Handle))
        requires
            timeout_ok(timeout),
        ensures
            res.0@ == res.1@,
            res.0.parent_cell() == res.1.parent_cell(),
            deadline_for(res.1@.deadline, timeout),
            res.1@.parent == parent_model(parent_ctx),
            res.1.parent_cell() == parent_cell_of(parent_ctx),
    {
        let timeout = optional_deadline(timeout);
        let tx = new_cancel_sender(1);
        let mut handle = Handle { timeout, cancel_sender: tx, parent_ctx };
        (handle.spawn_ctx(), handle)
    }

    /// Builds a new context without a timeout; its `done` completes when the handle
    /// is cancelled or dropped.
    pub fn new() -> (res: (Context, Handle))
        ensures
            res.0@ == res.1@,
            res.1@.deadline is None,
            res.1@.parent is None,
    {
        Context::build(None, None)
    }

    /// Builds a new context whose `done` completes when the handle is cancelled or
    /// when `timeout` has elapsed.
    pub fn with_timeout(timeout: Duration) -> (res: (Context, Handle))
        requires
            duration_secs(timeout) <= MAX_TIMEOUT_SECS,
        ensures
            res.0@ == res.1@,
            deadline_for(res.1@.deadline, Some(timeout)),
            res.1@.parent is None,
    {
        Context::build(Some(timeout), None)
    }

    /// Builds a new context chained to `parent_ctx`: its `done` completes when the
    /// handle is cancelled, the optional timeout elapses, or the parent is done.
    pub fn with_parent(parent_ctx: &RefContext, timeout: Option<Duration>) -> (res: (Context, Handle))
        requires
            timeout_ok(timeout),
        ensures
            res.0@ == res.1@,
            res.0.parent_cell() == res.1.parent_cell(),
            deadline_for(res.1@.deadline, timeout),
            res.1@.parent == Some(Box::new(parent_ctx@)),
            res.1.parent_cell() == Some(parent_ctx.cell()),
    {
        Context::build(timeout, Some(parent_ctx.clone()))
    }

    /// The deadline after which `done` completes, if there is one.
    pub fn deadline(&self) -> (deadline: Option<Instant>)
        ensures
            deadline == self@.deadline,
    {
        self.timeout
    }

    /// The parent context whose completion `done` also waits on, if there is one.
    pub fn parent(&self) -> (parent: Option<&RefContext>)
        ensures
            match parent {
                Some(p) => self@.parent == Some(Box::new(p@)) && self.parent_cell() == Some(p.cell()),
                None => self@.parent is None && self.parent_cell() is None,
            },
    {
        match &self.parent_ctx {
            Some(p) => Some(p),
            None => None,
        }
    }

    /// The receiver of the cancel signal, for `done` to wait on.
    pub fn cancel_receiver(&mut self) -> (receiver: &mut Receiver<()>)
        ensures
            *receiver == old(self).receiver(),
            channel_of(*receiver) == old(self)@.channel,
            final(self).receiver() == *final(receiver),
            *final(self) == old(self).with_receiver(*final(receiver)),
            final(self).parent_cell() == old(self).parent_cell(),
            channel_of(*final(receiver)) == channel_of(*receiver) ==> final(self)@ == old(self)@,
    {
        &mut self.cancel_receiver
    }

    /// What `done` does when `source` fires: it completes (`true`) on every source
    /// it waits on, and ignores (`false`) a source it does not wait on.
    pub fn on_wake(&self, source: Wake) -> (finish: bool)
        ensures
            finish == self@.listens_to(source),
    {
        match source {
            Wake::Deadline => self.timeout.is_some(),
            Wake::Cancel => true,
            Wake::Parent => self.parent_ctx.is_some(),
        }
    }
}

impl RefContext {
    /// Builds a new `RefContext` without a timeout.
    pub fn new() -> (res: (RefContext, Handle))
        ensures
            res.0@ == res.1@,
            res.1@.deadline is None,
            res.1@.parent is None,
    {
        let (context, handle) = Context::new();
        (RefContext::from(context), handle)
    }

    /// Builds a new `RefContext` whose `done` completes when the handle is cancelled
    /// or when `timeout` has elapsed.
    pub fn with_timeout(timeout: Duration) -> (res: (RefContext, Handle))
        requires
            duration_secs(timeout) <= MAX_TIMEOUT_SECS,
        ensures
            res.0@ == res.1@,
            deadline_for(res.1@.deadline, Some(timeout)),
            res.1@.parent is None,
    {
        let (context, handle) = Context::with_timeout(timeout);
        (RefContext::from(context), handle)
    }

    /// Builds a new `RefContext` chained to `parent_ctx`, so that the chain can be
    /// continued from it.
    pub fn with_parent(parent_ctx: &RefContext, timeout: Option<Duration>) -> (res: (RefContext, Handle))
        requires
            timeout_ok(timeout),
        ensures
            res.0@ == res.1@,
            deadline_for(res.1@.deadline, timeout),
            res.1@.parent == Some(Box::new(parent_ctx@)),
            res.1.parent_cell() == Some(parent_ctx.cell()),
            res.0.parent_cell() == Some(parent_ctx.cell()),
    {
        let (context, handle) = Context::with_parent(parent_ctx, timeout);
        (RefContext::from(context), handle)
    }
}

impl From<Context> for RefContext {
    /// Puts the context behind a shared lock.
    fn from(ctx: Context) -> (shared: Self)
        ensures
            shared@ == ctx@,
            shared.parent_cell() == ctx.parent_cell(),
    {
        share_context(ctx)
    }
}

/// `from` puts the context behind a new lock, which a spec function cannot build, so
/// no `from_spec` is claimed; `from` states its result through the model instead.
impl vstd::std_specs::convert::FromSpecImpl<Context> for RefContext {
    open spec fn obeys_from_spec() -> bool {
        false
    }

    open spec fn from_spec(v: Context) -> RefContext {
        vstd::pervasive::arbitrary()
    }
}

/// Cancelling (or dropping) a handle cancels every context spawned off it: once the
/// handle's cancel sender has been dropped, each such context's `done` completes.
pub proof fn lemma_cancel_cancels_spawned(handle: Handle, ctx: Context, signals: Signals)
    requires
        ctx@ == handle@,
        signals.dropped.contains(handle@.channel),
    ensures
        ctx@.completes(signals),
{
}

/// Contexts spawned off one handle are identical: whatever has happened, `done`
/// completes on one of them exactly when it completes on the other.
pub proof fn lemma_spawned_contexts_agree(handle: Handle, a: Context, b: Context, signals: Signals)
    requires
        a@ == handle@,
        b@ == handle@,
    ensures
        a@.completes(signals) == b@.completes(signals),
{
}

/// A context with a timeout is cancelled once its deadline has passed.
pub proof fn lemma_deadline_cancels(ctx: Context, signals: Signals)
    requires
        ctx@.deadline matches Some(d) && (signals.elapsed)(d),
    ensures
        ctx@.completes(signals),
{
}

/// Cancelling a parent context cancels the child chained to it.
pub proof fn lemma_cancelling_parent_cancels_child(parent: RefContext, child: Context, signals: Signals)
    requires
        child@.parent == Some(Box::new(parent@)),
        parent@.completes(signals),
    ensures
        child@.completes(signals),
{
    crate::model::lemma_parent_completion_reaches_child(child@, signals);
}

/// A parent's timeout cancels the child chained to it, whatever the child's own
/// timeout.
pub proof fn lemma_parent_timeout_cancels_child(parent: RefContext, child: Context, signals: Signals)
    requires
        child@.parent == Some(Box::new(parent@)),
        parent@.deadline matches Some(d) && (signals.elapsed)(d),
    ensures
        child@.completes(signals),
{
    assert(parent@.completes(signals));
    crate::model::lemma_parent_completion_reaches_child(child@, signals);
}

/// Cancelling a child's handle does not cancel its parent: dropping the child's
/// cancel sender, which is none of the parent chain's own senders, leaves the
/// parent's `done` exactly as it was.
pub proof fn lemma_cancelling_child_leaves_parent(parent: RefContext, child: Handle, signals: Signals)
    requires
        child@.parent == Some(Box::new(parent@)),
        !parent@.channels().contains(child@.channel),
    ensures
        parent@.completes(signals.with_dropped(child@.channel)) == parent@.completes(signals),
{
    crate::model::lemma_unrelated_drop_changes_nothing(parent@, signals, child@.channel);
}

/// `done` completes exactly on the sources for which `on_wake` says to finish: it
/// has completed if and only if some source that `on_wake` accepts has fired.
pub proof fn lemma_done_follows_on_wake(ctx: Context, signals: Signals)
    ensures
        ctx@.completes(signals) <==> exists|w: Wake| #[trigger] ctx@.listens_to(w) && ctx@.fired(w, signals),
{
    crate::model::lemma_completes_iff_a_source_fired(ctx@, signals);
}

/// A `RefContext` spawned off, or built together with, a handle is cancelled by
/// exactly what cancels the handle's contexts: once the handle's sender is dropped
/// it is cancelled, and while that sender lives, its deadline has not passed and its
/// parent is not cancelled, it is not.
pub proof fn lemma_shared_context_follows_its_handle(shared: RefContext, handle: Handle, signals: Signals)
    requires
        shared@ == handle@,
    ensures
        signals.dropped.contains(handle@.channel) ==> shared@.completes(signals),
        (!signals.dropped.contains(handle@.channel)
            && !(handle@.deadline matches Some(d) && (signals.elapsed)(d))
            && !(handle@.parent matches Some(p) && p.completes(signals)))
            ==> !shared@.completes(signals),
{
}

/// A `RefContext` made with a timeout is cancelled once that timeout has elapsed
/// from the clock reading taken when it was made, whatever else has happened.
pub proof fn lemma_shared_context_times_out(shared: RefContext, start: Instant, timeout: Duration, signals: Signals)
    requires
        shared@.deadline == Some(instant_add(start, timeout)),
        (signals.elapsed)(instant_add(start, timeout)),
    ensures
        shared@.completes(signals),
{
}

/// A `RefContext` spawned off a chained handle is cancelled whenever the handle's
/// parent is: chaining survives `spawn_ref`.
pub proof fn lemma_spawned_shared_context_follows_parent(shared: RefContext, handle: Handle, signals: Signals)
    requires
        shared@ == handle@,
        handle@.parent matches Some(p) && p.completes(signals),
    ensures
        shared@.completes(signals),
{
    crate::model::lemma_parent_completion_reaches_child(shared@, signals);
}

} // verus!
