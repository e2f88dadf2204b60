//! The mathematical model of cancellation: what a context waits on, and when its
//! `done` future completes.

use tokio::sync::broadcast::Sender;
use std::time::Duration;
use tokio::time::Instant;
use vstd::prelude::*;

use crate::tokio_api::instant_add;

verus! {

/// What a context is made of, as far as cancellation goes: the sending half whose
/// drop cancels it, its optional deadline, and the optional parent whose
/// completion it follows.
pub struct ContextModel {
    pub channel: Sender<()>,
    pub deadline: Option<Instant>,
    pub parent: Option<Box<ContextModel>>,
}

/// What has happened outside the library at some moment: which cancel senders have
/// been dropped (by `cancel` or by dropping a handle), and which instants have
/// passed.
pub ghost struct Signals {
    pub dropped: Set<Sender<()>>,
    pub elapsed: spec_fn(Instant) -> bool,
}

/// The deadline that an optional timeout gives: none without a timeout, and with
/// one the timeout added to the clock's reading at the moment the deadline was made.
pub open spec fn deadline_for(deadline: Option<Instant>, timeout: Option<Duration>) -> bool {
    match timeout {
        Some(t) => exists|start: Instant| deadline == Some(#[trigger] instant_add(start, t)),
        None => deadline is None,
    }
}

/// The sources a `done` future waits on.
#[derive(Clone, Copy, Debug, PartialEq, Eq, Structural)]
pub enum Wake {
    /// The context's own deadline has been reached.
    Deadline,
    /// The context's cancel channel has signalled (its sender was dropped).
    Cancel,
    /// The parent context's `done` has completed.
    Parent,
}

impl Signals {
    /// The same moment, after `sender` has been dropped as well.
    pub open spec fn with_dropped(self, sender: Sender<()>) -> Signals {
        Signals { dropped: self.dropped.insert(sender), elapsed: self.elapsed }
    }

    /// `later` is a later moment than `self`: no dropped sender comes back, and no
    /// instant that has passed stops having passed.
    pub open spec fn precedes(self, later: Signals) -> bool {
        &&& self.dropped.subset_of(later.dropped)
        &&& forall|i: Instant| #[trigger] (self.elapsed)(i) ==> (later.elapsed)(i)
    }
}

impl ContextModel {
    /// The model of a context without a parent.
    pub open spec fn root(channel: Sender<()>, deadline: Option<Instant>) -> ContextModel {
        ContextModel { channel, deadline, parent: None }
    }

    /// Whether `done` waits on `source` at all.
    pub open spec fn listens_to(self, source: Wake) -> bool {
        match source {
            Wake::Deadline => self.deadline is Some,
            Wake::Cancel => true,
            Wake::Parent => self.parent is Some,
        }
    }

    /// Whether the context counts as cancelled once `signals` have happened: its
    /// sender was dropped, or its deadline passed, or its parent counts as
    /// cancelled. A `done` future that waits on a parent first takes the parent's
    /// lock, so it can complete later than this, while another pending `done`
    /// holds that lock.
    pub open spec fn completes(self, signals: Signals) -> bool
        decreases self,
    {
        ||| signals.dropped.contains(self.channel)
        ||| (self.deadline matches Some(d) && (signals.elapsed)(d))
        ||| (self.parent matches Some(p) && p.completes(signals))
    }

    /// Whether `source` has fired once `signals` have happened.
    pub open spec fn fired(self, source: Wake, signals: Signals) -> bool {
        match source {
            Wake::Deadline => self.deadline matches Some(d) && (signals.elapsed)(d),
            Wake::Cancel => signals.dropped.contains(self.channel),
            Wake::Parent => self.parent matches Some(p) && p.completes(signals),
        }
    }

    /// The cancel senders of this context and of all its ancestors.
    pub open spec fn channels(self) -> Set<Sender<()>>
        decreases self,
    {
        match self.parent {
            Some(p) => p.channels().insert(self.channel),
            None => Set::empty().insert(self.channel),
        }
    }
}

/// `done` completes exactly when one of the sources it waits on has fired.
pub proof fn lemma_completes_iff_a_source_fired(ctx: ContextModel, signals: Signals)
    ensures
        ctx.completes(signals) <==> exists|w: Wake| #[trigger] ctx.listens_to(w) && ctx.fired(w, signals),
{
    if ctx.completes(signals) {
        if signals.dropped.contains(ctx.channel) {
            assert(ctx.listens_to(Wake::Cancel) && ctx.fired(Wake::Cancel, signals));
        } else if ctx.deadline matches Some(d) && (signals.elapsed)(d) {
            assert(ctx.listens_to(Wake::Deadline) && ctx.fired(Wake::Deadline, signals));
        } else {
            assert(ctx.listens_to(Wake::Parent) && ctx.fired(Wake::Parent, signals));
        }
    }
}

/// Cancellation is permanent: a context whose `done` has completed stays completed
/// at every later moment.
pub proof fn lemma_completion_is_permanent(ctx: ContextModel, earlier: Signals, later: Signals)
    requires
        earlier.precedes(later),
        ctx.completes(earlier),
    ensures
        ctx.completes(later),
    decreases ctx,
{
    if !earlier.dropped.contains(ctx.channel) && !(ctx.deadline matches Some(d) && (earlier.elapsed)(d)) {
        let p = *ctx.parent.unwrap();
        lemma_completion_is_permanent(p, earlier, later);
    } else if earlier.dropped.contains(ctx.channel) {
        assert(later.dropped.contains(ctx.channel));
    } else {
        let d = ctx.deadline.unwrap();
        assert((earlier.elapsed)(d));
    }
}

/// Dropping a sender that is not among a context's own and its ancestors' cancel
/// senders changes nothing for that context.
pub proof fn lemma_unrelated_drop_changes_nothing(ctx: ContextModel, signals: Signals, sender: Sender<()>)
    requires
        !ctx.channels().contains(sender),
    ensures
        ctx.completes(signals.with_dropped(sender)) == ctx.completes(signals),
    decreases ctx,
{
    if let Some(p) = ctx.parent {
        lemma_unrelated_drop_changes_nothing(*p, signals, sender);
    }
}

/// A parent's completion always reaches its children: whenever a context's parent
/// has completed, so has the context.
pub proof fn lemma_parent_completion_reaches_child(child: ContextModel, signals: Signals)
    requires
        child.parent matches Some(p) && p.completes(signals),
    ensures
        child.completes(signals),
{
}

} // verus!
