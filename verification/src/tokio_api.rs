//! The parts of tokio (and of `std::time::Duration`) that the library calls, with
//! the contracts that the rest of the crate relies on.

use std::sync::Arc;
use std::time::Duration;
use tokio::sync::broadcast::{Receiver, Sender};
use tokio::sync::Mutex;
use tokio::time::Instant;
use vstd::prelude::*;

use crate::context::Context;

verus! {

#[verifier::external_type_specification]
#[verifier::external_body]
#[verifier::reject_recursive_types(T)]
pub struct ExSender<T>(tokio::sync::broadcast::Sender<T>);

#[verifier::external_type_specification]
#[verifier::external_body]
#[verifier::reject_recursive_types(T)]
pub struct ExReceiver<T>(tokio::sync::broadcast::Receiver<T>);

#[verifier::external_type_specification]
#[verifier::external_body]
pub struct ExInstant(tokio::time::Instant);

/// The channel that a receiver receives from, given by that channel's sender: the
/// receivers that `Sender::subscribe` hands out belong to the sender's channel, and
/// tokio's `same_channel` on two receivers compares exactly this.
pub uninterp spec fn channel_of(receiver: Receiver<()>) -> Sender<()>;

/// The number of whole seconds in `d`, as `Duration::as_secs` returns it.
pub uninterp spec fn duration_secs(d: Duration) -> u64;

/// The longest timeout, in whole seconds, that the library turns into a deadline.
///
/// A deadline is the monotonic clock's reading plus the timeout, and that addition
/// panics when the sum leaves the clock's range (a signed 64-bit count of seconds).
/// Readings of the monotonic clock stay far below 2^62 seconds, so any timeout of
/// at most this many seconds can be added to any of them.
pub const MAX_TIMEOUT_SECS: u64 = 0x3fff_ffff_ffff_ffff;

/// Calls `Duration::as_secs`, which returns the whole seconds of the duration.
#[verifier::external_body]
pub(crate) fn whole_secs(d: &Duration) -> (secs: u64)
    ensures
        secs == duration_secs(*d),
{
    d.as_secs()
}

/// Calls `tokio::sync::broadcast::channel` and keeps the sending half; the
/// receiving half that the call also makes is dropped at once.
///
/// The tokio documentation says the call panics when `capacity` is `0` or exceeds
/// `usize::MAX / 2`; `requires` leaves those out. What the channel delivers is not
/// stated: the library only ever drops the sender, which closes the channel.
#[verifier::external_body]
pub(crate) fn new_cancel_sender(capacity: usize) -> (sender: Sender<()>)
    requires
        0 < capacity <= usize::MAX / 2,
{
    let (tx, _) = tokio::sync::broadcast::channel(capacity);
    tx
}

/// Calls `Sender::subscribe`, which hands out a new receiver of the sender's channel.
#[verifier::external_body]
pub(crate) fn subscribe(sender: &Sender<()>) -> (receiver: Receiver<()>)
    ensures
        channel_of(receiver) == *sender,
{
    sender.subscribe()
}

/// The instant `d` after `i`, as tokio's `Add<Duration>` for `Instant` computes it.
pub uninterp spec fn instant_add(i: Instant, d: Duration) -> Instant;

/// Calls `tokio::time::Instant::now()` and adds `timeout` to that reading with
/// tokio's `Add<Duration>` for `Instant`, which panics when the sum is out of the
/// clock's range; `requires` keeps the timeout small enough for that never to
/// happen. Returns the reading and the sum. The reading depends on the clock, so
/// nothing is stated of it; the sum is the reading plus `timeout`.
#[verifier::external_body]
pub(crate) fn deadline_after(timeout: Duration) -> (res: (Instant, Instant))
    requires
        duration_secs(timeout) <= MAX_TIMEOUT_SECS,
    ensures
        res.1 == instant_add(res.0, timeout),
{
    let start = Instant::now();
    (start, start + timeout)
}

/// A context behind a shared, asynchronously locked cell: `Arc<tokio::sync::Mutex<Context>>`.
///
/// The cell is held opaque, like a collection of an outside crate: a context's parent
/// is such a cell, so its type holds `Context` itself, and tokio's `Mutex` is
/// declared as rejecting recursive types. Nothing is stated of what it holds at a
/// given moment: a lock hands out mutable access. The field is public so that the
/// asynchronous code around the library can lock it.
#[verifier::external_body]
pub struct SharedContext(pub Arc<Mutex<Context>>);

/// Calls `Arc::clone`: the copy points at the same mutex, so it is the same cell.
#[verifier::external_body]
pub(crate) fn share_again(cell: &SharedContext) -> (copy: SharedContext)
    ensures
        copy == *cell,
{
    SharedContext(Arc::clone(&cell.0))
}

} // verus!
