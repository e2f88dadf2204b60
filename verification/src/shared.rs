//! `RefContext`: a context behind a shared lock, and the only ways to make one.

use std::sync::Arc;
use tokio::sync::Mutex;
use vstd::prelude::*;

use crate::context::Context;
use crate::model::ContextModel;
use crate::tokio_api::{share_again, SharedContext};

verus! {

/// Shared access to a context, for chaining: a context behind an
/// `Arc<tokio::sync::Mutex<_>>`, with the same API as `Context`.
///
/// Its model (`@`) is the model of the context that was put behind the lock,
/// recorded when it was. The library never replaces a locked context; code that
/// locks the cell itself and replaces the context leaves that record behind.
pub struct RefContext {
    inner: SharedContext,
    /// The model of the context that was put behind the lock, fixed when it was.
    model: Ghost<ContextModel>,
    /// The shared cell of that context's parent, if any, fixed at the same time.
    parent: Ghost<Option<SharedContext>>,
}

impl RefContext {
    /// The shared cell that holds the context modelled by `self@`; clones of a
    /// `RefContext` hold cells that point at the same lock.
    pub closed spec fn cell(&self) -> SharedContext {
        self.inner
    }

    /// The shared cell of the parent of the context put behind the lock, if any.
    pub closed spec fn parent_cell(&self) -> Option<SharedContext> {
        self.parent@
    }
}

impl View for RefContext {
    type V = ContextModel;

    closed spec fn view(&self) -> ContextModel {
        self.model@
    }
}

impl RefContext {
    /// The shared cell that holds the context, for `done` to lock.
    pub fn shared(&self) -> (cell: &SharedContext)
        ensures
            *cell == self.cell(),
    {
        &self.inner
    }
}

impl Clone for RefContext {
    /// Another reference to the same shared context.
    fn clone(&self) -> (copy: Self)
        ensures
            copy.cell() == self.cell(),
            copy.parent_cell() == self.parent_cell(),
            copy@ == self@,
    {
        RefContext { inner: share_again(&self.inner), model: Ghost(self.model@), parent: Ghost(self.parent@) }
    }
}

/// Calls `tokio::sync::Mutex::new` on the context and `Arc::new` on the mutex, and
/// records, beside the new cell, the model and the parent cell of the context it
/// locks: the returned `RefContext` holds exactly `ctx` behind its lock.
#[verifier::external_body]
pub(crate) fn share_context(ctx: Context) -> (shared: RefContext)
    ensures
        shared@ == ctx@,
        shared.parent_cell() == ctx.parent_cell(),
{
    let ghost model = ctx@;
    let ghost parent = ctx.parent_cell();
    RefContext { inner: SharedContext(Arc::new(Mutex::new(ctx))), model: Ghost(model), parent: Ghost(parent) }
}

} // verus!
