use std::sync::Arc;
use std::time::Duration;
use tokio::sync::broadcast::error::{RecvError, TryRecvError};
use tokio::time::Instant;
use tokio_context::context::{Context, RefContext};
use tokio_context::model::Wake;

fn runtime() -> tokio::runtime::Runtime {
    tokio::runtime::Builder::new_current_thread().enable_time().build().unwrap()
}

#[test]
fn cancelled_handle_closes_the_context_channel() {
    let (mut ctx, handle) = Context::new();
    handle.cancel();
    let rt = runtime();
    // `done` waits on the cancel signal alone here, and finishes on it.
    assert!(ctx.on_wake(Wake::Cancel));
    let got = rt.block_on(async {
        tokio::time::timeout(Duration::from_millis(1), ctx.cancel_receiver().recv()).await
    });
    assert!(matches!(got, Ok(Err(RecvError::Closed))));
}

#[test]
fn context_deadline_is_reached_after_the_timeout() {
    let (ctx, _handle) = Context::with_timeout(Duration::from_millis(10));
    let deadline = ctx.deadline().unwrap();
    assert!(ctx.on_wake(Wake::Deadline));
    let rt = runtime();
    let got = rt.block_on(async {
        tokio::time::timeout(Duration::from_millis(15), tokio::time::sleep_until(deadline)).await
    });
    assert!(got.is_ok());
}

#[test]
fn cancelled_parent_handle_closes_the_parent_channel() {
    let (parent_ctx, parent_handle) = RefContext::new();
    let (ctx, _handle) = Context::with_parent(&parent_ctx, None);
    parent_handle.cancel();
    // The child's `done` finishes when its parent's does ...
    assert!(ctx.on_wake(Wake::Parent));
    let parent = ctx.parent().unwrap().clone();
    let rt = runtime();
    // ... and the parent's cancel signal has arrived.
    let got = rt.block_on(async {
        let mut inner = parent.shared().0.lock().await;
        tokio::time::timeout(Duration::from_millis(15), inner.cancel_receiver().recv()).await
    });
    assert!(matches!(got, Ok(Err(RecvError::Closed))));
}

#[test]
fn cancelled_child_handle_leaves_the_parent_channel_open() {
    let (parent_ctx, _parent_handle) = RefContext::new();
    let (_ctx, handle) = Context::with_parent(&parent_ctx, None);
    handle.cancel();
    let mut inner = parent_ctx.shared().0.try_lock().unwrap();
    assert!(matches!(inner.cancel_receiver().try_recv(), Err(TryRecvError::Empty)));
    assert!(inner.deadline().is_none());
    assert!(!inner.on_wake(Wake::Parent));
}

#[test]
fn parent_deadline_is_reached_before_the_child_deadline() {
    let (parent_ctx, _parent_handle) = RefContext::with_timeout(Duration::from_millis(5));
    let (ctx, _handle) = Context::with_parent(&parent_ctx, Some(Duration::from_millis(10)));
    assert!(ctx.on_wake(Wake::Parent));
    let parent_deadline = ctx.parent().unwrap().shared().0.try_lock().unwrap().deadline().unwrap();
    let rt = runtime();
    let got = rt.block_on(async {
        tokio::time::timeout(Duration::from_millis(7), tokio::time::sleep_until(parent_deadline))
            .await
    });
    assert!(got.is_ok());
    // The child's own deadline comes later than the parent's.
    assert!(ctx.deadline().unwrap() > parent_deadline);
}

#[test]
fn dropping_handle_closes_every_spawned_context() {
    let (mut ctx, mut handle) = Context::new();
    let mut second = handle.spawn_ctx();
    assert!(matches!(ctx.cancel_receiver().try_recv(), Err(TryRecvError::Empty)));
    assert!(matches!(second.cancel_receiver().try_recv(), Err(TryRecvError::Empty)));
    drop(handle);
    assert!(matches!(ctx.cancel_receiver().try_recv(), Err(TryRecvError::Closed)));
    assert!(matches!(second.cancel_receiver().try_recv(), Err(TryRecvError::Closed)));
}

#[test]
fn new_context_has_no_deadline_and_no_parent() {
    let (ctx, _handle) = Context::new();
    assert!(ctx.deadline().is_none());
    assert!(ctx.parent().is_none());
    assert!(ctx.on_wake(Wake::Cancel));
    assert!(!ctx.on_wake(Wake::Deadline));
    assert!(!ctx.on_wake(Wake::Parent));
}

#[test]
fn with_timeout_sets_deadline_from_now() {
    let before = Instant::now();
    let (ctx, _handle) = Context::with_timeout(Duration::from_secs(60));
    let after = Instant::now();
    let deadline = ctx.deadline().unwrap();
    assert!(deadline >= before + Duration::from_secs(60));
    assert!(deadline <= after + Duration::from_secs(60));
    assert!(ctx.parent().is_none());
}

#[test]
fn spawned_contexts_share_deadline_and_parent() {
    let (parent_ctx, _parent_handle) = RefContext::new();
    let (ctx, mut handle) = Context::with_parent(&parent_ctx, Some(Duration::from_secs(5)));
    let spawned = handle.spawn_ctx();
    assert_eq!(spawned.deadline(), ctx.deadline());
    let a = ctx.parent().unwrap().shared().0.clone();
    let b = spawned.parent().unwrap().shared().0.clone();
    assert!(Arc::ptr_eq(&a, &b));
    assert!(Arc::ptr_eq(&a, &parent_ctx.shared().0));
}

#[test]
fn with_parent_without_timeout_has_no_deadline() {
    let (parent_ctx, _parent_handle) = RefContext::with_timeout(Duration::from_secs(1));
    let (ctx, _handle) = Context::with_parent(&parent_ctx, None);
    assert!(ctx.deadline().is_none());
    assert!(ctx.parent().is_some());
    assert!(!ctx.on_wake(Wake::Deadline));
}

#[test]
fn spawn_ref_listens_to_the_handle() {
    let (_ctx, mut handle) = Context::with_timeout(Duration::from_secs(3));
    let shared = handle.spawn_ref();
    handle.cancel();
    let mut inner = shared.shared().0.try_lock().unwrap();
    assert!(inner.deadline().is_some());
    assert!(matches!(inner.cancel_receiver().try_recv(), Err(TryRecvError::Closed)));
}

#[test]
fn ref_context_chains_further() {
    let (grand, _g) = RefContext::new();
    let (parent, _p) = RefContext::with_parent(&grand, None);
    let (child, _c) = Context::with_parent(&parent, Some(Duration::from_millis(50)));
    let p = child.parent().unwrap();
    assert!(Arc::ptr_eq(&p.shared().0, &parent.shared().0));
    let inner = parent.shared().0.try_lock().unwrap();
    assert!(Arc::ptr_eq(&inner.parent().unwrap().shared().0, &grand.shared().0));
}

#[test]
fn ref_context_from_and_clone_share_the_context() {
    let (ctx, handle) = Context::new();
    let shared = RefContext::from(ctx);
    let copy = shared.clone();
    assert!(Arc::ptr_eq(&shared.shared().0, &copy.shared().0));
    handle.cancel();
    let mut inner = copy.shared().0.try_lock().unwrap();
    assert!(matches!(inner.cancel_receiver().try_recv(), Err(TryRecvError::Closed)));
}
