use std::time::Duration;
use tokio::sync::broadcast::error::TryRecvError;
use tokio::time::Instant;
use tokio_context::model::Wake;
use tokio_context::tokio_api::MAX_TIMEOUT_SECS;
use tokio_context::{timeout_supported, Context};

#[test]
fn plain_context_without_timeout() {
    let (mut ctx, mut handle) = Context::new(None);
    assert!(ctx.deadline().is_none());
    assert!(!ctx.on_wake(Wake::Deadline));
    assert!(ctx.on_wake(Wake::Cancel));
    assert!(!ctx.on_wake(Wake::Parent));
    let mut other = handle.spawn_ctx();
    assert!(other.deadline().is_none());
    assert!(matches!(ctx.cancel_receiver().try_recv(), Err(TryRecvError::Empty)));
    handle.cancel();
    assert!(matches!(ctx.cancel_receiver().try_recv(), Err(TryRecvError::Closed)));
    assert!(matches!(other.cancel_receiver().try_recv(), Err(TryRecvError::Closed)));
}

#[test]
fn plain_context_with_timeout() {
    let before = Instant::now();
    let (ctx, mut handle) = Context::new(Some(Duration::from_millis(250)));
    let deadline = ctx.deadline().unwrap();
    assert!(deadline >= before + Duration::from_millis(250));
    assert!(ctx.on_wake(Wake::Deadline));
    assert_eq!(handle.spawn_ctx().deadline(), Some(deadline));
}

#[test]
fn supported_timeouts() {
    assert!(timeout_supported(&Duration::from_millis(10)));
    assert!(timeout_supported(&Duration::ZERO));
    assert!(timeout_supported(&Duration::from_secs(MAX_TIMEOUT_SECS)));
    assert!(timeout_supported(&Duration::new(MAX_TIMEOUT_SECS, 999_999_999)));
    assert!(!timeout_supported(&Duration::from_secs(MAX_TIMEOUT_SECS + 1)));
    assert!(!timeout_supported(&Duration::MAX));
}
