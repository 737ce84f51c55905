use tunfd::error::TunError;
use tunfd::poll::{read_under_token, AsyncQueueState, IoAttempt, TokenState};

#[test]
fn read_retries_through_would_blocks() {
    let attempts = vec![
        IoAttempt::WouldBlock,
        IoAttempt::WouldBlock,
        IoAttempt::WouldBlock,
        IoAttempt::Transferred(42),
    ];
    match read_under_token(&attempts) {
        Some(Ok(n)) => assert_eq!(n, 42),
        other => panic!("expected the transfer to complete, got {:?}", other),
    }
}

#[test]
fn read_surfaces_genuine_errors() {
    let attempts = vec![IoAttempt::WouldBlock, IoAttempt::Failed(5)];
    match read_under_token(&attempts) {
        Some(Err(TunError::OsError(code))) => assert_eq!(code, 5),
        other => panic!("expected the error to surface, got {:?}", other),
    }
}

#[test]
fn read_never_completes_on_would_block_alone() {
    let attempts = vec![IoAttempt::WouldBlock; 100];
    assert!(read_under_token(&attempts).is_none());
    assert!(read_under_token(&Vec::new()).is_none());
}

#[test]
fn read_keeps_the_token_on_would_block() {
    let mut q = AsyncQueueState::new();
    q.on_read_ready();
    let r = q.read_attempt(&IoAttempt::WouldBlock);
    assert!(r.is_none());
    // the edge-triggered token is still held: no re-suspension
    assert_eq!(q.read, TokenState::HasToken);
}

#[test]
fn write_releases_the_token_on_would_block() {
    let mut q = AsyncQueueState::new();
    q.on_write_ready();
    let r = q.write_attempt(&IoAttempt::WouldBlock);
    assert!(r.is_none());
    // the deliberate asymmetry: the write path re-suspends
    assert_eq!(q.write, TokenState::Suspended);
}

#[test]
fn write_completes_on_transfer_and_error() {
    let mut q = AsyncQueueState::new();
    q.on_write_ready();
    match q.write_attempt(&IoAttempt::Transferred(7)) {
        Some(Ok(n)) => assert_eq!(n, 7),
        other => panic!("expected completion, got {:?}", other),
    }
    q.on_write_ready();
    assert!(matches!(
        q.write_attempt(&IoAttempt::Failed(32)),
        Some(Err(TunError::OsError(32)))
    ));
}

#[test]
fn flush_follows_the_write_rules() {
    let mut q = AsyncQueueState::new();
    q.on_write_ready();
    assert!(matches!(q.flush_attempt(&IoAttempt::Transferred(0)), Some(Ok(()))));
    q.on_write_ready();
    assert!(q.flush_attempt(&IoAttempt::WouldBlock).is_none());
    assert_eq!(q.write, TokenState::Suspended);
}

#[test]
fn shutdown_is_explicitly_unimplemented() {
    let q = AsyncQueueState::new();
    assert!(matches!(q.shutdown(), Err(TunError::Unimplemented)));
}

#[test]
fn cancel_releases_only_its_own_direction() {
    let mut q = AsyncQueueState::new();
    q.on_read_ready();
    q.on_write_ready();
    q.cancel_read();
    assert_eq!(q.read, TokenState::Suspended);
    assert_eq!(q.write, TokenState::HasToken);
    q.cancel_write();
    assert_eq!(q.write, TokenState::Suspended);
}

#[test]
fn fresh_queue_proceeds_after_abandoned_read() {
    // a pending read is dropped mid-suspension ...
    let mut abandoned = AsyncQueueState::new();
    abandoned.on_read_ready();
    abandoned.cancel_read();
    // ... and a fresh queue over the same descriptor starts clean and
    // completes its first read on the first readiness grant
    let mut fresh = AsyncQueueState::new();
    assert_eq!(fresh.read, TokenState::Suspended);
    assert_eq!(fresh.write, TokenState::Suspended);
    fresh.on_read_ready();
    match fresh.read_attempt(&IoAttempt::Transferred(9)) {
        Some(Ok(n)) => assert_eq!(n, 9),
        other => panic!("expected the fresh queue to proceed, got {:?}", other),
    }
}
