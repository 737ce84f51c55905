//! The asynchronous queue's suspend/retry protocol over an edge-triggered
//! reactor.
//!
//! Each direction of the queue is, at any moment, either `Suspended` (no
//! readiness token held; the task parks until the reactor reports the
//! descriptor ready) or `HasToken` (the reactor reported ready; a
//! non-blocking system call may be attempted under the token). The two
//! directions are independent.
//!
//! The load-bearing asymmetry: a read that comes back would-block keeps the
//! token and retries at once — under edge triggering the not-ready-to-ready
//! transition fires only once, so releasing the token while unread data may
//! still arrive can lose the wakeup forever. A write that comes back
//! would-block instead releases the token and re-suspends, trading a little
//! latency for the simpler path.

use vstd::prelude::*;

use crate::error::TunError;

verus! {

/// The outcome of one non-blocking system-call attempt made under a
/// readiness token.
#[derive(Clone, Copy, Debug, PartialEq, Eq, Structural)]
pub enum IoAttempt {
    /// The call moved this many bytes (zero means end of stream).
    Transferred(usize),
    /// The call failed for real, with this operating-system error code.
    Failed(i32),
    /// The call could not proceed without blocking: a spurious edge artifact.
    WouldBlock,
}

/// One direction's standing with the reactor.
#[derive(Clone, Copy, Debug, PartialEq, Eq, Structural)]
pub enum TokenState {
    /// No readiness token held; the next operation parks until the reactor
    /// reports readiness.
    Suspended,
    /// The reactor reported readiness; system calls may be attempted.
    HasToken,
}

/// The per-direction protocol state of one asynchronous queue.
#[derive(Clone, Copy, Debug, PartialEq, Eq, Structural)]
pub struct AsyncQueueState {
    pub read: TokenState,
    pub write: TokenState,
}

/// What one whole read poll returns, given the outcomes of the successive
/// system-call attempts made under the token: the first decisive attempt
/// (anything but would-block) decides; a trace of nothing but would-blocks
/// decides nothing yet — the token is still held and the protocol attempts
/// again, it never re-suspends on a would-block read.
pub open spec fn spec_read_outcome(attempts: Seq<IoAttempt>) -> Option<Result<usize, TunError>>
    decreases attempts.len(),
{
    if attempts.len() == 0 {
        None
    } else {
        match attempts[0] {
            IoAttempt::Transferred(n) => Some(Ok(n)),
            IoAttempt::Failed(code) => Some(Err(TunError::OsError(code))),
            IoAttempt::WouldBlock => spec_read_outcome(attempts.drop_first()),
        }
    }
}

impl AsyncQueueState {
    /// A freshly constructed queue: neither direction holds a token or a
    /// standing registration, so nothing of any earlier queue over the same
    /// descriptor can weigh on it.
    pub fn new() -> (s: Self)
        ensures
            s.read is Suspended,
            s.write is Suspended,
    {
        AsyncQueueState { read: TokenState::Suspended, write: TokenState::Suspended }
    }

    /// The reactor reported the descriptor read-ready: the read direction
    /// now holds a token. The write direction is untouched.
    pub fn on_read_ready(&mut self)
        ensures
            final(self).read is HasToken,
            final(self).write == old(self).write,
    {
        self.read = TokenState::HasToken;
    }

    /// The reactor reported the descriptor write-ready.
    pub fn on_write_ready(&mut self)
        ensures
            final(self).write is HasToken,
            final(self).read == old(self).read,
    {
        self.write = TokenState::HasToken;
    }

    /// One read attempt under the token. Bytes or a genuine error complete
    /// the operation; a would-block keeps the token — the read path never
    /// re-suspends on a spurious edge, and a would-block is never surfaced.
    pub fn read_attempt(&mut self, a: &IoAttempt) -> (r: Option<Result<usize, TunError>>)
        requires
            old(self).read is HasToken,
        ensures
            final(self).write == old(self).write,
            (*a) matches IoAttempt::Transferred(n) ==> r == Some(Result::<usize, TunError>::Ok(n))
                && final(self).read is Suspended,
            (*a) matches IoAttempt::Failed(code) ==> r == Some(Result::<usize, TunError>::Err(
                TunError::OsError(code))) && final(self).read is Suspended,
            (*a) is WouldBlock ==> r is None && final(self).read is HasToken,
    {
        match a {
            IoAttempt::Transferred(n) => {
                self.read = TokenState::Suspended;
                Some(Ok(*n))
            },
            IoAttempt::Failed(code) => {
                self.read = TokenState::Suspended;
                Some(Err(TunError::OsError(*code)))
            },
            IoAttempt::WouldBlock => None,
        }
    }

    /// One write attempt under the token. Bytes or a genuine error complete
    /// the operation; a would-block releases the token and re-suspends —
    /// the deliberate asymmetry with the read path.
    pub fn write_attempt(&mut self, a: &IoAttempt) -> (r: Option<Result<usize, TunError>>)
        requires
            old(self).write is HasToken,
        ensures
            final(self).read == old(self).read,
            (*a) matches IoAttempt::Transferred(n) ==> r == Some(Result::<usize, TunError>::Ok(n))
                && final(self).write is Suspended,
            (*a) matches IoAttempt::Failed(code) ==> r == Some(Result::<usize, TunError>::Err(
                TunError::OsError(code))) && final(self).write is Suspended,
            (*a) is WouldBlock ==> r is None && final(self).write is Suspended,
    {
        self.write = TokenState::Suspended;
        match a {
            IoAttempt::Transferred(n) => Some(Ok(*n)),
            IoAttempt::Failed(code) => Some(Err(TunError::OsError(*code))),
            IoAttempt::WouldBlock => None,
        }
    }

    /// One flush attempt under the write token, following the write path's
    /// rules: complete on success or genuine error, re-suspend on would-block.
    pub fn flush_attempt(&mut self, a: &IoAttempt) -> (r: Option<Result<(), TunError>>)
        requires
            old(self).write is HasToken,
        ensures
            final(self).read == old(self).read,
            (*a) is Transferred ==> r == Some(Result::<(), TunError>::Ok(()))
                && final(self).write is Suspended,
            (*a) matches IoAttempt::Failed(code) ==> r == Some(Result::<(), TunError>::Err(
                TunError::OsError(code))) && final(self).write is Suspended,
            (*a) is WouldBlock ==> r is None && final(self).write is Suspended,
    {
        self.write = TokenState::Suspended;
        match a {
            IoAttempt::Transferred(_) => Some(Ok(())),
            IoAttempt::Failed(code) => Some(Err(TunError::OsError(*code))),
            IoAttempt::WouldBlock => None,
        }
    }

    /// Abandoning a pending read releases only the read interest; the write
    /// direction's registration is untouched.
    pub fn cancel_read(&mut self)
        ensures
            final(self).read is Suspended,
            final(self).write == old(self).write,
    {
        self.read = TokenState::Suspended;
    }

    /// Abandoning a pending write releases only the write interest.
    pub fn cancel_write(&mut self)
        ensures
            final(self).write is Suspended,
            final(self).read == old(self).read,
    {
        self.write = TokenState::Suspended;
    }

    /// The shutdown path is deliberately unsupported: it fails at once with
    /// the unimplemented signal, never a silent success.
    pub fn shutdown(&self) -> (r: Result<(), TunError>)
        ensures
            r == Result::<(), TunError>::Err(TunError::Unimplemented),
    {
        Err(TunError::Unimplemented)
    }
}

/// The read retry loop, run to the end of a finite trace of attempt
/// outcomes: would-blocks are skipped under the token, the first decisive
/// attempt decides.
pub fn read_under_token(attempts: &Vec<IoAttempt>) -> (r: Option<Result<usize, TunError>>)
    ensures
        r == spec_read_outcome(attempts@),
{
    let n = attempts.len();
    let mut i: usize = 0;
    proof {
        assert(attempts@.skip(0) =~= attempts@);
    }
    while i < n
        invariant
            i <= n,
            n == attempts@.len(),
            spec_read_outcome(attempts@) == spec_read_outcome(attempts@.skip(i as int)),
        decreases n - i,
    {
        let ghost tail = attempts@.skip(i as int);
        proof {
            assert(tail[0] == attempts@[i as int]);
            assert(tail.drop_first() =~= attempts@.skip(i + 1));
        }
        match &attempts[i] {
            IoAttempt::Transferred(m) => {
                return Some(Ok(*m));
            },
            IoAttempt::Failed(code) => {
                return Some(Err(TunError::OsError(*code)));
            },
            IoAttempt::WouldBlock => {
                i = i + 1;
            },
        }
    }
    proof {
        assert(attempts@.skip(i as int) =~= Seq::<IoAttempt>::empty());
    }
    None
}

/// Liveness of the read retry protocol: one readiness notification followed
/// by any finite number of would-block retries and then one decisive attempt
/// always completes with that attempt's own outcome — data or a genuine
/// error. A would-block is never surfaced, and the poll never reports
/// completion with no progress and no error.
pub proof fn lemma_read_retry_liveness(attempts: Seq<IoAttempt>, k: int)
    requires
        0 <= k < attempts.len(),
        forall|i: int| 0 <= i < k ==> attempts[i] is WouldBlock,
        !(attempts[k] is WouldBlock),
    ensures
        spec_read_outcome(attempts) == match attempts[k] {
            IoAttempt::Transferred(n) => Some(Result::<usize, TunError>::Ok(n)),
            IoAttempt::Failed(code) => Some(Result::<usize, TunError>::Err(TunError::OsError(
                code))),
            IoAttempt::WouldBlock => None,
        },
        spec_read_outcome(attempts) is Some,
    decreases k,
{
    if k == 0 {
    } else {
        assert(attempts[0] is WouldBlock);
        assert forall|i: int| 0 <= i < k - 1 implies attempts.drop_first()[i] is WouldBlock by {
            assert(attempts[i + 1] is WouldBlock);
        }
        assert(attempts.drop_first()[k - 1] == attempts[k]);
        lemma_read_retry_liveness(attempts.drop_first(), k - 1);
    }
}

} // verus!
