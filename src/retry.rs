use vstd::prelude::*;
use vstd::string::*;

use crate::encoding::{append_decimal, decimal_of};
use crate::sync_error::{prefixed, SyncError, SyncResult};

verus! {

/// Attempts made for one batch before giving up.
pub const MAX_ATTEMPTS: u32 = 3;

/// Wait, in milliseconds, before the second attempt; it doubles after that.
pub const INITIAL_DELAY_MILLIS: u64 = 1000;

/// What came back from one upload attempt.
#[derive(Debug, Clone)]
pub enum SendOutcome {
    /// No response: the connection, the transfer or the timeout failed.
    Transport(String),
    /// A success status whose body is not a sync reply.
    Unreadable(String),
    /// A response, with its status code and body text.
    Response { status: u16, body: String },
}

/// `r` is how the attempt that ended in `o` is judged.
pub open spec fn judges(o: SendOutcome, r: SyncResult) -> bool {
    match o {
        SendOutcome::Transport(m) => r matches Err(e) && e is Network && e.detail() == "Failed to connect: "@ + m@,
        SendOutcome::Unreadable(m) => r matches Err(e) && e is Unknown && e.detail()
            == "Failed to parse response: "@ + m@,
        SendOutcome::Response { status, body } => {
            if 200 <= status <= 299 {
                r is Ok
            } else if status == 401 || status == 403 {
                r matches Err(e) && e is Auth && e.detail() == "Authentication failed: "@ + body@
            } else if 500 <= status <= 599 {
                r matches Err(e) && e is Server && e.detail() == "Server error: "@ + body@
            } else {
                r matches Err(e) && e is Unknown && e.detail() == "HTTP "@ + decimal_of(status as nat)
                    + ": "@ + body@
            }
        },
    }
}

/// Judges one upload attempt: any 2xx is success; 401 and 403 are refused
/// credentials; 5xx is a server failure; anything else is unknown.
pub fn send_result(outcome: SendOutcome) -> (r: SyncResult)
    ensures
        judges(outcome, r),
{
    match outcome {
        SendOutcome::Transport(m) => Err(SyncError::Network(prefixed("Failed to connect: ", m.as_str()))),
        SendOutcome::Unreadable(m) => Err(
            SyncError::Unknown(prefixed("Failed to parse response: ", m.as_str())),
        ),
        SendOutcome::Response { status, body } => {
            if 200 <= status && status <= 299 {
                Ok(())
            } else if status == 401 || status == 403 {
                Err(SyncError::Auth(prefixed("Authentication failed: ", body.as_str())))
            } else if 500 <= status && status <= 599 {
                Err(SyncError::Server(prefixed("Server error: ", body.as_str())))
            } else {
                let mut m = String::from_str("HTTP ");
                append_decimal(&mut m, status);
                m.append(": ");
                m.append(body.as_str());
                Err(SyncError::Unknown(m))
            }
        },
    }
}

/// `d` doubled, or the largest `u64` where that does not fit.
pub open spec fn doubled(d: u64) -> u64 {
    if d * 2 <= u64::MAX {
        (d * 2) as u64
    } else {
        u64::MAX
    }
}

/// What to do after an attempt.
#[derive(Debug)]
pub enum RetryStep {
    /// Stop, with this result.
    Finished(SyncResult),
    /// Wait this many milliseconds, then try again.
    Wait(u64),
}

/// Progress of the attempts made for one batch.
#[derive(Debug, Clone, Copy)]
pub struct RetryState {
    /// Attempts made so far.
    pub attempt: u32,
    pub max_attempts: u32,
    /// The wait before the next attempt, should this one fail transiently.
    pub delay_millis: u64,
}

impl RetryState {
    pub fn new(max_attempts: u32) -> (r: RetryState)
        ensures
            r.attempt == 0,
            r.max_attempts == max_attempts,
            r.delay_millis == INITIAL_DELAY_MILLIS,
    {
        RetryState { attempt: 0, max_attempts, delay_millis: INITIAL_DELAY_MILLIS }
    }

    /// Whether attempts remain.
    pub open spec fn attempts_left(&self) -> bool {
        self.attempt < self.max_attempts
    }

    /// Records the result of one more attempt and decides what follows:
    /// success ends the run; a refused credential, or any failure that is
    /// neither a network nor a server failure, ends it at once; a network or
    /// server failure is retried after the current delay, which then doubles
    /// (saturating), until the attempts run out.
    pub fn after_attempt(&mut self, result: SyncResult) -> (step: RetryStep)
        requires
            old(self).attempts_left(),
        ensures
            final(self).attempt == old(self).attempt + 1,
            final(self).max_attempts == old(self).max_attempts,
            result is Ok ==> step == RetryStep::Finished(result),
            result matches Err(e) && (final(self).attempt >= final(self).max_attempts || !e.is_transient())
                ==> step == RetryStep::Finished(result) && final(self).delay_millis == old(self).delay_millis,
            result matches Err(e) && final(self).attempt < final(self).max_attempts && e.is_transient()
                ==> step == RetryStep::Wait(old(self).delay_millis) && final(self).delay_millis == doubled(
                old(self).delay_millis,
            ),
    {
        self.attempt = self.attempt + 1;
        match result {
            Ok(v) => RetryStep::Finished(Ok(v)),
            Err(e) => {
                if self.attempt >= self.max_attempts {
                    return RetryStep::Finished(Err(e));
                }
                match e {
                    SyncError::Network(_) | SyncError::Server(_) => {
                        let wait = self.delay_millis;
                        self.delay_millis = if wait <= u64::MAX / 2 {
                            wait * 2
                        } else {
                            u64::MAX
                        };
                        RetryStep::Wait(wait)
                    },
                    _ => RetryStep::Finished(Err(e)),
                }
            },
        }
    }
}

} // verus!
