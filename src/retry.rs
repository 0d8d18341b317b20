use vstd::prelude::*;

verus! {

/// How many times a failed connection is retried before giving up.
pub const CONNECTION_RETRY_NUMBER: u8 = 10;

/// The pause between two connection attempts, in seconds.
pub const RETRY_TIMEOUT: u8 = 10;

/// The exit status of a process that could not reach the broker.
pub const BROKER_EXIT_CODE: i32 = 5;

/// The exit status of a process that could not reach the database.
pub const DATABASE_EXIT_CODE: i32 = 4;

/// How connecting to one dependency is retried: a constant pause, a bounded
/// number of retries, and the exit status of the process once they are spent.
#[derive(Debug, Clone, Copy, PartialEq, Eq)]
pub struct RetryPolicy {
    pub max_retries: u8,
    pub interval_secs: u64,
    pub exit_code: i32,
}

impl RetryPolicy {
    /// The policy for the message broker.
    pub fn broker() -> (r: RetryPolicy)
        ensures
            r.max_retries == CONNECTION_RETRY_NUMBER,
            r.interval_secs == RETRY_TIMEOUT,
            r.exit_code == BROKER_EXIT_CODE,
    {
        RetryPolicy {
            max_retries: CONNECTION_RETRY_NUMBER,
            interval_secs: RETRY_TIMEOUT as u64,
            exit_code: BROKER_EXIT_CODE,
        }
    }

    /// The policy for the database.
    pub fn database() -> (r: RetryPolicy)
        ensures
            r.max_retries == CONNECTION_RETRY_NUMBER,
            r.interval_secs == RETRY_TIMEOUT,
            r.exit_code == DATABASE_EXIT_CODE,
    {
        RetryPolicy {
            max_retries: CONNECTION_RETRY_NUMBER,
            interval_secs: RETRY_TIMEOUT as u64,
            exit_code: DATABASE_EXIT_CODE,
        }
    }
}

/// What to do after a connection attempt failed.
#[derive(Debug, Clone, Copy, PartialEq, Eq)]
pub enum RetryAction {
    /// Wait this many seconds, then attempt again.
    Wait { secs: u64 },
    /// Give up: end the process with this status.
    Exit { code: i32 },
}

/// The action after `failures` failed attempts in a row.
pub open spec fn action_after(policy: RetryPolicy, failures: nat) -> RetryAction {
    if failures > policy.max_retries {
        RetryAction::Exit { code: policy.exit_code }
    } else {
        RetryAction::Wait { secs: policy.interval_secs }
    }
}

/// The retry state of one connection: the policy and how many attempts in a
/// row have failed. After the first attempt, each retry follows a failure,
/// so at most `max_retries + 1` attempts are made.
#[derive(Debug, Clone, Copy)]
pub struct ConnectionRetry {
    pub policy: RetryPolicy,
    pub failures: u32,
}

impl ConnectionRetry {
    pub fn new(policy: RetryPolicy) -> (r: ConnectionRetry)
        ensures
            r.policy == policy,
            r.failures == 0,
    {
        ConnectionRetry { policy, failures: 0 }
    }

    /// Whether attempts are still allowed.
    pub open spec fn may_attempt(&self) -> bool {
        self.failures <= self.policy.max_retries
    }

    /// Records a failed attempt and says whether to wait and retry or to give
    /// up. Once given up, the state stays given up.
    pub fn record_failure(&mut self) -> (r: RetryAction)
        ensures
            final(self).policy == old(self).policy,
            old(self).may_attempt() ==> final(self).failures == old(self).failures + 1,
            !old(self).may_attempt() ==> final(self).failures == old(self).failures,
            r == action_after(final(self).policy, final(self).failures as nat),
    {
        if self.failures <= self.policy.max_retries as u32 {
            self.failures = self.failures + 1;
        }
        if self.failures > self.policy.max_retries as u32 {
            RetryAction::Exit { code: self.policy.exit_code }
        } else {
            RetryAction::Wait { secs: self.policy.interval_secs }
        }
    }
}

/// Retrying is bounded: starting from no failures, the first `max_retries`
/// failures each lead to a pause of the policy's constant interval, and the
/// next one ends the process with the policy's exit status.
pub proof fn lemma_retry_is_bounded(policy: RetryPolicy, failures: nat)
    requires
        1 <= failures <= policy.max_retries + 1,
    ensures
        failures <= policy.max_retries ==> action_after(policy, failures) == (RetryAction::Wait {
            secs: policy.interval_secs,
        }),
        failures == policy.max_retries + 1 ==> action_after(policy, failures) == (
        RetryAction::Exit { code: policy.exit_code }),
{
}

} // verus!
