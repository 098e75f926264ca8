//! When a failed range fetch is tried again, after how long, and when the
//! chunk is given up.
//!
//! A response with a non-success status is answered with a short wait that
//! grows by one second per failure, and is given up after a few failures.
//! A connection or stream fault is answered with a wait that doubles per
//! failure, and is given up after more of them. Both kinds of failure are
//! counted together. A destination file that cannot be opened or positioned
//! ends the chunk at once.

use vstd::arithmetic::power2::{lemma2_to64, lemma_pow2_strictly_increases, pow2};
use vstd::prelude::*;

verus! {

/// Failures after which a non-success status is no longer retried.
pub const STATUS_RETRY_LIMIT: u64 = 5;

/// Failures after which a connection or stream fault is no longer retried.
pub const TRANSPORT_RETRY_LIMIT: u64 = 15;

/// The wait that is doubled once per failure, in milliseconds.
pub const BACKOFF_BASE_MILLIS: u64 = 500;

/// How one attempt to fetch and write a chunk ended.
#[derive(Clone, Copy, Debug, PartialEq, Eq, Structural)]
pub enum AttemptOutcome {
    /// The range was received whole and written.
    Complete,
    /// The server answered with a non-success status.
    BadStatus,
    /// The connection failed, or the body or the write broke off.
    TransportFault,
    /// The destination file could not be opened or positioned.
    StorageFault,
}

/// Why a chunk was given up.
#[derive(Clone, Copy, Debug, PartialEq, Eq, Structural)]
pub enum ChunkError {
    /// The server kept answering with a non-success status.
    Protocol,
    /// The connection or the stream kept failing.
    Transport,
    /// The destination file cannot be written to.
    Storage,
}

/// What to do after an attempt.
#[derive(Clone, Copy, Debug, PartialEq, Eq, Structural)]
pub enum RetryDecision {
    /// The chunk is complete.
    Done,
    /// Wait this long, then fetch the whole range again.
    RetryAfter { millis: u64 },
    /// Stop trying; the chunk has failed.
    GiveUp { error: ChunkError },
}

/// The wait before a retry after the `failures`-th connection or stream
/// fault, in milliseconds: the base wait, doubled `failures` times.
pub open spec fn transport_backoff_millis(failures: nat) -> nat {
    BACKOFF_BASE_MILLIS as nat * pow2(failures)
}

/// The wait before a retry after the `failures`-th failure, where that
/// failure was a non-success status: as many seconds as there were failures.
pub open spec fn status_backoff_millis(failures: nat) -> nat {
    failures * 1000
}

/// The decision after an attempt that ended in `outcome`, where `failures`
/// attempts had failed before it.
pub open spec fn decision(failures: nat, outcome: AttemptOutcome) -> RetryDecision {
    match outcome {
        AttemptOutcome::Complete => RetryDecision::Done,
        AttemptOutcome::BadStatus => if failures + 1 > STATUS_RETRY_LIMIT {
            RetryDecision::GiveUp { error: ChunkError::Protocol }
        } else {
            RetryDecision::RetryAfter { millis: status_backoff_millis(failures + 1) as u64 }
        },
        AttemptOutcome::TransportFault => if failures + 1 > TRANSPORT_RETRY_LIMIT {
            RetryDecision::GiveUp { error: ChunkError::Transport }
        } else {
            RetryDecision::RetryAfter { millis: transport_backoff_millis(failures + 1) as u64 }
        },
        AttemptOutcome::StorageFault => RetryDecision::GiveUp { error: ChunkError::Storage },
    }
}

/// How the fetching of one chunk ends.
#[derive(Clone, Copy, Debug, PartialEq, Eq, Structural)]
pub enum ChunkEnd {
    Fetched,
    Failed { error: ChunkError },
}

/// The end of a chunk whose attempts end in `outcomes`, one after the
/// other, where `failures` attempts had failed before them: how it ends and
/// how many of `outcomes` it takes. `None` where the chunk is still being
/// retried when `outcomes` run out.
pub open spec fn chunk_end(failures: nat, outcomes: Seq<AttemptOutcome>) -> Option<(ChunkEnd, nat)>
    decreases outcomes.len(),
{
    if outcomes.len() == 0 {
        None
    } else {
        match decision(failures, outcomes[0]) {
            RetryDecision::Done => Some((ChunkEnd::Fetched, 1)),
            RetryDecision::GiveUp { error } => Some((ChunkEnd::Failed { error }, 1)),
            RetryDecision::RetryAfter { .. } => match chunk_end(failures + 1, outcomes.drop_first()) {
                Some((end, used)) => Some((end, used + 1)),
                None => None,
            },
        }
    }
}

/// The failures of one chunk so far.
pub struct ChunkRetry {
    failures: u64,
}

impl ChunkRetry {
    #[verifier::type_invariant]
    spec fn bounded(self) -> bool {
        self.failures <= TRANSPORT_RETRY_LIMIT
    }

    /// The number of attempts that have failed.
    pub closed spec fn failures(self) -> nat {
        self.failures as nat
    }

    /// The state before the first attempt.
    pub fn new() -> (state: Self)
        ensures
            state.failures() == 0,
    {
        ChunkRetry { failures: 0 }
    }

    /// Takes note of the outcome of an attempt and decides what follows.
    /// The state that counts the new failure is handed back where the chunk
    /// is to be tried again.
    pub fn on_attempt(self, outcome: AttemptOutcome) -> (next: (RetryDecision, Option<ChunkRetry>))
        ensures
            next.0 == decision(self.failures(), outcome),
            next.0 is RetryAfter <==> next.1 is Some,
            next.1 matches Some(state) ==> state.failures() == self.failures() + 1,
    {
        proof {
            use_type_invariant(&self);
        }
        let failures: u64 = self.failures + 1;
        match outcome {
            AttemptOutcome::Complete => (RetryDecision::Done, None),
            AttemptOutcome::BadStatus => {
                if failures > STATUS_RETRY_LIMIT {
                    (RetryDecision::GiveUp { error: ChunkError::Protocol }, None)
                } else {
                    (RetryDecision::RetryAfter { millis: failures * 1000 }, Some(ChunkRetry { failures }))
                }
            },
            AttemptOutcome::TransportFault => {
                if failures > TRANSPORT_RETRY_LIMIT {
                    (RetryDecision::GiveUp { error: ChunkError::Transport }, None)
                } else {
                    let millis = backoff_millis(failures);
                    (RetryDecision::RetryAfter { millis }, Some(ChunkRetry { failures }))
                }
            },
            AttemptOutcome::StorageFault => (
                RetryDecision::GiveUp { error: ChunkError::Storage },
                None,
            ),
        }
    }
}

/// The wait before a retry after the `failures`-th connection or stream
/// fault.
pub fn backoff_millis(failures: u64) -> (millis: u64)
    requires
        failures <= TRANSPORT_RETRY_LIMIT,
    ensures
        millis == transport_backoff_millis(failures as nat),
{
    let mut millis: u64 = BACKOFF_BASE_MILLIS;
    let mut doubled: u64 = 0;
    proof {
        lemma2_to64();
    }
    while doubled < failures
        invariant
            doubled <= failures <= TRANSPORT_RETRY_LIMIT,
            millis == BACKOFF_BASE_MILLIS * pow2(doubled as nat),
            millis <= BACKOFF_BASE_MILLIS * pow2(15),
        decreases failures - doubled,
    {
        proof {
            lemma2_to64();
            vstd::arithmetic::power2::lemma_pow2_unfold((doubled + 1) as nat);
            if doubled + 1 < 15 {
                lemma_pow2_strictly_increases((doubled + 1) as nat, 15);
            }
            assert(BACKOFF_BASE_MILLIS * (2 * pow2(doubled as nat)) == 2 * (BACKOFF_BASE_MILLIS
                * pow2(doubled as nat))) by (nonlinear_arith);
            assert(BACKOFF_BASE_MILLIS * pow2((doubled + 1) as nat) <= BACKOFF_BASE_MILLIS * pow2(
                15,
            )) by (nonlinear_arith)
                requires
                    pow2((doubled + 1) as nat) <= pow2(15),
            ;
        }
        millis = millis * 2;
        doubled += 1;
    }
    millis
}

/// A chunk whose every attempt is answered with a non-success status is
/// retried `STATUS_RETRY_LIMIT` times, the `n`-th retry after `n` seconds,
/// and fails with a protocol error on the attempt after the last retry.
pub proof fn lemma_bad_status_is_retried_then_fails(outcomes: Seq<AttemptOutcome>)
    requires
        forall|i: int| 0 <= i < outcomes.len() ==> outcomes[i] == AttemptOutcome::BadStatus,
    ensures
        forall|n: nat|
            1 <= n <= STATUS_RETRY_LIMIT ==> #[trigger] decision(
                (n - 1) as nat,
                AttemptOutcome::BadStatus,
            ) == (RetryDecision::RetryAfter { millis: (n * 1000) as u64 }),
        decision(STATUS_RETRY_LIMIT as nat, AttemptOutcome::BadStatus) == (RetryDecision::GiveUp {
            error: ChunkError::Protocol,
        }),
        outcomes.len() <= STATUS_RETRY_LIMIT ==> chunk_end(0, outcomes) is None,
        outcomes.len() > STATUS_RETRY_LIMIT ==> chunk_end(0, outcomes) == Some(
            (ChunkEnd::Failed { error: ChunkError::Protocol }, (STATUS_RETRY_LIMIT + 1) as nat),
        ),
{
    lemma_bad_status_from(0, outcomes);
}

/// `lemma_bad_status_is_retried_then_fails`, from any number of failures
/// within the limit.
proof fn lemma_bad_status_from(failures: nat, outcomes: Seq<AttemptOutcome>)
    requires
        failures <= STATUS_RETRY_LIMIT,
        forall|i: int| 0 <= i < outcomes.len() ==> outcomes[i] == AttemptOutcome::BadStatus,
    ensures
        failures + outcomes.len() <= STATUS_RETRY_LIMIT ==> chunk_end(failures, outcomes) is None,
        failures + outcomes.len() > STATUS_RETRY_LIMIT ==> chunk_end(failures, outcomes) == Some(
            (
                ChunkEnd::Failed { error: ChunkError::Protocol },
                (STATUS_RETRY_LIMIT + 1 - failures) as nat,
            ),
        ),
    decreases outcomes.len(),
{
    if outcomes.len() > 0 && failures < STATUS_RETRY_LIMIT {
        lemma_bad_status_from(failures + 1, outcomes.drop_first());
    }
}

/// A chunk whose every attempt ends in a connection or stream fault is
/// retried `TRANSPORT_RETRY_LIMIT` times and then fails with a transport
/// error.
pub proof fn lemma_transport_fault_is_retried_then_fails(outcomes: Seq<AttemptOutcome>)
    requires
        forall|i: int| 0 <= i < outcomes.len() ==> outcomes[i] == AttemptOutcome::TransportFault,
    ensures
        outcomes.len() <= TRANSPORT_RETRY_LIMIT ==> chunk_end(0, outcomes) is None,
        outcomes.len() > TRANSPORT_RETRY_LIMIT ==> chunk_end(0, outcomes) == Some(
            (ChunkEnd::Failed { error: ChunkError::Transport }, (TRANSPORT_RETRY_LIMIT + 1) as nat),
        ),
{
    lemma_transport_fault_from(0, outcomes);
}

/// `lemma_transport_fault_is_retried_then_fails`, from any number of
/// failures within the limit.
proof fn lemma_transport_fault_from(failures: nat, outcomes: Seq<AttemptOutcome>)
    requires
        failures <= TRANSPORT_RETRY_LIMIT,
        forall|i: int| 0 <= i < outcomes.len() ==> outcomes[i] == AttemptOutcome::TransportFault,
    ensures
        failures + outcomes.len() <= TRANSPORT_RETRY_LIMIT ==> chunk_end(failures, outcomes) is None,
        failures + outcomes.len() > TRANSPORT_RETRY_LIMIT ==> chunk_end(failures, outcomes) == Some(
            (
                ChunkEnd::Failed { error: ChunkError::Transport },
                (TRANSPORT_RETRY_LIMIT + 1 - failures) as nat,
            ),
        ),
    decreases outcomes.len(),
{
    if outcomes.len() > 0 && failures < TRANSPORT_RETRY_LIMIT {
        lemma_transport_fault_from(failures + 1, outcomes.drop_first());
    }
}

} // verus!
