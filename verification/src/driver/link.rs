//! The read side of the byte link: how often an exact-length read is tried
//! before it is given up. The caller owns the device and makes each
//! attempt; this module decides what follows from its outcome.

use crate::error::QlError;
use vstd::prelude::*;

verus! {

/// Capacity of the link's read buffer. A read asks for fewer bytes.
pub const BUF_SIZE: usize = 64;

/// How many times a read is attempted before it times out.
pub const READ_ATTEMPTS: usize = 10;

/// What one attempt to read gave: the bytes, or nothing.
pub type Attempt = Option<Seq<u8>>;

/// Whether an attempt filled a request of `length` bytes.
pub open spec fn succeeded(attempt: Attempt, length: nat) -> bool {
    attempt matches Some(bytes) && bytes.len() == length
}

/// What follows from an attempt, over plain values.
pub enum Verdict {
    /// The read is complete with these bytes.
    Complete(Seq<u8>),
    /// The attempt failed, as this many have by now, and another is made.
    Retry(nat),
    /// The last attempt allowed failed.
    TimedOut,
}

/// What follows from `attempt` on a read of `length` bytes of which
/// `failures` attempts have failed before.
pub open spec fn judge(length: nat, failures: nat, attempt: Attempt) -> Verdict {
    if succeeded(attempt, length) {
        Verdict::Complete(attempt->Some_0)
    } else if failures + 1 < READ_ATTEMPTS {
        Verdict::Retry(failures + 1)
    } else {
        Verdict::TimedOut
    }
}

/// How a read of `length` bytes ends on a device whose attempts give
/// `attempts` in this order, `failures` attempts having failed before:
/// with bytes, with an error, or not yet (`None`) where the attempts end
/// before the read does.
pub open spec fn read_result(length: nat, failures: nat, attempts: Seq<Attempt>) -> Option<
    Result<Seq<u8>, QlError>,
>
    decreases attempts.len(),
{
    if attempts.len() == 0 {
        None
    } else {
        match judge(length, failures, attempts[0]) {
            Verdict::Complete(bytes) => Some(Ok(bytes)),
            Verdict::Retry(failed) => read_result(length, failed, attempts.skip(1)),
            Verdict::TimedOut => Some(Err(QlError::ReadTimeout)),
        }
    }
}

/// A read in progress: the length asked for and the attempts that failed
/// so far.
#[derive(Debug, Clone, Copy, PartialEq, Eq)]
pub struct ReadRetry {
    length: usize,
    failures: usize,
}

/// What follows from an attempt.
#[derive(Debug, PartialEq, Eq)]
pub enum ReadStep {
    /// The read is complete with these bytes.
    Complete(Vec<u8>),
    /// The attempt failed; the caller makes another.
    Retry(ReadRetry),
    /// The last attempt allowed failed; the read ends in `ReadTimeout`.
    TimedOut,
}

impl View for ReadStep {
    type V = Verdict;

    open spec fn view(&self) -> Verdict {
        match self {
            ReadStep::Complete(bytes) => Verdict::Complete(bytes@),
            ReadStep::Retry(next) => Verdict::Retry(next.spec_failures() as nat),
            ReadStep::TimedOut => Verdict::TimedOut,
        }
    }
}

/// The plain value of what an attempt gave.
pub open spec fn attempt_view(attempt: Option<Vec<u8>>) -> Attempt {
    match attempt {
        Some(bytes) => Some(bytes@),
        None => None,
    }
}

impl ReadRetry {
    /// Number of bytes asked for.
    pub closed spec fn spec_length(&self) -> usize {
        self.length
    }

    /// Number of attempts that failed so far.
    pub closed spec fn spec_failures(&self) -> usize {
        self.failures
    }

    /// The request fits the buffer and an attempt is still owed.
    pub open spec fn wf(&self) -> bool {
        &&& self.spec_length() < BUF_SIZE
        &&& self.spec_failures() < READ_ATTEMPTS
    }

    /// Begins a read of `length` bytes, fewer than the buffer holds.
    pub fn new(length: usize) -> (retry: Self)
        requires
            length < BUF_SIZE,
        ensures
            retry.wf(),
            retry.spec_length() == length,
            retry.spec_failures() == 0,
    {
        ReadRetry { length, failures: 0 }
    }

    /// Number of bytes that each attempt asks of the device.
    #[verifier::when_used_as_spec(spec_length)]
    pub fn length(&self) -> (n: usize)
        ensures
            n == self.spec_length(),
    {
        self.length
    }

    /// Number of attempts that failed so far.
    #[verifier::when_used_as_spec(spec_failures)]
    pub fn failures(&self) -> (n: usize)
        ensures
            n == self.spec_failures(),
    {
        self.failures
    }

    /// Takes the outcome of one attempt. Bytes of the length asked for
    /// complete the read; anything else is a failed attempt, after which
    /// the read goes on unless it was the last one allowed.
    pub fn record(self, attempt: Option<Vec<u8>>) -> (step: ReadStep)
        requires
            self.wf(),
        ensures
            step@ == judge(
                self.spec_length() as nat,
                self.spec_failures() as nat,
                attempt_view(attempt),
            ),
            step matches ReadStep::Retry(next) ==> next.wf() && next.spec_length()
                == self.spec_length(),
    {
        match attempt {
            Some(bytes) if bytes.len() == self.length => ReadStep::Complete(bytes),
            _ => {
                if self.failures + 1 < READ_ATTEMPTS {
                    ReadStep::Retry(ReadRetry { length: self.length, failures: self.failures + 1 })
                } else {
                    ReadStep::TimedOut
                }
            },
        }
    }
}

/// A read completes with the bytes of the first attempt that succeeds,
/// where at most nine attempts fail before it.
pub proof fn lemma_read_completes(length: nat, attempts: Seq<Attempt>, k: int)
    requires
        0 <= k < READ_ATTEMPTS,
        k < attempts.len(),
        forall|j: int| 0 <= j < k ==> !succeeded(#[trigger] attempts[j], length),
        succeeded(attempts[k], length),
    ensures
        read_result(length, 0, attempts) == Some(Ok::<Seq<u8>, QlError>(attempts[k]->Some_0)),
{
    lemma_read_from(length, 0, attempts, k);
}

/// A read whose first ten attempts fail ends in `ReadTimeout`, whatever an
/// eleventh would give.
pub proof fn lemma_read_times_out(length: nat, attempts: Seq<Attempt>)
    requires
        attempts.len() >= READ_ATTEMPTS,
        forall|j: int| 0 <= j < READ_ATTEMPTS ==> !succeeded(#[trigger] attempts[j], length),
    ensures
        read_result(length, 0, attempts) == Some(Err::<Seq<u8>, QlError>(QlError::ReadTimeout)),
{
    lemma_timeout_from(length, 0, attempts);
}

proof fn lemma_read_from(length: nat, failures: nat, attempts: Seq<Attempt>, k: int)
    requires
        0 <= k,
        failures + k < READ_ATTEMPTS,
        k < attempts.len(),
        forall|j: int| 0 <= j < k ==> !succeeded(#[trigger] attempts[j], length),
        succeeded(attempts[k], length),
    ensures
        read_result(length, failures, attempts) == Some(
            Ok::<Seq<u8>, QlError>(attempts[k]->Some_0),
        ),
    decreases k,
{
    if k > 0 {
        assert(!succeeded(attempts[0], length));
        let rest = attempts.skip(1);
        assert forall|j: int| 0 <= j < k - 1 implies !succeeded(#[trigger] rest[j], length) by {
            assert(rest[j] == attempts[j + 1]);
        }
        assert(rest[k - 1] == attempts[k]);
        lemma_read_from(length, failures + 1, rest, k - 1);
    }
}

proof fn lemma_timeout_from(length: nat, failures: nat, attempts: Seq<Attempt>)
    requires
        failures < READ_ATTEMPTS,
        attempts.len() >= READ_ATTEMPTS - failures,
        forall|j: int|
            0 <= j < READ_ATTEMPTS - failures ==> !succeeded(#[trigger] attempts[j], length),
    ensures
        read_result(length, failures, attempts) == Some(
            Err::<Seq<u8>, QlError>(QlError::ReadTimeout),
        ),
    decreases READ_ATTEMPTS - failures,
{
    assert(!succeeded(attempts[0], length));
    if failures + 1 < READ_ATTEMPTS {
        let rest = attempts.skip(1);
        assert forall|j: int| 0 <= j < READ_ATTEMPTS - failures - 1 implies !succeeded(
            #[trigger] rest[j],
            length,
        ) by {
            assert(rest[j] == attempts[j + 1]);
        }
        lemma_timeout_from(length, failures + 1, rest);
    }
}

} // verus!
