//! Runtime monotonic-clock values and per-stream order.

use std::cmp::Ordering;
use std::time::Duration;
use vstd::prelude::*;
use vstd::std_specs::cmp::PartialOrdSpecImpl;

use crate::error::ContractError;

verus! {

/// Nanoseconds on the runtime monotonic clock. Clock values compare as
/// their nanosecond counts.
#[derive(Debug, Clone, Copy, PartialEq, Eq, Structural, Ord, Hash)]
pub struct MonotonicTime(u64);

impl View for MonotonicTime {
    type V = u64;

    closed spec fn view(&self) -> u64 {
        self.0
    }
}

/// The order of two clock values: the order of their nanosecond counts.
pub open spec fn clock_order(a: MonotonicTime, b: MonotonicTime) -> Ordering {
    if a@ < b@ {
        Ordering::Less
    } else if a@ == b@ {
        Ordering::Equal
    } else {
        Ordering::Greater
    }
}

impl PartialOrd for MonotonicTime {
    fn partial_cmp(&self, other: &Self) -> (r: Option<Ordering>) {
        if self.0 < other.0 {
            Some(Ordering::Less)
        } else if self.0 == other.0 {
            Some(Ordering::Equal)
        } else {
            Some(Ordering::Greater)
        }
    }
}

impl PartialOrdSpecImpl for MonotonicTime {
    open spec fn obeys_partial_cmp_spec() -> bool {
        true
    }

    open spec fn partial_cmp_spec(&self, other: &Self) -> Option<Ordering> {
        Some(clock_order(*self, *other))
    }
}

/// The `Duration` that `Duration::from_nanos` builds from a nanosecond count.
pub uninterp spec fn nanos_duration(nanos: u64) -> Duration;

/// Calls `Duration::from_nanos`, which std documents as building a duration
/// of exactly `nanos` nanoseconds. The contract names that value by
/// `nanos_duration` and claims nothing about the fields of a `Duration`.
#[verifier::external_body]
fn duration_from_nanos(nanos: u64) -> (d: Duration)
    ensures
        d == nanos_duration(nanos),
{
    Duration::from_nanos(nanos)
}

/// What `checked_duration_since` returns for `later` and `earlier`.
pub open spec fn checked_duration_since_spec(later: MonotonicTime, earlier: MonotonicTime) -> Result<
    Duration,
    ContractError,
> {
    if earlier@ <= later@ {
        Ok(nanos_duration((later@ - earlier@) as u64))
    } else {
        Err(
            ContractError::InvalidTimeOrder {
                earlier: "earlier timestamp",
                later: "later timestamp",
            },
        )
    }
}

impl MonotonicTime {
    /// The clock value of `nanos` nanoseconds.
    pub closed spec fn at(nanos: u64) -> MonotonicTime {
        MonotonicTime(nanos)
    }

    /// Creates a runtime clock value from nanoseconds.
    pub fn from_nanos(nanos: u64) -> (t: Self)
        ensures
            t == Self::at(nanos),
            t@ == nanos,
    {
        MonotonicTime(nanos)
    }

    /// Returns the runtime clock value in nanoseconds.
    pub fn as_nanos(self) -> (nanos: u64)
        ensures
            nanos == self@,
    {
        self.0
    }

    /// Returns the elapsed time since `earlier`, or
    /// [`ContractError::InvalidTimeOrder`] if `earlier` follows `self`.
    pub fn checked_duration_since(self, earlier: Self) -> (r: Result<Duration, ContractError>)
        ensures
            r == checked_duration_since_spec(self, earlier),
    {
        match self.0.checked_sub(earlier.0) {
            Some(nanos) => Ok(duration_from_nanos(nanos)),
            None => Err(
                ContractError::InvalidTimeOrder {
                    earlier: "earlier timestamp",
                    later: "later timestamp",
                },
            ),
        }
    }
}

impl Default for MonotonicTime {
    fn default() -> (t: Self)
        ensures
            t == MonotonicTime::at(0),
            t@ == 0,
    {
        MonotonicTime(0)
    }
}

/// What checking one step of a stream gives: the sequence number must
/// increase, and the source time may stay equal but cannot move backward. A
/// non-increasing sequence is reported before any time check.
pub open spec fn stream_order_result(
    previous_sequence: u64,
    previous_time: MonotonicTime,
    next_sequence: u64,
    next_time: MonotonicTime,
) -> Result<(), ContractError> {
    if next_sequence <= previous_sequence {
        Err(ContractError::InvalidSequence)
    } else if next_time@ < previous_time@ {
        Err(
            ContractError::InvalidTimeOrder {
                earlier: "previous source time",
                later: "next source time",
            },
        )
    } else {
        Ok(())
    }
}

/// Checks sequence and source-time order for one stream.
///
/// Sequence numbers must increase. Source times may stay equal but cannot
/// move backward.
pub fn validate_stream_order(
    previous_sequence: u64,
    previous_time: MonotonicTime,
    next_sequence: u64,
    next_time: MonotonicTime,
) -> (r: Result<(), ContractError>)
    ensures
        r == stream_order_result(previous_sequence, previous_time, next_sequence, next_time),
{
    if next_sequence <= previous_sequence {
        return Err(ContractError::InvalidSequence);
    }
    if next_time.as_nanos() < previous_time.as_nanos() {
        return Err(
            ContractError::InvalidTimeOrder {
                earlier: "previous source time",
                later: "next source time",
            },
        );
    }
    Ok(())
}

/// Stream order chains: two accepted steps make an accepted step from the
/// first record to the last.
pub proof fn stream_order_is_transitive(
    first_sequence: u64,
    first_time: MonotonicTime,
    second_sequence: u64,
    second_time: MonotonicTime,
    third_sequence: u64,
    third_time: MonotonicTime,
)
    requires
        stream_order_result(first_sequence, first_time, second_sequence, second_time) is Ok,
        stream_order_result(second_sequence, second_time, third_sequence, third_time) is Ok,
    ensures
        stream_order_result(first_sequence, first_time, third_sequence, third_time) is Ok,
{
}

/// An accepted stream step never moves source time backward, so the elapsed
/// time from the earlier record to the later one is defined and is their
/// difference in nanoseconds.
pub proof fn accepted_step_has_elapsed_time(
    previous_sequence: u64,
    previous_time: MonotonicTime,
    next_sequence: u64,
    next_time: MonotonicTime,
)
    requires
        stream_order_result(previous_sequence, previous_time, next_sequence, next_time) is Ok,
    ensures
        checked_duration_since_spec(next_time, previous_time) == Ok::<Duration, ContractError>(
            nanos_duration((next_time@ - previous_time@) as u64),
        ),
{
}

/// Elapsed time is defined in both directions only between equal times.
pub proof fn elapsed_time_both_ways_only_when_equal(a: MonotonicTime, b: MonotonicTime)
    ensures
        (checked_duration_since_spec(a, b) is Ok && checked_duration_since_spec(b, a) is Ok)
            <==> a@ == b@,
{
}

/// A clock value is determined by its nanosecond count, and clock values
/// compare as their counts.
pub proof fn clock_value_is_its_count(a: MonotonicTime, b: MonotonicTime)
    ensures
        (a == b) == (a@ == b@),
        MonotonicTime::at(a@) == a,
        MonotonicTime::at(b@)@ == b@,
        (clock_order(a, b) == Ordering::Less) == (a@ < b@),
        (clock_order(a, b) == Ordering::Greater) == (a@ > b@),
{
}

/// A stream step is accepted exactly when the sequence increases and the
/// source time does not move backward, however far it moves forward. A
/// non-increasing sequence is the sequence error; otherwise a backward time
/// is the time error.
pub proof fn stream_order_accepts_exactly_forward_steps(
    previous_sequence: u64,
    previous_time: MonotonicTime,
    next_sequence: u64,
    next_time: MonotonicTime,
)
    ensures
        (stream_order_result(previous_sequence, previous_time, next_sequence, next_time) is Ok)
            == (next_sequence > previous_sequence && next_time@ >= previous_time@),
        (stream_order_result(previous_sequence, previous_time, next_sequence, next_time)
            == Err::<(), ContractError>(ContractError::InvalidSequence)) == (next_sequence
            <= previous_sequence),
        (stream_order_result(previous_sequence, previous_time, next_sequence, next_time)
            == Err::<(), ContractError>(
            ContractError::InvalidTimeOrder {
                earlier: "previous source time",
                later: "next source time",
            },
        )) == (next_sequence > previous_sequence && next_time@ < previous_time@),
{
}

/// The elapsed time since an earlier clock value is defined exactly when it
/// does not follow the later one, and is then the difference of their
/// nanosecond counts; otherwise the time-order error is reported.
pub proof fn elapsed_time_is_the_count_difference(later: MonotonicTime, earlier: MonotonicTime)
    ensures
        (checked_duration_since_spec(later, earlier) is Ok) == (earlier@ <= later@),
        earlier@ <= later@ ==> checked_duration_since_spec(later, earlier) == Ok::<
            Duration,
            ContractError,
        >(nanos_duration((later@ - earlier@) as u64)),
        later@ < earlier@ ==> checked_duration_since_spec(later, earlier) == Err::<
            Duration,
            ContractError,
        >(
            ContractError::InvalidTimeOrder {
                earlier: "earlier timestamp",
                later: "later timestamp",
            },
        ),
{
}

} // verus!
