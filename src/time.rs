use vstd::prelude::*;

verus! {

/// Nanoseconds per second.
pub const NS_PER_S: u64 = 1_000_000_000;

/// What a busy wait of a given length does on the generic timer.
#[derive(Clone, Copy, Debug, PartialEq, Eq, Structural)]
pub enum SpinPlan {
    /// A zero-length wait returns at once.
    NoWait,
    /// The duration or the tick count overflows 64 bits; the wait is skipped with a warning.
    TooLong,
    /// The wait is under one tick; skipped with a warning.
    SmallerThanSupported,
    /// The tick count exceeds the 32 bits of CNTP_TVAL_EL0; skipped with a warning.
    BiggerThanSupported,
    /// Program CNTP_TVAL_EL0 with this many ticks and wait for ISTATUS.
    Wait(u64),
}

impl SpinPlan {
    /// The warning to log for a skipped wait.
    pub fn warning(&self) -> (r: Option<&'static str>)
        ensures
            *self == SpinPlan::TooLong ==> r == Some("Spin duration too long, skipping"),
            *self == SpinPlan::SmallerThanSupported
                ==> r == Some("Spin duration smaller than architecture supported, skipping"),
            *self == SpinPlan::BiggerThanSupported
                ==> r == Some("Spin duration bigger than architecture supported, skipping"),
            (*self == SpinPlan::NoWait || *self is Wait) ==> r is None,
    {
        match self {
            SpinPlan::TooLong => Some("Spin duration too long, skipping"),
            SpinPlan::SmallerThanSupported => Some("Spin duration smaller than architecture supported, skipping"),
            SpinPlan::BiggerThanSupported => Some("Spin duration bigger than architecture supported, skipping"),
            _ => None,
        }
    }
}

/// The spin plan for a wait of `duration_ns` nanoseconds at a counter
/// frequency of `frq` Hz. A wait whose tick count does not fit in 64 bits,
/// including one of more than 2^64 - 1 nanoseconds, is skipped.
pub open spec fn spin_plan(frq: u64, duration_ns: u128) -> SpinPlan {
    let ns = duration_ns as u64;
    if duration_ns == 0 {
        SpinPlan::NoWait
    } else if duration_ns > u64::MAX || frq * ns > u64::MAX {
        SpinPlan::TooLong
    } else if (frq * ns) / (NS_PER_S as int) == 0 {
        SpinPlan::SmallerThanSupported
    } else if (frq * ns) / (NS_PER_S as int) > u32::MAX {
        SpinPlan::BiggerThanSupported
    } else {
        SpinPlan::Wait(((frq * ns) / (NS_PER_S as int)) as u64)
    }
}

/// Decides how to busy wait `duration_ns` nanoseconds with the counter
/// running at `frq` Hz: the timer value is `frq * ns / 10^9` ticks, and it
/// must fit in 32 bits and be at least one.
pub fn spin_for(frq: u64, duration_ns: u128) -> (r: SpinPlan)
    ensures
        r == spin_plan(frq, duration_ns),
{
    if duration_ns == 0 {
        return SpinPlan::NoWait;
    }
    if duration_ns > 0xFFFF_FFFF_FFFF_FFFFu128 {
        return SpinPlan::TooLong;
    }
    let x = match frq.checked_mul(duration_ns as u64) {
        None => {
            return SpinPlan::TooLong;
        },
        Some(val) => val,
    };
    let tval = x / NS_PER_S;
    if tval == 0 {
        SpinPlan::SmallerThanSupported
    } else if tval > 0xFFFF_FFFFu64 {
        SpinPlan::BiggerThanSupported
    } else {
        SpinPlan::Wait(tval)
    }
}

/// The length of one counter tick in nanoseconds, at `frq` Hz.
pub fn resolution(frq: u64) -> (r: u64)
    requires
        frq > 0,
    ensures
        r == NS_PER_S / frq,
{
    NS_PER_S / frq
}

/// The time since boot in nanoseconds, for a counter value `count` at `frq` Hz.
pub fn uptime(count: u64, frq: u64) -> (r: u64)
    requires
        frq > 0,
        count * NS_PER_S <= u64::MAX,
    ensures
        r == (count * NS_PER_S) / (frq as int),
{
    let current_count: u64 = count * NS_PER_S;
    current_count / frq
}

} // verus!
