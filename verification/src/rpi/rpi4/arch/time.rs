//! Architectural timer arithmetic of the ARMv8 generic timer.
use vstd::prelude::*;

verus! {

pub const NS_PER_S: u64 = 1_000_000_000;

/// Why a wait is not started.
#[derive(Clone, Copy, PartialEq, Eq, Structural, Debug)]
pub enum WaitSkip {
    /// The duration is zero: return at once.
    Zero,
    /// The counter ticks of the duration overflow 64 bits.
    TooLong,
    /// The duration is shorter than one counter tick.
    Smaller,
    /// The duration needs more ticks than the 32-bit timer value holds.
    Bigger,
}

/// The ARMv8 generic timer.
pub struct GenericTimer;

impl GenericTimer {
    /// The timer's resolution in nanoseconds, for counter frequency `frq`.
    pub fn resolution(&self, frq: u64) -> (ns: u64)
        requires
            frq > 0,
        ensures
            ns == NS_PER_S / frq,
    {
        NS_PER_S / frq
    }

    /// The uptime in nanoseconds for the counter value `cntpct` at
    /// frequency `frq`.
    pub fn uptime(&self, cntpct: u64, frq: u64) -> (ns: u64)
        requires
            frq > 0,
            cntpct * NS_PER_S <= u64::MAX,
        ensures
            ns == (cntpct * NS_PER_S) / frq as int,
    {
        let current_count: u64 = cntpct * NS_PER_S;
        current_count / frq
    }

    /// The timer value that waits `nanos` nanoseconds at counter frequency
    /// `frq`, or why no wait is started. The nanoseconds are taken modulo
    /// 2^64, as a 64-bit count.
    pub fn wait_for(&self, frq: u64, nanos: u128) -> (r: Result<u64, WaitSkip>)
        ensures
            nanos == 0 ==> r == Err::<u64, WaitSkip>(WaitSkip::Zero),
            nanos != 0 && frq * (nanos % 0x1_0000_0000_0000_0000) > u64::MAX ==> r == Err::<
                u64,
                WaitSkip,
            >(WaitSkip::TooLong),
            nanos != 0 && frq * (nanos % 0x1_0000_0000_0000_0000) <= u64::MAX ==> r == (if (frq * (
            nanos % 0x1_0000_0000_0000_0000)) / (NS_PER_S as int) == 0 {
                Err::<u64, WaitSkip>(WaitSkip::Smaller)
            } else if (frq * (nanos % 0x1_0000_0000_0000_0000)) / (NS_PER_S as int) > u32::MAX {
                Err::<u64, WaitSkip>(WaitSkip::Bigger)
            } else {
                Ok::<u64, WaitSkip>(((frq * (nanos % 0x1_0000_0000_0000_0000)) / (NS_PER_S as int)) as u64)
            }),
    {
        if nanos == 0 {
            return Err(WaitSkip::Zero);
        }
        let n = nanos as u64;
        assert(n == nanos % 0x1_0000_0000_0000_0000) by (bit_vector)
            requires
                n == nanos as u64,
        ;
        let x = match frq.checked_mul(n) {
            None => {
                return Err(WaitSkip::TooLong);
            },
            Some(val) => val,
        };
        let tval = x / NS_PER_S;
        if tval == 0 {
            Err(WaitSkip::Smaller)
        } else if tval > 0xFFFF_FFFFu64 {
            Err(WaitSkip::Bigger)
        } else {
            Ok(tval)
        }
    }
}

} // verus!
