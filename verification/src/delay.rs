//! The reload value of the system timer for a busy-wait delay.
//!
//! The system timer counts down at the core clock frequency, so a delay of so many
//! microseconds takes that many times the core frequency in MHz counts.

use vstd::prelude::*;

verus! {

/// The largest number of counts that a delay may take.
pub const RELOAD_MAX: u32 = 0x0100_0000;

/// The number of microseconds in a millisecond.
pub const MICROSECONDS_PER_MILLISECOND: u32 = 1_000;

/// A delay that takes more counts than the system timer is loaded with.
#[derive(Clone, Copy, Debug, PartialEq, Eq, Structural)]
pub enum DelayError {
    /// The delay, in microseconds, at the core frequency, in MHz, is too long.
    TooLong { us: u64, core_frequency: u32 },
}

/// The reload value for a delay of `us` microseconds at a core clock of
/// `core_frequency` MHz: their product, which may be at most `RELOAD_MAX`.
pub fn reload_value(us: u32, core_frequency: u32) -> (r: Result<u32, DelayError>)
    ensures
        us * core_frequency <= RELOAD_MAX ==> r == Ok::<u32, DelayError>(
            (us * core_frequency) as u32,
        ),
        us * core_frequency > RELOAD_MAX ==> r == Err::<u32, DelayError>(
            DelayError::TooLong { us: us as u64, core_frequency },
        ),
{
    assert(us * core_frequency <= 0xffff_ffff * 0xffff_ffff) by (nonlinear_arith)
        requires
            us <= 0xffff_ffff,
            core_frequency <= 0xffff_ffff,
    ;
    let rvr: u64 = us as u64 * core_frequency as u64;
    if rvr > RELOAD_MAX as u64 {
        return Err(DelayError::TooLong { us: us as u64, core_frequency });
    }
    Ok(rvr as u32)
}

/// The reload value for a delay of `ms` milliseconds at a core clock of `core_frequency`
/// MHz: a thousand times `ms`, times the frequency, which may be at most `RELOAD_MAX`.
pub fn reload_value_ms(ms: u32, core_frequency: u32) -> (r: Result<u32, DelayError>)
    ensures
        ms * MICROSECONDS_PER_MILLISECOND * core_frequency <= RELOAD_MAX ==> r == Ok::<
            u32,
            DelayError,
        >((ms * MICROSECONDS_PER_MILLISECOND * core_frequency) as u32),
        ms * MICROSECONDS_PER_MILLISECOND * core_frequency > RELOAD_MAX ==> r == Err::<
            u32,
            DelayError,
        >(DelayError::TooLong { us: (ms * MICROSECONDS_PER_MILLISECOND) as u64, core_frequency }),
{
    assert(ms * MICROSECONDS_PER_MILLISECOND <= 0xffff_ffff * 1_000);
    let us: u64 = ms as u64 * MICROSECONDS_PER_MILLISECOND as u64;
    if us > RELOAD_MAX as u64 {
        assert(us * core_frequency > RELOAD_MAX || core_frequency == 0) by (nonlinear_arith)
            requires
                us > RELOAD_MAX,
                core_frequency >= 0,
        ;
        if core_frequency == 0 {
            return Ok(0);
        }
        return Err(DelayError::TooLong { us, core_frequency });
    }
    match reload_value(us as u32, core_frequency) {
        Ok(rvr) => Ok(rvr),
        Err(_) => Err(DelayError::TooLong { us, core_frequency }),
    }
}

} // verus!
