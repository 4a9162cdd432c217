//! Conversion of reset times to Windows `FILETIME` ticks.

use std::time::{SystemTime, UNIX_EPOCH};

use vstd::prelude::*;

verus! {

/// 100-nanosecond ticks between 1601-01-01 and the Unix epoch.
pub const WINDOWS_EPOCH_OFFSET_TICKS: u64 = 116_444_736_000_000_000;

/// 100-nanosecond ticks in a second.
pub const TICKS_PER_SECOND: u64 = 10_000_000;

#[verifier::external_type_specification]
#[verifier::external_body]
pub struct ExSystemTime(SystemTime);

/// Why a time has no `FILETIME` value.
#[derive(Clone, Copy, Debug, PartialEq, Eq, Structural)]
pub enum FileTimeError {
    /// The time lies before the Unix epoch.
    BeforeUnixEpoch,
    /// The tick count does not fit in 64 bits.
    Overflow,
}

/// The `FILETIME` ticks of a time `seconds` and `nanos` after the Unix epoch
/// (sub-tick nanoseconds dropped), when they fit in 64 bits.
pub open spec fn file_time(seconds: u64, nanos: u32) -> Option<u64> {
    let ticks = WINDOWS_EPOCH_OFFSET_TICKS + seconds * TICKS_PER_SECOND + nanos / 100;
    if seconds * TICKS_PER_SECOND > u64::MAX || ticks > u64::MAX {
        None
    } else {
        Some(ticks as u64)
    }
}

/// The `FILETIME` ticks of a time given as whole seconds and the nanoseconds
/// of the started second after the Unix epoch.
pub fn file_time_ticks_from_parts(seconds: u64, nanos: u32) -> (r: Result<u64, FileTimeError>)
    ensures
        match file_time(seconds, nanos) {
            Some(t) => r == Ok::<u64, FileTimeError>(t),
            None => r == Err::<u64, FileTimeError>(FileTimeError::Overflow),
        },
{
    let whole = match seconds.checked_mul(TICKS_PER_SECOND) {
        Some(v) => v,
        None => return Err(FileTimeError::Overflow),
    };
    let subsecond_ticks = (nanos / 100) as u64;
    match WINDOWS_EPOCH_OFFSET_TICKS.checked_add(whole) {
        Some(t) => match t.checked_add(subsecond_ticks) {
            Some(total) => Ok(total),
            None => Err(FileTimeError::Overflow),
        },
        None => Err(FileTimeError::Overflow),
    }
}

/// The whole seconds and the nanoseconds of the started second that a time
/// lies after the Unix epoch, as `SystemTime::duration_since(UNIX_EPOCH)`
/// gives them; `None` for a time before the epoch.
pub uninterp spec fn elapsed_parts(value: SystemTime) -> Option<(u64, u32)>;

/// `SystemTime::duration_since(UNIX_EPOCH)`, its `Duration` taken apart into
/// whole seconds and the nanoseconds past them. The standard library
/// documents the nanoseconds as less than one second; that the parts are
/// those of `value` is what `elapsed_parts` names.
#[verifier::external_body]
fn since_unix_epoch(value: SystemTime) -> (r: Option<(u64, u32)>)
    ensures
        r == elapsed_parts(value),
        r matches Some(parts) ==> parts.1 < 1_000_000_000,
{
    match value.duration_since(UNIX_EPOCH) {
        Ok(elapsed) => Some((elapsed.as_secs(), elapsed.subsec_nanos())),
        Err(_) => None,
    }
}

/// What `file_time_ticks` gives for a time whose elapsed parts since the
/// Unix epoch are `parts`.
pub open spec fn file_time_result(parts: Option<(u64, u32)>) -> Result<u64, FileTimeError> {
    match parts {
        None => Err(FileTimeError::BeforeUnixEpoch),
        Some((seconds, nanos)) => match file_time(seconds, nanos) {
            Some(t) => Ok(t),
            None => Err(FileTimeError::Overflow),
        },
    }
}

/// The `FILETIME` ticks of a system time: an error before the Unix epoch or
/// when the ticks overflow, and otherwise the ticks of its elapsed seconds
/// and nanoseconds since the epoch.
pub fn file_time_ticks(value: SystemTime) -> (r: Result<u64, FileTimeError>)
    ensures
        r == file_time_result(elapsed_parts(value)),
{
    match since_unix_epoch(value) {
        Some((seconds, nanos)) => file_time_ticks_from_parts(seconds, nanos),
        None => Err(FileTimeError::BeforeUnixEpoch),
    }
}

} // verus!
