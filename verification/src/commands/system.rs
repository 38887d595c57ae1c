//! The machine's memory, in whole gigabytes.

use vstd::prelude::*;
use crate::error::CommandError;

verus! {

/// The bytes of a gigabyte: 1024 to the third power.
pub const BYTES_PER_GB: u64 = 1_073_741_824;

/// From this many gigabytes on, a machine counts as one of sixteen.
pub const RESERVED_FROM_GB: u64 = 15;

/// What is reported for such a machine.
pub const REPORTED_GB: u64 = 16;

/// `bytes` in gigabytes, rounded to the nearest whole number; a half rounds
/// up.
pub open spec fn rounded_gb(bytes: nat) -> nat {
    (bytes + 536_870_912) / 1_073_741_824
}

/// The gigabytes that are reported for a machine of `gb` gigabytes.
/// Graphics that share the memory keep a part of it for themselves, so that
/// a machine of sixteen gigabytes shows fifteen or so.
pub open spec fn adjusted_gb(gb: nat) -> nat {
    if gb >= 15 {
        16
    } else {
        gb
    }
}

/// What `get_total_memory_gb` answers.
pub open spec fn memory_outcome(reading: Result<u64, String>) -> Result<u64, CommandError> {
    match reading {
        Ok(bytes) => Ok(adjusted_gb(rounded_gb(bytes as nat)) as u64),
        Err(text) => Err(CommandError::HostInfo(text)),
    }
}

/// `bytes` in gigabytes, rounded to the nearest whole number; a half rounds
/// up. The result is the one number of gigabytes that is no more than half
/// a gigabyte away.
pub fn round_to_gb(bytes: u64) -> (gb: u64)
    ensures
        gb == rounded_gb(bytes as nat),
        gb * 1_073_741_824 - 536_870_912 <= bytes < gb * 1_073_741_824 + 536_870_912,
{
    let whole: u64 = bytes / BYTES_PER_GB;
    let rest: u64 = bytes % BYTES_PER_GB;
    if rest >= BYTES_PER_GB / 2 {
        whole + 1
    } else {
        whole
    }
}

/// The gigabytes to report for a machine of `gb` gigabytes: sixteen from
/// fifteen on, and `gb` itself below.
pub fn adjust_for_reserved(gb: u64) -> (reported: u64)
    ensures
        reported == adjusted_gb(gb as nat),
{
    if gb >= RESERVED_FROM_GB {
        REPORTED_GB
    } else {
        gb
    }
}

/// The machine's memory in whole gigabytes, as reported to the interface.
/// `reading` is what came of asking the machine: its memory in bytes, or
/// the words of the failure.
pub fn get_total_memory_gb(reading: Result<u64, String>) -> (result: Result<u64, CommandError>)
    ensures
        result == memory_outcome(reading),
{
    match reading {
        Ok(bytes) => Ok(adjust_for_reserved(round_to_gb(bytes))),
        Err(text) => Err(CommandError::HostInfo(text)),
    }
}

} // verus!
