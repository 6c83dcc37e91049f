//! The size of an emulator's JIT code cache.

use crate::switches::text_of;
use crate::text::{decimal, law_decimal_is_read_back, parse_u64, u64_written_in};
use vstd::prelude::*;

verus! {

/// The size, in megabytes, where none is asked for.
pub const DEFAULT_JIT_SIZE_MB: u64 = 64;

/// The smallest size granted, in megabytes.
pub const MIN_JIT_SIZE_MB: u64 = 8;

/// The largest size granted, in megabytes.
pub const MAX_JIT_SIZE_MB: u64 = 512;

/// The size that `DYNARMIC_JIT_SIZE` asks for, in megabytes: the number that it
/// writes, or the default where it is unset or writes none.
pub open spec fn requested_mb(value: Option<Seq<char>>) -> u64 {
    match value {
        Some(s) => match u64_written_in(s) {
            Some(mb) => mb,
            None => DEFAULT_JIT_SIZE_MB,
        },
        None => DEFAULT_JIT_SIZE_MB,
    }
}

/// The size granted for a request, in megabytes: the nearest one in range.
pub open spec fn granted_mb(requested: u64) -> u64 {
    if requested < MIN_JIT_SIZE_MB {
        MIN_JIT_SIZE_MB
    } else if requested > MAX_JIT_SIZE_MB {
        MAX_JIT_SIZE_MB
    } else {
        requested
    }
}

/// The size that the text of `DYNARMIC_JIT_SIZE` asks for, in megabytes.
pub fn requested_jit_size(value: Option<&str>) -> (mb: u64)
    ensures
        mb == requested_mb(text_of(value)),
{
    match value {
        Some(s) => match parse_u64(s) {
            Some(mb) => mb,
            None => DEFAULT_JIT_SIZE_MB,
        },
        None => DEFAULT_JIT_SIZE_MB,
    }
}

/// The size granted for a request, in megabytes.
pub fn granted_jit_size(requested: u64) -> (mb: u64)
    ensures
        mb == granted_mb(requested),
{
    if requested < MIN_JIT_SIZE_MB {
        MIN_JIT_SIZE_MB
    } else if requested > MAX_JIT_SIZE_MB {
        MAX_JIT_SIZE_MB
    } else {
        requested
    }
}

/// The size in bytes that the engine is given for a size in megabytes.
pub fn jit_size_bytes(mb: u64) -> (bytes: u64)
    requires
        mb <= MAX_JIT_SIZE_MB,
    ensures
        bytes == mb * 0x10_0000,
{
    mb * 1024 * 1024
}

/// Whatever the variable holds, the size granted lies between 8 and 512 megabytes;
/// it is 64 where the variable is unset or writes no number; and a request in range
/// is granted as it is.
pub proof fn law_jit_size_in_range(value: Option<Seq<char>>)
    ensures
        8 <= granted_mb(requested_mb(value)) <= 512,
        value is None ==> granted_mb(requested_mb(value)) == 64,
        value matches Some(s) && u64_written_in(s) is None ==> granted_mb(requested_mb(value))
            == 64,
        8 <= requested_mb(value) <= 512 ==> granted_mb(requested_mb(value)) == requested_mb(value),
{
}

/// Every size in range can be had: its number of megabytes, written in decimal, asks
/// for it and gets it.
pub proof fn law_jit_size_is_read_in_decimal(mb: u64)
    requires
        MIN_JIT_SIZE_MB <= mb <= MAX_JIT_SIZE_MB,
    ensures
        granted_mb(requested_mb(Some(decimal(mb as nat)))) == mb,
{
    law_decimal_is_read_back(mb);
}

/// No size in range lies nearer to the request than the one granted.
pub proof fn law_jit_size_is_nearest(requested: u64, other: u64)
    requires
        MIN_JIT_SIZE_MB <= other <= MAX_JIT_SIZE_MB,
    ensures
        requested <= granted_mb(requested) ==> granted_mb(requested) - requested <= (if other
            >= requested {
            other - requested
        } else {
            requested - other
        }),
        requested >= granted_mb(requested) ==> requested - granted_mb(requested) <= (if other
            >= requested {
            other - requested
        } else {
            requested - other
        }),
{
}

/// A number that the variable writes is the size asked for, and anything else asks for
/// 64 megabytes; a size below 8 gets 8, one above 512 gets 512.
pub proof fn law_jit_size_follows_the_variable(s: Seq<char>, requested: u64)
    ensures
        requested_mb(None) == 64,
        u64_written_in(s) matches Some(mb) ==> requested_mb(Some(s)) == mb,
        u64_written_in(s) is None ==> requested_mb(Some(s)) == 64,
        requested < 8 ==> granted_mb(requested) == 8,
        8 <= requested <= 512 ==> granted_mb(requested) == requested,
        requested > 512 ==> granted_mb(requested) == 512,
{
}

/// A larger request never gets less.
pub proof fn law_jit_size_grows_with_the_request(a: u64, b: u64)
    requires
        a <= b,
    ensures
        granted_mb(a) <= granted_mb(b),
{
}

} // verus!
