//! Narrowing integers.
use vstd::prelude::*;

verus! {

/// The low 32 bits of an integer, as a signed number.
pub open spec fn low_i32(n: int) -> int {
    let low = n % 0x1_0000_0000;
    if low < 0x8000_0000 {
        low
    } else {
        low - 0x1_0000_0000
    }
}

/// `n as i32`.
pub fn truncate_i32(n: i64) -> (r: i32)
    ensures
        r == low_i32(n as int),
{
    let low: i64 = match n.checked_rem_euclid(4294967296) {
        Some(low) => low,
        None => 0,
    };
    if low < 2147483648 {
        low as i32
    } else {
        (low - 4294967296) as i32
    }
}

/// `n as i32`, for a length.
pub fn truncate_len(n: usize) -> (r: i32)
    ensures
        r == low_i32(n as int),
{
    let low: u64 = (n as u64) % 4294967296;
    truncate_i32(low as i64)
}

/// A signed number read as an unsigned one: negative ones wrap round.
pub open spec fn wrapped_u64(n: int) -> int {
    if n < 0 {
        n + 0x1_0000_0000_0000_0000
    } else {
        n
    }
}

/// `n as u64`.
pub fn wrap_u64(n: i64) -> (r: u64)
    ensures
        r == wrapped_u64(n as int),
{
    if n < 0 {
        (n as i128 + 18446744073709551616) as u64
    } else {
        n as u64
    }
}

/// An unsigned number read as a signed one: large ones wrap round.
pub open spec fn wrapped_i64(n: int) -> int {
    if n > i64::MAX {
        n - 0x1_0000_0000_0000_0000
    } else {
        n
    }
}

/// `n as i64`.
pub fn wrap_i64(n: u64) -> (r: i64)
    ensures
        r == wrapped_i64(n as int),
{
    if n > i64::MAX as u64 {
        (n as i128 - 18446744073709551616) as i64
    } else {
        n as i64
    }
}

/// A number that fits stays as it is; one that does not is off by a multiple of
/// the type's span, and fits.
pub proof fn law_wrapping_keeps_what_fits(n: int)
    ensures
        i32::MIN <= low_i32(n) <= i32::MAX,
        (low_i32(n) - n) % 0x1_0000_0000 == 0,
        i32::MIN <= n <= i32::MAX ==> low_i32(n) == n,
        0 <= n <= u64::MAX ==> wrapped_u64(n) == n,
        i64::MIN <= n < 0 ==> wrapped_u64(n) == n + u64::MAX + 1,
        i64::MIN <= n <= i64::MAX ==> wrapped_i64(n) == n,
        i64::MAX < n <= u64::MAX ==> wrapped_i64(n) == n - u64::MAX - 1,
{
}

/// Reading signed what was read unsigned gives back the number.
pub proof fn law_wrapping_back_restores(n: int)
    requires
        i64::MIN <= n <= i64::MAX,
    ensures
        wrapped_i64(wrapped_u64(n)) == n,
{
}

} // verus!
