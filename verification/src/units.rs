//! Unit normalization. Sources report capacities in bytes or kibibytes;
//! records carry binary gigabytes and mebibytes in a fixed-point form,
//! scaled by one million, so that the millionths place is exact.

use vstd::prelude::*;

verus! {

/// Binary gigabytes scaled by one million: the integer part of
/// `bytes * 10^6 / 2^30`. Dividing the result by `10^6` gives the gigabyte
/// value to within a millionth.
pub fn gb_micro(bytes: u64) -> (r: u64)
    ensures
        r == bytes * 1000000 / 0x40000000,
{
    let wide: u128 = (bytes as u128) * 1000000 / 0x40000000;
    proof {
        assert(wide <= u64::MAX as u128) by (nonlinear_arith)
            requires
                wide == bytes as int * 1000000 / 0x40000000,
                bytes <= u64::MAX,
        ;
    }
    wide as u64
}

/// Binary megabytes scaled by one million: the integer part of
/// `bytes * 10^6 / 2^20`.
pub fn mb_micro(bytes: u64) -> (r: u64)
    ensures
        r == bytes * 1000000 / 0x100000,
{
    let wide: u128 = (bytes as u128) * 1000000 / 0x100000;
    proof {
        assert(wide <= u64::MAX as u128) by (nonlinear_arith)
            requires
                wide == bytes as int * 1000000 / 0x100000,
                bytes <= u64::MAX,
        ;
    }
    wide as u64
}

/// Whole binary megabytes: `bytes / 2^20`, rounded down.
pub fn mb_of_bytes(bytes: u64) -> (r: u64)
    ensures
        r == bytes / 0x100000,
{
    bytes / 0x100000
}

/// Whole binary gigabytes from a kibibyte count: `kb / 2^20`, rounded down.
pub fn gb_of_kb(kb: u64) -> (r: u64)
    ensures
        r == kb / 0x100000,
{
    kb / 0x100000
}

/// A used/total ratio as a percentage scaled by one million: the integer
/// part of `used * 10^8 / total`, or zero when `total` is zero.
pub fn pct_micro(used: u64, total: u64) -> (r: u64)
    requires
        used <= total,
    ensures
        total > 0 ==> r == used as int * 100000000 / total as int,
        total == 0 ==> r == 0,
{
    if total == 0 {
        return 0;
    }
    let wide: u128 = (used as u128) * 100000000 / (total as u128);
    proof {
        assert(wide <= 100000000) by (nonlinear_arith)
            requires
                wide == used as int * 100000000 / total as int,
                0 <= used <= total,
                total > 0,
        ;
    }
    wide as u64
}

} // verus!
