//! Encoding of the I2C bus timeout into the value the hardware register takes.
//!
//! On the ESP32 and ESP32-S2 the timeout is a number of APB clock ticks. On the
//! newer chips the register holds an exponent: the timeout is `2^value` cycles
//! of the crystal clock, with at most 22 as a valid exponent. A requested
//! duration is rounded up to the next value the hardware can represent, and a
//! duration beyond the largest one is encoded as 32, which the driver rejects
//! when it sets the timeout.

use vstd::prelude::*;
use vstd::arithmetic::power2::{
    pow2,
    lemma_pow2_unfold,
    lemma_pow2_strictly_increases,
    lemma2_to64,
};
use vstd::bits::{lemma_u64_shl_is_mul, lemma_u64_pow2_no_overflow};
use vstd::std_specs::bits::{
    u64_leading_zeros,
    u64_trailing_zeros,
    axiom_u64_leading_zeros,
    axiom_u64_trailing_zeros,
};

verus! {

/// Frequency of the APB clock on the ESP32 and ESP32-S2, in Hz.
pub const APB_CLK_FREQ: u32 = 80_000_000;

/// Length of one APB clock tick in whole nanoseconds (ESP32, ESP32-S2).
pub const APB_TICK_PERIOD_NS: u32 = 1_000_000_000 / APB_CLK_FREQ;

/// Length of one tick of a 48 MHz crystal in whole nanoseconds.
pub const XTAL_48M_TICK_PERIOD_NS: u32 = 1_000_000_000 / 48_000_000;

/// Length of one tick of a 40 MHz crystal in whole nanoseconds.
pub const XTAL_40M_TICK_PERIOD_NS: u32 = 1_000_000_000 / 40_000_000;

/// Length of one tick of a 32 MHz crystal in whole nanoseconds.
pub const XTAL_32M_TICK_PERIOD_NS: u32 = 1_000_000_000 / 32_000_000;

/// Length of one tick of a 26 MHz crystal in whole nanoseconds.
pub const XTAL_26M_TICK_PERIOD_NS: u32 = 1_000_000_000 / 26_000_000;

/// Largest exponent the crystal-clock timeout register accepts.
pub const MAX_XTAL_TIMEOUT_EXPONENT: u32 = 22;

/// Value that stands for a timeout longer than the hardware can represent.
pub const XTAL_TIMEOUT_OUT_OF_RANGE: i32 = 32;

/// The smallest `r` with `c <= 2^r`.
pub open spec fn ceil_log2(c: nat) -> nat
    decreases c,
{
    if c <= 1 {
        0
    } else {
        1 + ceil_log2(((c + 1) / 2) as nat)
    }
}

/// Crystal-clock cycles in a duration of `nanos` nanoseconds, rounded up.
pub open spec fn xtal_cycles(nanos: u128, tick_period_ns: u32) -> nat {
    (((nanos + tick_period_ns - 1) as int) / (tick_period_ns as int)) as nat
}

/// The register value for a timeout of `cycles` crystal cycles: the exponent
/// of the next power of two (0 for no cycles), or the out-of-range marker
/// above the largest one.
pub open spec fn xtal_register(cycles: nat) -> int {
    if ceil_log2(cycles) <= MAX_XTAL_TIMEOUT_EXPONENT {
        ceil_log2(cycles) as int
    } else {
        XTAL_TIMEOUT_OUT_OF_RANGE as int
    }
}

/// APB ticks in `nanos` nanoseconds, rounded up.
pub open spec fn apb_ticks(nanos: nat, tick_period_ns: nat) -> int {
    ((nanos + tick_period_ns - 1) as int) / (tick_period_ns as int)
}

/// Whole nanoseconds in the longest `Duration`: `u64::MAX` seconds and
/// 999_999_999 nanoseconds.
pub open spec fn max_duration_nanos() -> nat {
    0xffff_ffff_ffff_ffff * 1_000_000_000 + 999_999_999
}

/// Tick length in whole nanoseconds of a clock running at `clock_hz`.
pub fn tick_period_ns(clock_hz: u32) -> (r: u32)
    requires
        clock_hz > 0,
    ensures
        r == 1_000_000_000int / (clock_hz as int),
{
    1_000_000_000u32 / clock_hz
}

/// `2^r` bounds `c` from above, and `r` is the least exponent that does.
pub proof fn lemma_ceil_log2_bounds(c: nat)
    requires
        c >= 1,
    ensures
        c <= pow2(ceil_log2(c)),
        ceil_log2(c) > 0 ==> pow2((ceil_log2(c) - 1) as nat) < c,
    decreases c,
{
    if c <= 1 {
        lemma2_to64();
    } else {
        let h = ((c + 1) / 2) as nat;
        lemma_ceil_log2_bounds(h);
        let k = ceil_log2(h);
        lemma_pow2_unfold(k + 1);
        if k == 0 {
            lemma2_to64();
        } else {
            lemma_pow2_unfold(k);
        }
    }
}

/// `2^a <= 2^b` whenever `a <= b`.
proof fn lemma_pow2_monotone(a: nat, b: nat)
    requires
        a <= b,
    ensures
        pow2(a) <= pow2(b),
{
    if a < b {
        lemma_pow2_strictly_increases(a, b);
    }
}

/// An exponent that bounds `c` from above and is least in doing so is `ceil_log2(c)`.
pub proof fn lemma_ceil_log2_unique(c: nat, r: nat)
    requires
        c >= 1,
        c <= pow2(r),
        r > 0 ==> pow2((r - 1) as nat) < c,
    ensures
        ceil_log2(c) == r,
{
    lemma_ceil_log2_bounds(c);
    let k = ceil_log2(c);
    if k < r {
        lemma_pow2_monotone(k, (r - 1) as nat);
    } else if k > r {
        lemma_pow2_monotone(r, (k - 1) as nat);
    }
}

/// `ceil_log2` never decreases as its argument grows.
pub proof fn lemma_ceil_log2_monotone(c1: nat, c2: nat)
    requires
        c1 <= c2,
    ensures
        ceil_log2(c1) <= ceil_log2(c2),
{
    if c1 == 0 {
        return;
    }
    lemma_ceil_log2_bounds(c1);
    lemma_ceil_log2_bounds(c2);
    let k1 = ceil_log2(c1);
    let k2 = ceil_log2(c2);
    if k2 < k1 {
        lemma_pow2_monotone(k2, (k1 - 1) as nat);
    }
}

/// For a nonzero `x`, the leading and trailing zero counts sum to 63 exactly
/// when `x` has a single bit set, and never to more.
proof fn lemma_single_bit_zero_counts(x: u64, k: u64)
    requires
        x != 0,
        k < 64,
    ensures
        u64_leading_zeros(x) + u64_trailing_zeros(x) <= 63,
        x == (1u64 << k) ==> u64_leading_zeros(x) + u64_trailing_zeros(x) == 63,
        u64_leading_zeros(x) + u64_trailing_zeros(x) == 63 ==> x == (1u64 << (u64_trailing_zeros(x) as u64)),
{
    axiom_u64_leading_zeros(x);
    axiom_u64_trailing_zeros(x);
    let l = u64_leading_zeros(x) as u64;
    let t = u64_trailing_zeros(x) as u64;
    assert(l < 64 && t < 64);
    assert(l + t <= 63) by (bit_vector)
        requires
            l < 64,
            t < 64,
            (x >> t) & 1u64 == 1u64,
            x >> ((64 - l) as u64) == 0,
    ;
    assert(x == (1u64 << k) ==> l + t == 63) by (bit_vector)
        requires
            l < 64,
            t < 64,
            k < 64,
            (x >> t) & 1u64 == 1u64,
            (x >> ((63 - l) as u64)) & 1u64 != 0u64,
    ;
    assert(l + t == 63 ==> x == (1u64 << t)) by (bit_vector)
        requires
            l < 64,
            t < 64,
            (x >> t) & 1u64 == 1u64,
            x >> ((64 - l) as u64) == 0,
            x << ((64 - t) as u64) == 0,
    ;
}

/// `1 << k` is `2^k` for every shift a `u64` allows.
proof fn lemma_shl_one_is_pow2(k: u64)
    requires
        k < 64,
    ensures
        (1u64 << k) as nat == pow2(k as nat),
{
    lemma_u64_pow2_no_overflow(k as nat);
    lemma_u64_shl_is_mul(1u64, k);
}

/// `63 - leading_zeros(x)` is the base-2 logarithm of a nonzero `x`, rounded down.
proof fn lemma_leading_zeros_log2(x: u64)
    requires
        x > 0,
    ensures
        u64_leading_zeros(x) <= 63,
        pow2((63 - u64_leading_zeros(x)) as nat) <= x,
        (x as nat) < pow2((64 - u64_leading_zeros(x)) as nat),
    decreases x,
{
    axiom_u64_leading_zeros(x);
    reveal(u64_leading_zeros);
    if x == 1 {
        assert(u64_leading_zeros(0) == 64);
        assert(u64_leading_zeros(1) == 63);
        lemma2_to64();
    } else {
        let h = x / 2;
        lemma_leading_zeros_log2(h);
        let rh = (63 - u64_leading_zeros(h)) as nat;
        assert(u64_leading_zeros(x) == u64_leading_zeros(h) - 1);
        lemma_pow2_unfold(rh + 1);
        lemma_pow2_unfold(rh + 2);
    }
}

/// The base-2 logarithm of `x`, rounded down, from its leading zeros.
fn floor_log2(x: u64) -> (r: u32)
    requires
        x > 0,
    ensures
        pow2(r as nat) <= x,
        (x as nat) < pow2(r as nat + 1),
{
    let lz = x.leading_zeros();
    proof {
        lemma_leading_zeros_log2(x);
    }
    63 - lz
}

/// A timeout in the unit the I2C timeout register takes.
#[derive(Clone, Copy, Debug, PartialEq, Eq, Structural)]
pub struct APBTickType(i32);

impl View for APBTickType {
    type V = i32;

    closed spec fn view(&self) -> i32 {
        self.0
    }
}

impl APBTickType {
    /// The register value.
    pub fn value(&self) -> (r: i32)
        ensures
            r == self@,
    {
        self.0
    }

    /// Timeout for the ESP32 and ESP32-S2: the duration of `nanos` nanoseconds
    /// in APB clock ticks, rounded up and taken as a C `int`.
    pub fn from_apb_nanos(nanos: u128, apb_tick_period_ns: u32) -> (r: APBTickType)
        requires
            apb_tick_period_ns > 0,
            nanos <= max_duration_nanos(),
        ensures
            r@ == apb_ticks(nanos as nat, apb_tick_period_ns as nat) as i32,
            apb_ticks(nanos as nat, apb_tick_period_ns as nat) <= i32::MAX ==> r@ == apb_ticks(
                nanos as nat,
                apb_tick_period_ns as nat,
            ),
            apb_ticks(nanos as nat, apb_tick_period_ns as nat) <= i32::MAX ==> r@ >= 0 && nanos <= r@
                * apb_tick_period_ns && (r@ == 0 || (r@ - 1) * apb_tick_period_ns < nanos),
    {
        let period = apb_tick_period_ns as u128;
        let ticks = (nanos + period - 1) / period;
        proof {
            let p = apb_tick_period_ns as int;
            let n = nanos as int;
            let t = ticks as int;
            assert(n <= t * p && (t == 0 || (t - 1) * p < n)) by (nonlinear_arith)
                requires
                    p > 0,
                    n >= 0,
                    t == (n + p - 1) / p,
            ;
        }
        APBTickType(ticks as i32)
    }

    /// Timeout for the newer chips: the duration of `nanos` nanoseconds in
    /// cycles of a crystal whose tick lasts `xtal_tick_period_ns`, rounded up
    /// to the next power of two and encoded as its exponent, so that the
    /// timeout is never shorter than asked; a duration of at most one tick
    /// gives 0, and one beyond `2^22` cycles gives 32.
    pub fn from_xtal_nanos(nanos: u128, xtal_tick_period_ns: u32) -> (r: APBTickType)
        requires
            xtal_tick_period_ns > 0,
            nanos <= max_duration_nanos(),
        ensures
            r@ == xtal_register(xtal_cycles(nanos, xtal_tick_period_ns)),
            r@ <= MAX_XTAL_TIMEOUT_EXPONENT ==> nanos <= xtal_tick_period_ns * pow2(r@ as nat),
            0 < r@ <= MAX_XTAL_TIMEOUT_EXPONENT ==> xtal_tick_period_ns * pow2((r@ - 1) as nat) < nanos,
            r@ == XTAL_TIMEOUT_OUT_OF_RANGE <==> xtal_cycles(nanos, xtal_tick_period_ns) > pow2(
                MAX_XTAL_TIMEOUT_EXPONENT as nat,
            ),
            r@ == 32 <==> nanos > xtal_tick_period_ns * 0x40_0000,
            r@ == 32 || 0 <= r@ <= 22,
    {
        let period = xtal_tick_period_ns as u128;
        let wide_cycles = (nanos + period - 1) / period;
        let ghost c = xtal_cycles(nanos, xtal_tick_period_ns);
        let ghost p = xtal_tick_period_ns as int;
        let ghost n = nanos as int;
        proof {
            assert(wide_cycles == c);
            assert(n <= p * c && (c >= 1 ==> p * (c - 1) < n)) by (nonlinear_arith)
                requires
                    p > 0,
                    n >= 0,
                    c == (n + p - 1) / p,
            ;
            lemma2_to64();
            lemma_ceil_log2_bounds(if c == 0 { 1 } else { c });
            assert(c > 0x40_0000 <==> n > p * 0x40_0000) by (nonlinear_arith)
                requires
                    p > 0,
                    n >= 0,
                    n <= p * c,
                    c >= 1 ==> p * (c - 1) < n,
            ;
        }
        if wide_cycles <= 1 {
            proof {
                assert(p * c <= p) by (nonlinear_arith)
                    requires
                        p > 0,
                        0 <= c <= 1,
                ;
            }
            return APBTickType(0);
        }
        if wide_cycles > 0xffff_ffff_ffff_ffff {
            proof {
                lemma_u64_pow2_no_overflow(MAX_XTAL_TIMEOUT_EXPONENT as nat);
                if ceil_log2(c) <= MAX_XTAL_TIMEOUT_EXPONENT {
                    lemma_pow2_monotone(ceil_log2(c), MAX_XTAL_TIMEOUT_EXPONENT as nat);
                }
            }
            return APBTickType(XTAL_TIMEOUT_OUT_OF_RANGE);
        }
        let cycles = wide_cycles as u64;
        let log = floor_log2(cycles);
        let lz = cycles.leading_zeros();
        let tz = cycles.trailing_zeros();
        proof {
            axiom_u64_leading_zeros(cycles);
            axiom_u64_trailing_zeros(cycles);
        }
        let not_pow2: u32 = if lz + tz + 1 < 64 {
            1
        } else {
            0
        };
        proof {
            if log >= 64 {
                lemma_pow2_monotone(64, log as nat);
            }
            assert(log < 64);
            lemma_single_bit_zero_counts(cycles, log as u64);
            lemma_shl_one_is_pow2(log as u64);
            if c == pow2(log as nat) {
                assert(not_pow2 == 0);
                if log > 0 {
                    lemma_pow2_strictly_increases((log - 1) as nat, log as nat);
                }
                lemma_ceil_log2_unique(c, log as nat);
            } else {
                if lz + tz == 63 {
                    let t = u64_trailing_zeros(cycles) as u64;
                    lemma_shl_one_is_pow2(t);
                    if t < log {
                        lemma_pow2_monotone(t as nat, log as nat);
                    } else if t > log {
                        lemma_pow2_monotone(log as nat + 1, t as nat);
                    }
                }
                assert(not_pow2 == 1);
                lemma_ceil_log2_unique(c, log as nat + 1);
            }
        }
        let register_value = log + not_pow2;
        proof {
            if register_value > MAX_XTAL_TIMEOUT_EXPONENT {
                lemma_pow2_monotone(MAX_XTAL_TIMEOUT_EXPONENT as nat, (register_value - 1) as nat);
            } else {
                lemma_pow2_monotone(register_value as nat, MAX_XTAL_TIMEOUT_EXPONENT as nat);
                let k = register_value as nat;
                let pk = pow2(k) as int;
                assert(p * c <= p * pk) by (nonlinear_arith)
                    requires
                        p > 0,
                        c <= pk,
                ;
                if k > 0 {
                    let pk1 = pow2((k - 1) as nat) as int;
                    assert(p * pk1 <= p * (c - 1)) by (nonlinear_arith)
                        requires
                            p > 0,
                            pk1 <= c - 1,
                    ;
                }
            }
        }
        if register_value <= MAX_XTAL_TIMEOUT_EXPONENT {
            return APBTickType(register_value as i32);
        }
        APBTickType(XTAL_TIMEOUT_OUT_OF_RANGE)
    }
}

/// The crystal-clock encoding never shortens a timeout as the requested
/// number of cycles grows.
pub proof fn law_xtal_register_monotone(c1: nat, c2: nat)
    requires
        c1 <= c2,
    ensures
        xtal_register(c1) <= xtal_register(c2),
{
    lemma_ceil_log2_monotone(c1, c2);
}

} // verus!
