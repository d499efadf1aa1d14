//! Readings in percent, and the colours that they call for.
//!
//! A reading arrives as the bits of an IEEE 754 single precision number.
use vstd::arithmetic::power2::{lemma_pow2_adds, lemma_pow2_pos, lemma_pow2_strictly_increases, pow2};
use vstd::prelude::*;

use crate::color::Color;
use crate::theme::Theme;

verus! {

/// A reading in percent.
#[derive(Debug)]
pub struct Gauge {
    /// The number, as the bits of an IEEE 754 single precision number.
    pub bits: u32,
    /// The number as it is shown.
    pub text: String,
}

/// The model of `Gauge`.
pub struct GaugeState {
    pub bits: u32,
    pub text: Seq<char>,
}

impl View for Gauge {
    type V = GaugeState;

    open spec fn view(&self) -> GaugeState {
        GaugeState { bits: self.bits, text: self.text@ }
    }
}

/// The exponent field of a single precision number.
pub open spec fn exponent(bits: u32) -> nat {
    ((bits / 0x80_0000) % 0x100) as nat
}

/// The fraction field of a single precision number.
pub open spec fn fraction(bits: u32) -> nat {
    (bits % 0x80_0000) as nat
}

/// Whether the bits stand for no number.
pub open spec fn is_nan(bits: u32) -> bool {
    exponent(bits) == 255 && fraction(bits) != 0
}

/// The significand, with the leading one that only normal numbers have.
pub open spec fn significand(bits: u32) -> nat {
    if exponent(bits) == 0 {
        fraction(bits)
    } else {
        0x80_0000 + fraction(bits)
    }
}

/// The size of a number, in units of the smallest number above zero, two to the power of -149.
/// An infinity counts as two to the power of 128, which is more than any finite number.
pub open spec fn magnitude(bits: u32) -> nat {
    if exponent(bits) == 0 {
        significand(bits)
    } else {
        significand(bits) * pow2((exponent(bits) - 1) as nat)
    }
}

/// The number, in the same units.
pub open spec fn value(bits: u32) -> int {
    if bits >= 0x8000_0000 {
        -magnitude(bits)
    } else {
        magnitude(bits) as int
    }
}

/// The whole number `n` in the units of `value`.
pub open spec fn whole(n: int) -> int {
    n * pow2(149)
}

proof fn lemma_magnitude_against_whole(bits: u32, bound: nat)
    requires
        1 <= bound <= 255,
    ensures
        exponent(bits) < 127 ==> magnitude(bits) <= whole(bound as int),
        exponent(bits) >= 135 ==> magnitude(bits) > whole(bound as int),
        127 <= exponent(bits) < 135 ==> (magnitude(bits) <= whole(bound as int)
            <==> significand(bits) <= bound * pow2((150 - exponent(bits)) as nat)),
{
    let e = exponent(bits);
    let m = significand(bits);
    lemma_pow2_pos(149);
    if e < 127 {
        lemma_pow2_adds(24, 125);
        assert(pow2(24) == 0x100_0000) by {
            vstd::arithmetic::power2::lemma2_to64();
        }
        if e == 0 {
            lemma_pow2_pos(125);
            assert(m <= pow2(24) * pow2(125)) by (nonlinear_arith)
                requires
                    m <= pow2(24),
                    pow2(125) >= 1,
            ;
        } else {
            if e - 1 < 125 {
                lemma_pow2_strictly_increases((e - 1) as nat, 125);
            }
            assert(m * pow2((e - 1) as nat) <= pow2(24) * pow2(125)) by (nonlinear_arith)
                requires
                    m <= pow2(24),
                    pow2((e - 1) as nat) <= pow2(125),
            ;
        }
        assert(pow2(149) <= bound * pow2(149)) by (nonlinear_arith)
            requires
                bound >= 1,
        ;
    } else if e >= 135 {
        lemma_pow2_adds(23, (e - 1) as nat);
        lemma_pow2_adds(8, 149);
        assert(pow2(23) == 0x80_0000 && pow2(8) == 256) by {
            vstd::arithmetic::power2::lemma2_to64();
        }
        if 157 < 23 + (e - 1) {
            lemma_pow2_strictly_increases(157, (23 + (e - 1)) as nat);
        }
        let p = pow2((e - 1) as nat);
        assert(pow2(23) * p <= m * p) by (nonlinear_arith)
            requires
                m >= pow2(23),
        ;
        assert(bound * pow2(149) < pow2(8) * pow2(149)) by (nonlinear_arith)
            requires
                bound < pow2(8),
                pow2(149) >= 1,
        ;
    } else {
        let p = pow2((e - 1) as nat);
        let q = pow2((150 - e) as nat);
        lemma_pow2_adds((150 - e) as nat, (e - 1) as nat);
        lemma_pow2_pos((e - 1) as nat);
        assert(bound * (q * p) == (bound * q) * p) by (nonlinear_arith);
        assert(m * p <= (bound * q) * p <==> m <= bound * q) by (nonlinear_arith)
            requires
                p >= 1,
        ;
    }
}

/// Whether the bits stand for a number that is at most `bound`.
pub fn at_most(bits: u32, bound: u32) -> (result: bool)
    requires
        1 <= bound <= 255,
    ensures
        result <==> !is_nan(bits) && value(bits) <= whole(bound as int),
{
    let e: u32 = (bits / 0x80_0000) % 0x100;
    let f: u32 = bits % 0x80_0000;
    proof {
        lemma_magnitude_against_whole(bits, bound as nat);
        lemma_pow2_pos(149);
        assert(whole(bound as int) >= 0) by (nonlinear_arith)
            requires
                whole(bound as int) == bound * pow2(149),
                pow2(149) >= 0,
        ;
    }
    if e == 255 && f != 0 {
        false
    } else if bits >= 0x8000_0000 {
        true
    } else if e < 127 {
        true
    } else if e >= 135 {
        false
    } else {
        let m: u32 = 0x80_0000 + f;
        let shift: u32 = 150 - e;
        proof {
            vstd::arithmetic::power2::lemma2_to64();
            lemma_shift(bound, shift);
        }
        m <= bound << shift
    }
}

proof fn lemma_shift(bound: u32, shift: u32)
    requires
        bound <= 255,
        15 < shift <= 23,
    ensures
        bound << shift == bound * pow2(shift as nat),
{
    vstd::arithmetic::power2::lemma2_to64();
    assert(bound * pow2(shift as nat) <= 255 * 0x80_0000) by {
        if shift < 23 {
            lemma_pow2_strictly_increases(shift as nat, 23);
        }
        assert(bound * pow2(shift as nat) <= 255 * 0x80_0000) by (nonlinear_arith)
            requires
                bound <= 255,
                pow2(shift as nat) <= 0x80_0000,
        ;
    }
    vstd::bits::lemma_u32_shl_is_mul(bound, shift);
}

/// Whether the bits stand for a number that is more than `bound`.
pub fn above(bits: u32, bound: u32) -> (result: bool)
    requires
        1 <= bound <= 255,
    ensures
        result <==> !is_nan(bits) && value(bits) > whole(bound as int),
{
    let e: u32 = (bits / 0x80_0000) % 0x100;
    let f: u32 = bits % 0x80_0000;
    !(e == 255 && f != 0) && !at_most(bits, bound)
}

/// How heavy a load is: up to 30 percent, up to 60, up to 80, or beyond. What is no number
/// counts as the heaviest.
pub open spec fn usage_band(bits: u32) -> int {
    if !is_nan(bits) && value(bits) <= whole(30) {
        0
    } else if !is_nan(bits) && value(bits) <= whole(60) {
        1
    } else if !is_nan(bits) && value(bits) <= whole(80) {
        2
    } else {
        3
    }
}

/// The colour that a theme has for a load.
pub open spec fn usage_accent(theme: Theme, bits: u32) -> Color {
    let band = usage_band(bits);
    if band == 0 {
        theme.green
    } else if band == 1 {
        theme.yellow
    } else if band == 2 {
        theme.orange
    } else {
        theme.red
    }
}

/// How low a battery is: more than 50 percent, more than 20, or less. What is no number
/// counts as the lowest.
pub open spec fn battery_band(bits: u32) -> int {
    if !is_nan(bits) && value(bits) > whole(50) {
        0
    } else if !is_nan(bits) && value(bits) > whole(20) {
        1
    } else {
        2
    }
}

/// The colour that a theme has for a battery charge.
pub open spec fn battery_accent(theme: Theme, bits: u32) -> Color {
    let band = battery_band(bits);
    if band == 0 {
        theme.green
    } else if band == 1 {
        theme.yellow
    } else {
        theme.red
    }
}

/// The colour of a load of the processor or the memory.
pub fn usage_color(theme: &Theme, usage: u32) -> (color: Color)
    ensures
        color == usage_accent(*theme, usage),
{
    if at_most(usage, 30) {
        theme.green
    } else if at_most(usage, 60) {
        theme.yellow
    } else if at_most(usage, 80) {
        theme.orange
    } else {
        theme.red
    }
}

/// The colour of a battery charge.
pub fn battery_color(theme: &Theme, charge: u32) -> (color: Color)
    ensures
        color == battery_accent(*theme, charge),
{
    if above(charge, 50) {
        theme.green
    } else if above(charge, 20) {
        theme.yellow
    } else {
        theme.red
    }
}

/// A greater load never gets the colour of a lighter one.
pub proof fn law_usage_band_grows(less: u32, more: u32)
    requires
        !is_nan(less),
        is_nan(more) || value(less) <= value(more),
    ensures
        usage_band(less) <= usage_band(more),
{
}

/// A fuller battery never gets the colour of an emptier one.
pub proof fn law_battery_band_falls(less: u32, more: u32)
    requires
        !is_nan(more),
        is_nan(less) || value(less) <= value(more),
    ensures
        battery_band(more) <= battery_band(less),
{
}

proof fn lemma_value_grows(less: u32, more: u32)
    requires
        less < more < 0x8000_0000,
    ensures
        value(less) < value(more),
{
    let (e, f) = (exponent(less), significand(less));
    let (g, h) = (exponent(more), significand(more));
    vstd::arithmetic::power2::lemma2_to64();
    if e == g {
        if e > 0 {
            let p = pow2((e - 1) as nat);
            lemma_pow2_pos((e - 1) as nat);
            assert(f * p < h * p) by (nonlinear_arith)
                requires
                    f < h,
                    p >= 1,
            ;
        }
    } else {
        let q = pow2((g - 1) as nat);
        lemma_pow2_pos((g - 1) as nat);
        assert(0x80_0000 * q <= h * q) by (nonlinear_arith)
            requires
                h >= 0x80_0000,
        ;
        if e > 0 {
            let p = pow2((e - 1) as nat);
            lemma_pow2_pos((e - 1) as nat);
            lemma_pow2_adds(1, (e - 1) as nat);
            if e < g - 1 {
                lemma_pow2_strictly_increases(e, (g - 1) as nat);
            }
            assert(f * p < 0x100_0000 * p) by (nonlinear_arith)
                requires
                    f < 0x100_0000,
                    p >= 1,
            ;
        }
    }
}

proof fn lemma_value_is_whole(bits: u32, n: int, shift: nat)
    requires
        0 < exponent(bits),
        bits < 0x8000_0000,
        significand(bits) == n * pow2(shift),
        exponent(bits) - 1 + shift == 149,
    ensures
        value(bits) == whole(n),
{
    let p = pow2((exponent(bits) - 1) as nat);
    lemma_pow2_adds(shift, (exponent(bits) - 1) as nat);
    assert((n * pow2(shift)) * p == n * (pow2(shift) * p)) by (nonlinear_arith);
}

/// What the bits of a number stand for. From zero up to twice the smallest normal number they count
/// the units. Adding one to the exponent of a normal number doubles it. The uppermost bit turns a
/// number into its opposite.
pub proof fn law_value_reads_the_bits(bits: u32)
    ensures
        bits <= 0x100_0000 ==> value(bits) == bits,
        0x80_0000 <= bits < 0x7F80_0000 ==> value((bits + 0x80_0000) as u32) == 2 * value(bits),
        bits < 0x8000_0000 ==> value((bits + 0x8000_0000) as u32) == -value(bits),
{
    vstd::arithmetic::power2::lemma2_to64();
    if 0x80_0000 <= bits < 0x100_0000 {
        assert(exponent(bits) == 1 && significand(bits) == bits);
        assert(significand(bits) * 1 == significand(bits));
    } else if bits == 0x100_0000 {
        assert(exponent(bits) == 2 && significand(bits) == 0x80_0000);
    }
    if 0x80_0000 <= bits < 0x7F80_0000 {
        let e = exponent(bits);
        let m = significand(bits);
        let p = pow2((e - 1) as nat);
        let next = (bits + 0x80_0000) as u32;
        assert(exponent(next) == e + 1);
        assert(significand(next) == m);
        lemma_pow2_adds(1, (e - 1) as nat);
        assert(m * (2 * p) == 2 * (m * p)) by (nonlinear_arith);
    }
    if bits < 0x8000_0000 {
        let opposite = (bits + 0x8000_0000) as u32;
        assert(exponent(opposite) == exponent(bits));
        assert(fraction(opposite) == fraction(bits));
    }
}

/// The order of numbers above zero is that of their bits, and no number at all are just the bits
/// beyond those of an infinity, whatever their sign.
pub proof fn law_numbers_are_ordered_as_their_bits(less: u32, more: u32)
    requires
        less < more < 0x8000_0000,
    ensures
        value(less) < value(more),
        is_nan(more) <==> more > 0x7F80_0000,
        is_nan((more + 0x8000_0000) as u32) <==> more > 0x7F80_0000,
        !is_nan(0),
        !is_nan(0x8000_0000),
{
    lemma_value_grows(less, more);
}

/// Whole numbers are multiples of the number one, whose bits are `0x3F80_0000`.
pub proof fn law_whole_numbers_are_multiples_of_one(n: int)
    ensures
        whole(0) == 0,
        whole(1) == value(0x3F80_0000),
        whole(n + 1) == whole(n) + whole(1),
{
    vstd::arithmetic::power2::lemma2_to64();
    lemma_value_is_whole(0x3F80_0000, 1, 23);
    assert((n + 1) * pow2(149) == n * pow2(149) + pow2(149)) by (nonlinear_arith);
    assert(0 * pow2(149) == 0) by (nonlinear_arith);
}

proof fn lemma_value_by_bits(bits: u32, bound: u32, n: int)
    requires
        0 < n,
        bound < 0x8000_0000,
        value(bound) == whole(n),
    ensures
        bits < 0x8000_0000 ==> (value(bits) <= whole(n) <==> bits <= bound),
        bits >= 0x8000_0000 ==> value(bits) <= whole(n),
{
    if bits < bound {
        lemma_value_grows(bits, bound);
    } else if bound < bits < 0x8000_0000 {
        lemma_value_grows(bound, bits);
    }
    lemma_pow2_pos(149);
    assert(n * pow2(149) >= 0) by (nonlinear_arith)
        requires
            n > 0,
            pow2(149) >= 0,
    ;
}

/// The colour of a load by the bits of the reading, among which `0x41F0_0000`, `0x4270_0000` and
/// `0x42A0_0000` are those of 30, 60 and 80: green up to the first, also below zero, yellow up to
/// the second, orange up to the third, and red beyond it and for what is no number.
pub proof fn law_usage_color_by_bits(theme: Theme, bits: u32)
    ensures
        bits <= 0x41F0_0000 ==> usage_accent(theme, bits) == theme.green,
        0x41F0_0000 < bits <= 0x4270_0000 ==> usage_accent(theme, bits) == theme.yellow,
        0x4270_0000 < bits <= 0x42A0_0000 ==> usage_accent(theme, bits) == theme.orange,
        0x42A0_0000 < bits < 0x8000_0000 ==> usage_accent(theme, bits) == theme.red,
        0x8000_0000 <= bits <= 0xFF80_0000 ==> usage_accent(theme, bits) == theme.green,
        0xFF80_0000 < bits ==> usage_accent(theme, bits) == theme.red,
{
    vstd::arithmetic::power2::lemma2_to64();
    lemma_value_is_whole(0x41F0_0000, 30, 19);
    lemma_value_is_whole(0x4270_0000, 60, 18);
    lemma_value_is_whole(0x42A0_0000, 80, 17);
    lemma_value_by_bits(bits, 0x41F0_0000, 30);
    lemma_value_by_bits(bits, 0x4270_0000, 60);
    lemma_value_by_bits(bits, 0x42A0_0000, 80);
}

/// The colour of a battery by the bits of the reading, among which `0x41A0_0000` and `0x4248_0000`
/// are those of 20 and 50: red up to the first, below zero and for what is no number, yellow up to
/// the second, and green beyond it.
pub proof fn law_battery_color_by_bits(theme: Theme, bits: u32)
    ensures
        bits <= 0x41A0_0000 ==> battery_accent(theme, bits) == theme.red,
        0x41A0_0000 < bits <= 0x4248_0000 ==> battery_accent(theme, bits) == theme.yellow,
        0x4248_0000 < bits <= 0x7F80_0000 ==> battery_accent(theme, bits) == theme.green,
        0x7F80_0000 < bits ==> battery_accent(theme, bits) == theme.red,
{
    vstd::arithmetic::power2::lemma2_to64();
    lemma_value_is_whole(0x41A0_0000, 20, 19);
    lemma_value_is_whole(0x4248_0000, 50, 18);
    lemma_value_by_bits(bits, 0x41A0_0000, 20);
    lemma_value_by_bits(bits, 0x4248_0000, 50);
}

/// The model of a reading has the bits and the text of it.
pub proof fn law_gauge_shows_its_fields(gauge: Gauge)
    ensures
        gauge@.bits == gauge.bits,
        gauge@.text == gauge.text@,
{
}

} // verus!
