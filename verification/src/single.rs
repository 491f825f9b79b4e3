//! Single-precision numbers as their bit patterns, and what arithmetic on them comes
//! to where it decides something.

use vstd::arithmetic::power2::*;
use vstd::prelude::*;

verus! {

/// The bit pattern of the single-precision machine epsilon, two to the power -23.
pub const EPSILON_BITS: u32 = 0x3400_0000;

/// The bit pattern of the single-precision positive infinity.
pub const INFINITY_BITS: u32 = 0x7f80_0000;

/// The bit that marks a negative number.
pub const SIGN_BIT: u32 = 0x8000_0000;

/// The largest difference that single precision takes for at most the machine
/// epsilon, counted in the smallest positive number.
const NEAR_STEPS: u128 = 0x4000_0040_0000_0000_0000_0000_0000_0000;

/// A single-precision number, as its bit pattern.
#[derive(Clone, Copy, Debug, PartialEq, Eq, Structural)]
pub struct Single {
    pub bits: u32,
}

impl Single {
    /// The number zero.
    pub open spec fn zero() -> Single {
        Single { bits: 0 }
    }

    /// Whether the number is greater than the machine epsilon. Patterns of
    /// non-negative numbers are ordered as the numbers are; those above infinity
    /// are negative or no number.
    pub open spec fn is_visible(self) -> bool {
        EPSILON_BITS < self.bits <= INFINITY_BITS
    }

    /// Whether the pattern is that of a finite number.
    pub open spec fn is_finite(self) -> bool {
        self.bits % SIGN_BIT < INFINITY_BITS
    }

    /// Whether the number can be a radius: finite and not negative.
    pub open spec fn is_radius(self) -> bool {
        self.bits < INFINITY_BITS
    }

    /// The digits of a finite number, as a whole number.
    pub open spec fn significand(self) -> nat {
        let pattern = self.bits % SIGN_BIT;
        if pattern < 0x80_0000 {
            pattern as nat
        } else {
            (0x80_0000 + pattern % 0x80_0000) as nat
        }
    }

    /// The power of two that a finite number's digits count, from that of the
    /// smallest positive number on, which is -149.
    pub open spec fn scale(self) -> nat {
        let pattern = self.bits % SIGN_BIT;
        if pattern < 0x80_0000 {
            0
        } else {
            (pattern / 0x80_0000 - 1) as nat
        }
    }

    /// A finite number, counted in the smallest positive one.
    pub open spec fn steps(self) -> int {
        let size = self.significand() * pow2(self.scale());
        if self.bits < SIGN_BIT {
            size as int
        } else {
            -size
        }
    }

    /// Whether two numbers are finite and their difference is at most the machine
    /// epsilon, in single precision: a difference of up to half a unit in the last
    /// place above epsilon is rounded to it.
    pub open spec fn is_near(self, other: Single) -> bool {
        let difference = self.steps() - other.steps();
        &&& self.is_finite()
        &&& other.is_finite()
        &&& -(pow2(126) + pow2(102)) <= difference <= pow2(126) + pow2(102)
    }

    /// Whether the number is at least as near to a count of steps as another one,
    /// and has an even significand where both are equally near.
    pub open spec fn is_at_least_as_near(self, other: Single, exact: int) -> bool {
        let error = if self.steps() >= exact {
            self.steps() - exact
        } else {
            exact - self.steps()
        };
        let other_error = if other.steps() >= exact {
            other.steps() - exact
        } else {
            exact - other.steps()
        };
        ||| error < other_error
        ||| self.steps() == other.steps()
        ||| error == other_error && self.significand() % 2 == 0
    }

    /// A whole number in single precision. One that takes more than 24 binary digits
    /// is rounded to the first 24 of them; halfway between two, to the even one. A
    /// carry out of the digits ends up in the exponent, where it belongs.
    pub open spec fn of_whole(value: nat) -> Single {
        let length = binary_digits(value);
        if value == 0 {
            Single::zero()
        } else if length <= 24 {
            Single {
                bits: ((length + 125) * 0x80_0000 + value * pow2((24 - length) as nat)) as u32,
            }
        } else {
            let unit = pow2((length - 24) as nat);
            Single { bits: ((length + 125) * 0x80_0000 + rounded_units(value, unit)) as u32 }
        }
    }

    /// A whole number in single precision.
    pub fn whole(value: u32) -> (number: Single)
        ensures
            number == Single::of_whole(value as nat),
    {
        if value == 0 {
            return Single { bits: 0 };
        }
        proof {
            binary_digits_bound(value as nat);
            lemma2_to64();
            if binary_digits(value as nat) > 33 {
                lemma_pow2_strictly_increases(32, (binary_digits(value as nat) - 1) as nat);
            }
        }
        let mut length: u32 = 0;
        let mut rest: u32 = value;
        while rest > 0
            invariant
                length + binary_digits(rest as nat) == binary_digits(value as nat),
                binary_digits(value as nat) <= 32,
            decreases rest,
        {
            rest = rest / 2;
            length += 1;
        }
        if length <= 24 {
            proof {
                digits_fill_up(value as nat);
                lemma_pow2_pos((24 - length) as nat);
                vstd::bits::lemma_u32_shl_is_mul(value, (24 - length) as u32);
            }
            Single { bits: (length + 125) * 0x80_0000 + (value << (24 - length)) }
        } else {
            let shift: u32 = length - 24;
            proof {
                first_digits_fill_up(value as nat);
                if shift < 8 {
                    lemma_pow2_strictly_increases(shift as nat, 8);
                }
                lemma_pow2_strictly_increases(0, shift as nat);
                vstd::bits::lemma_u32_shl_is_mul(1u32, shift);
                lemma_pow2_unfold(shift as nat);
            }
            let unit: u32 = 1u32 << shift;
            let first: u32 = value / unit;
            let left: u32 = value % unit;
            let up: bool = left > unit / 2 || (left == unit / 2 && first % 2 == 1);
            Single { bits: (length + 125) * 0x80_0000 + first + if up { 1 } else { 0 } }
        }
    }

    /// The sign bit, the significand and the scale of a finite number.
    fn parts(self) -> (parts: (bool, u32, u32))
        requires
            self.is_finite(),
        ensures
            parts.0 == (self.bits >= SIGN_BIT),
            parts.1 == self.significand(),
            parts.2 == self.scale(),
            parts.1 < 0x100_0000,
            parts.2 <= 253,
            parts.2 >= 1 ==> parts.1 >= 0x80_0000,
    {
        let pattern: u32 = self.bits % SIGN_BIT;
        let negative: bool = self.bits >= SIGN_BIT;
        if pattern < 0x80_0000 {
            (negative, pattern, 0)
        } else {
            (negative, 0x80_0000 + pattern % 0x80_0000, pattern / 0x80_0000 - 1)
        }
    }

    /// Whether the difference of the two numbers is at most the machine epsilon, in
    /// single precision.
    pub fn near(self, other: Single) -> (near: bool)
        ensures
            near == self.is_near(other),
    {
        let left: u32 = self.bits % SIGN_BIT;
        let right: u32 = other.bits % SIGN_BIT;
        if left >= INFINITY_BITS || right >= INFINITY_BITS {
            return false;
        }
        let (left_negative, left_digits, left_scale) = self.parts();
        let (right_negative, right_digits, right_scale) = other.parts();
        let opposed: bool = left_negative != right_negative;
        if left >= right {
            sizes_are_near(left_digits, left_scale, right_digits, right_scale, opposed)
        } else {
            sizes_are_near(right_digits, right_scale, left_digits, left_scale, opposed)
        }
    }

    /// Whether the number is greater than the machine epsilon.
    pub fn exceeds_epsilon(self) -> (visible: bool)
        ensures
            visible == self.is_visible(),
    {
        EPSILON_BITS < self.bits && self.bits <= INFINITY_BITS
    }
}

/// How many binary digits a whole number takes.
pub open spec fn binary_digits(value: nat) -> nat
    decreases value,
{
    if value == 0 {
        0
    } else {
        1 + binary_digits(value / 2)
    }
}

/// How many units a whole number is rounded to, halfway to an even one.
pub open spec fn rounded_units(value: nat, unit: nat) -> nat {
    let first = value / unit;
    let left = value % unit;
    if 2 * left > unit || (2 * left == unit && first % 2 == 1) {
        first + 1
    } else {
        first
    }
}

proof fn binary_digits_bound(value: nat)
    requires
        value > 0,
    ensures
        binary_digits(value) >= 1,
        pow2((binary_digits(value) - 1) as nat) <= value < pow2(binary_digits(value)),
    decreases value,
{
    lemma2_to64();
    if value > 1 {
        binary_digits_bound(value / 2);
        lemma_pow2_unfold(binary_digits(value));
        lemma_pow2_unfold((binary_digits(value) - 1) as nat);
    } else {
        assert(binary_digits(0) == 0);
    }
}

/// A number of few digits takes exactly 24 of them where it is scaled up.
proof fn digits_fill_up(value: nat)
    requires
        value > 0,
        binary_digits(value) <= 24,
    ensures
        0x80_0000 <= value * pow2((24 - binary_digits(value)) as nat) < 0x100_0000,
{
    let length = binary_digits(value);
    let factor = pow2((24 - length) as nat);
    binary_digits_bound(value);
    lemma2_to64();
    lemma_pow2_adds(length, (24 - length) as nat);
    lemma_pow2_adds((length - 1) as nat, (24 - length) as nat);
    lemma_pow2_pos((24 - length) as nat);
    assert(pow2((length - 1) as nat) * factor <= value * factor < pow2(length) * factor)
        by (nonlinear_arith)
        requires
            pow2((length - 1) as nat) <= value < pow2(length),
            factor > 0,
    ;
}

/// The first 24 digits of a number of more.
proof fn first_digits_fill_up(value: nat)
    requires
        binary_digits(value) > 24,
    ensures
        ({
            let unit = pow2((binary_digits(value) - 24) as nat);
            &&& unit > 0
            &&& 0x80_0000 <= value / unit < 0x100_0000
            &&& value == value / unit * unit + value % unit
            &&& value % unit < unit
        }),
{
    let length = binary_digits(value);
    let unit = pow2((length - 24) as nat);
    binary_digits_bound(value);
    lemma2_to64();
    lemma_pow2_adds(24, (length - 24) as nat);
    lemma_pow2_adds(23, (length - 24) as nat);
    lemma_pow2_pos((length - 24) as nat);
    vstd::arithmetic::div_mod::lemma_fundamental_div_mod(value as int, unit as int);
    let first = value / unit;
    let left = value % unit;
    assert(0x80_0000 <= first < 0x100_0000) by (nonlinear_arith)
        requires
            0x80_0000 * unit <= value < 0x100_0000 * unit,
            value == unit * first + left,
            0 <= left < unit,
    ;
    assert(unit * first == first * unit) by (nonlinear_arith);
}

proof fn shifted_is_scaled(digits: u32, scale: u32)
    requires
        digits < 0x100_0000,
        scale <= 103,
    ensures
        (digits as u128) << scale == digits * pow2(scale as nat),
        (digits as u128) << scale < 0x8000_0000_0000_0000_0000_0000_0000_0000u128,
    decreases scale,
{
    lemma2_to64();
    let wide: u128 = digits as u128;
    assert(wide << scale < 0x8000_0000_0000_0000_0000_0000_0000_0000u128) by (bit_vector)
        requires
            wide < 0x100_0000,
            scale <= 103,
    ;
    if scale == 0 {
        assert(wide << 0u32 == wide) by (bit_vector);
    } else {
        let less: u32 = (scale - 1) as u32;
        shifted_is_scaled(digits, less);
        assert(wide << scale == 2 * (wide << less)) by (bit_vector)
            requires
                wide < 0x100_0000,
                1 <= scale <= 103,
                less == scale - 1,
        ;
        lemma_pow2_unfold(scale as nat);
        assert(digits * (2 * pow2(less as nat)) == 2 * (digits * pow2(less as nat)))
            by (nonlinear_arith);
    }
}

/// What the machine epsilon comes to, with what is rounded to it.
proof fn epsilon_in_steps()
    ensures
        pow2(126) + pow2(102) == NEAR_STEPS,
        pow2(102) * 0x100_0001 == NEAR_STEPS,
{
    lemma2_to64();
    lemma_pow2_adds(64, 38);
    lemma_pow2_adds(102, 24);
    lemma2_to64_rest();
}

/// A size of a large scale is further than the machine epsilon from zero, and from
/// every size whose scale is three less.
proof fn large_size_is_far(digits: u32, scale: u32, small_digits: u32, small_scale: u32)
    requires
        0x80_0000 <= digits < 0x100_0000,
        small_digits < 0x100_0000,
        104 <= scale,
        small_scale <= scale,
    ensures
        digits * pow2(scale as nat) > NEAR_STEPS,
        small_scale + 3 <= scale ==> digits * pow2(scale as nat) - small_digits * pow2(
            small_scale as nat,
        ) > NEAR_STEPS,
        small_digits * pow2(small_scale as nat) >= 0,
{
    epsilon_in_steps();
    lemma2_to64();
    let unit = pow2(scale as nat);
    lemma_pow2_adds(102, (scale - 102) as nat);
    lemma_pow2_pos(102);
    if scale > 104 {
        lemma_pow2_strictly_increases(2, (scale - 102) as nat);
    }
    assert(unit >= 4 * pow2(102)) by (nonlinear_arith)
        requires
            unit == pow2(102) * pow2((scale - 102) as nat),
            pow2((scale - 102) as nat) >= 4,
            pow2(102) > 0,
    ;
    assert(digits * unit >= 0x80_0000 * unit) by (nonlinear_arith)
        requires
            digits >= 0x80_0000,
            unit >= 0,
    ;
    assert(small_digits * pow2(small_scale as nat) >= 0) by (nonlinear_arith);
    if small_scale + 3 <= scale {
        let small = pow2(small_scale as nat);
        lemma_pow2_adds(3, (scale - 3) as nat);
        if small_scale + 3 < scale {
            lemma_pow2_strictly_increases(small_scale as nat, (scale - 3) as nat);
        }
        assert(small_digits * small <= 0x100_0000 * small) by (nonlinear_arith)
            requires
                small_digits < 0x100_0000,
                small >= 0,
        ;
    }
}

/// The distance of two sizes whose scales are at most two apart.
proof fn close_sizes_are_apart(digits: u32, scale: u32, small_digits: u32, small_scale: u32)
    requires
        small_scale <= scale <= small_scale + 2,
    ensures
        digits * pow2(scale as nat) - small_digits * pow2(small_scale as nat) == (digits * pow2(
            (scale - small_scale) as nat,
        ) - small_digits) * pow2(small_scale as nat),
{
    let unit = pow2(small_scale as nat);
    let factor = pow2((scale - small_scale) as nat);
    lemma_pow2_adds(small_scale as nat, (scale - small_scale) as nat);
    assert(digits * (unit * factor) - small_digits * unit == (digits * factor - small_digits) * unit)
        by (nonlinear_arith);
}

/// How a distance compares with the machine epsilon, in larger units.
proof fn units_apart(apart: u32, rest: u32)
    ensures
        apart * pow2((rest + 102) as nat) <= NEAR_STEPS <==> apart * pow2(rest as nat) <= 0x100_0001,
        apart * pow2((rest + 102) as nat) >= 0,
        rest > 32 ==> (apart * pow2(rest as nat) <= 0x100_0001 <==> apart == 0),
{
    epsilon_in_steps();
    lemma2_to64();
    lemma_pow2_adds(rest as nat, 102);
    lemma_pow2_pos(102);
    let unit = pow2(102);
    let units = apart * pow2(rest as nat);
    assert(apart * pow2((rest + 102) as nat) == units * unit) by (nonlinear_arith)
        requires
            pow2((rest + 102) as nat) == pow2(rest as nat) * unit,
            units == apart * pow2(rest as nat),
    ;
    assert(units >= 0) by (nonlinear_arith)
        requires
            units == apart * pow2(rest as nat),
    ;
    assert(units * unit >= 0 && (units * unit <= unit * 0x100_0001 <==> units <= 0x100_0001))
        by (nonlinear_arith)
        requires
            unit > 0,
            units >= 0,
    ;
    if rest > 32 {
        lemma_pow2_strictly_increases(32, rest as nat);
        if apart > 0 {
            assert(units >= pow2(rest as nat)) by (nonlinear_arith)
                requires
                    units == apart * pow2(rest as nat),
                    apart >= 1,
            ;
        }
    }
}

/// Whether two sizes are at most the machine epsilon apart, or come to at most that
/// together where their signs are opposed. The first is the larger one.
fn sizes_are_near(
    digits: u32,
    scale: u32,
    small_digits: u32,
    small_scale: u32,
    opposed: bool,
) -> (near: bool)
    requires
        digits < 0x100_0000,
        small_digits < 0x100_0000,
        small_scale <= scale <= 253,
        small_scale == scale ==> small_digits <= digits,
        scale >= 1 ==> digits >= 0x80_0000,
    ensures
        near == ({
            let size = digits * pow2(scale as nat);
            let small = small_digits * pow2(small_scale as nat);
            let distance = if opposed {
                size + small
            } else {
                size - small
            };
            -(pow2(126) + pow2(102)) <= distance <= pow2(126) + pow2(102)
        }),
{
    proof {
        epsilon_in_steps();
    }
    if scale <= 103 {
        proof {
            shifted_is_scaled(digits, scale);
            shifted_is_scaled(small_digits, small_scale);
        }
        let size: u128 = (digits as u128) << scale;
        let small: u128 = (small_digits as u128) << small_scale;
        return if opposed {
            size + small <= NEAR_STEPS
        } else if size >= small {
            size - small <= NEAR_STEPS
        } else {
            small - size <= NEAR_STEPS
        };
    }
    let gap: u32 = scale - small_scale;
    proof {
        large_size_is_far(digits, scale, small_digits, small_scale);
    }
    if opposed || gap >= 3 {
        return false;
    }
    proof {
        close_sizes_are_apart(digits, scale, small_digits, small_scale);
        lemma2_to64();
    }
    let factor: u32 = if gap == 0 {
        1
    } else if gap == 1 {
        2
    } else {
        4
    };
    let apart: u32 = digits * factor - small_digits;
    let rest: u32 = small_scale - 102;
    proof {
        units_apart(apart, rest);
    }
    if rest > 32 {
        return apart == 0;
    }
    proof {
        if rest < 32 {
            lemma_pow2_strictly_increases(rest as nat, 32);
        }
        assert(apart * pow2(rest as nat) <= 0x400_0000 * 0x1_0000_0000) by (nonlinear_arith)
            requires
                apart <= 0x400_0000,
                pow2(rest as nat) <= 0x1_0000_0000,
        ;
        vstd::bits::lemma_u64_shl_is_mul(apart as u64, rest as u64);
    }
    ((apart as u64) << (rest as u64)) <= 0x100_0001
}

/// The next pattern is that of the next number.
proof fn next_pattern_is_one_unit_up(bits: u32)
    requires
        bits + 1 < INFINITY_BITS,
    ensures
        (Single { bits: (bits + 1) as u32 }).steps() == (Single { bits }).steps() + pow2(
            (Single { bits }).scale(),
        ),
{
    let number = Single { bits };
    let next = Single { bits: (bits + 1) as u32 };
    lemma2_to64();
    if next.scale() == number.scale() {
        assert(next.significand() == number.significand() + 1);
        let unit = pow2(number.scale());
        assert((number.significand() + 1) * unit == number.significand() * unit + unit)
            by (nonlinear_arith);
    } else {
        assert(next.significand() == 0x80_0000 && number.significand() == 0xff_ffff);
        assert(next.scale() == number.scale() + 1);
        lemma_pow2_unfold(next.scale());
    }
}

/// The patterns of non-negative numbers are ordered as the numbers are.
proof fn patterns_are_ordered(low: u32, high: u32)
    requires
        low <= high < INFINITY_BITS,
    ensures
        0 <= (Single { bits: low }).steps() <= (Single { bits: high }).steps(),
    decreases high - low,
{
    if low < high {
        patterns_are_ordered(low, (high - 1) as u32);
        next_pattern_is_one_unit_up((high - 1) as u32);
    } else {
        assert((Single { bits: low }).steps() >= 0) by (nonlinear_arith)
            requires
                (Single { bits: low }).steps() == (Single { bits: low }).significand() * pow2(
                    (Single { bits: low }).scale(),
                ),
        ;
    }
}

/// No number lies between two neighbours.
proof fn neighbours_have_nothing_between(bits: u32, other: Single)
    requires
        bits + 1 < INFINITY_BITS,
        other.is_finite(),
    ensures
        other.steps() <= (Single { bits }).steps() || other.steps() >= (Single {
            bits: (bits + 1) as u32,
        }).steps(),
{
    patterns_are_ordered(bits, bits);
    if other.bits < SIGN_BIT {
        if other.bits <= bits {
            patterns_are_ordered(other.bits, bits);
        } else {
            patterns_are_ordered((bits + 1) as u32, other.bits);
        }
    } else {
        assert(other.significand() * pow2(other.scale()) >= 0) by (nonlinear_arith);
    }
}

/// The number in a pattern whose digits are all in use.
proof fn pattern_holds_its_digits(length: nat, digits: nat)
    requires
        1 <= length <= 32,
        0x80_0000 <= digits < 0x100_0000,
    ensures
        (Single { bits: ((length + 125) * 0x80_0000 + digits) as u32 }).steps() == digits * pow2(
            length + 125,
        ),
        (Single { bits: ((length + 125) * 0x80_0000 + digits) as u32 }).scale() == length + 125,
        (Single { bits: ((length + 125) * 0x80_0000 + digits) as u32 }).significand() == digits,
{
}

/// A whole number is rounded to the single-precision number nearest to it, and to
/// one with an even significand where two are equally near.
pub proof fn whole_numbers_are_rounded_to_nearest(value: u32, other: Single)
    requires
        other.is_finite(),
    ensures
        Single::of_whole(value as nat).is_finite(),
        Single::of_whole(value as nat).bits < SIGN_BIT,
        Single::of_whole(value as nat).is_at_least_as_near(other, value * pow2(149)),
{
    let length = binary_digits(value as nat);
    lemma2_to64();
    if value == 0 {
        let zero = Single::zero();
        assert(zero.significand() * pow2(zero.scale()) == 0 && value * pow2(149) == 0)
            by (nonlinear_arith)
            requires
                zero.significand() == 0,
                value == 0,
        ;
    } else {
        binary_digits_bound(value as nat);
        if length > 33 {
            lemma_pow2_strictly_increases(32, (length - 1) as nat);
        }
        if length <= 24 {
            let digits = value as nat * pow2((24 - length) as nat);
            digits_fill_up(value as nat);
            pattern_holds_its_digits(length, digits);
            lemma_pow2_adds((24 - length) as nat, length + 125);
            assert(digits * pow2(length + 125) == value * pow2(149)) by (nonlinear_arith)
                requires
                    digits == value as nat * pow2((24 - length) as nat),
                    pow2(149) == pow2((24 - length) as nat) * pow2(length + 125),
            ;
        } else {
            rounded_whole_number_is_nearest(value, other);
        }
    }
}

proof fn rounded_whole_number_is_nearest(value: u32, other: Single)
    requires
        24 < binary_digits(value as nat) <= 32,
        other.is_finite(),
    ensures
        Single::of_whole(value as nat).is_finite(),
        Single::of_whole(value as nat).bits < SIGN_BIT,
        Single::of_whole(value as nat).is_at_least_as_near(other, value * pow2(149)),
{
    let length = binary_digits(value as nat);
    let unit = pow2((length - 24) as nat);
    let step = pow2(149);
    first_digits_fill_up(value as nat);
    let first = value as nat / unit;
    let left = value as nat % unit;
    let bits = ((length + 125) * 0x80_0000 + first) as u32;
    pattern_holds_its_digits(length, first);
    next_pattern_is_one_unit_up(bits);
    neighbours_have_nothing_between(bits, other);
    lemma_pow2_adds((length - 24) as nat, 149);
    lemma_pow2_pos(149);
    let low = (Single { bits }).steps();
    let exact = value * step;
    assert(low == first * (unit * step));
    assert(exact - low == left * step) by (nonlinear_arith)
        requires
            exact == value * step,
            low == first * (unit * step),
            value == first * unit + left,
    ;
    assert((2 * left > unit ==> 2 * (left * step) > unit * step) && (2 * left < unit ==> 2 * (left
        * step) < unit * step) && (2 * left == unit ==> 2 * (left * step) == unit * step) && 0
        <= left * step < unit * step) by (nonlinear_arith)
        requires
            0 <= left < unit,
            step > 0,
    ;
}

/// A whole number of at least one is told apart from zero, either way round.
pub proof fn whole_radius_is_not_near_zero(value: u32)
    requires
        value >= 1,
    ensures
        !Single::of_whole(value as nat).is_near(Single::zero()),
        !Single::zero().is_near(Single::of_whole(value as nat)),
{
    let number = Single::of_whole(value as nat);
    let one = Single { bits: 0x3f80_0000 };
    lemma2_to64();
    whole_numbers_are_rounded_to_nearest(value, one);
    assert(one.significand() == 0x80_0000 && one.scale() == 126);
    lemma_pow2_adds(23, 126);
    assert(one.steps() == pow2(149));
    assert(number.steps() >= pow2(149)) by {
        assert(value * pow2(149) >= pow2(149)) by (nonlinear_arith)
            requires
                value >= 1,
        ;
    }
    let zero = Single::zero();
    assert(zero.significand() * pow2(zero.scale()) == 0) by (nonlinear_arith)
        requires
            zero.significand() == 0,
    ;
    lemma_pow2_strictly_increases(126, 149);
    lemma_pow2_strictly_increases(102, 126);
    lemma_pow2_strictly_increases(127, 149);
    lemma_pow2_unfold(127);
}

/// A number that is finite and not negative is greater than the machine epsilon exactly
/// where it is told apart from zero.
pub proof fn visible_radius_is_not_near_zero(radius: Single, visible: bool, gone: bool)
    requires
        radius.bits < INFINITY_BITS,
        call_ensures(Single::exceeds_epsilon, (radius,), visible),
        call_ensures(Single::near, (radius, (Single { bits: 0 })), gone),
    ensures
        visible == !gone,
{
    let zero = Single { bits: 0 };
    let epsilon = Single { bits: EPSILON_BITS };
    lemma2_to64();
    epsilon_in_steps();
    assert(zero.significand() * pow2(zero.scale()) == 0) by (nonlinear_arith)
        requires
            zero.significand() == 0,
    ;
    assert(epsilon.significand() == 0x80_0000 && epsilon.scale() == 103);
    lemma_pow2_adds(23, 103);
    assert(epsilon.steps() == pow2(126));
    lemma_pow2_pos(102);
    if radius.bits <= EPSILON_BITS {
        patterns_are_ordered(radius.bits, EPSILON_BITS);
    } else {
        next_pattern_is_one_unit_up(EPSILON_BITS);
        patterns_are_ordered((EPSILON_BITS + 1) as u32, radius.bits);
        lemma_pow2_unfold(103);
    }
}

/// Whether two numbers are told apart does not depend on their order, and a finite number
/// is not told apart from itself; one that is not finite is, from every one.
pub proof fn nearness_goes_both_ways(left: Single, right: Single, near: bool, back: bool, own: bool)
    requires
        call_ensures(Single::near, (left, right), near),
        call_ensures(Single::near, (right, left), back),
        call_ensures(Single::near, (left, left), own),
    ensures
        near == back,
        own <==> left.bits < INFINITY_BITS || SIGN_BIT <= left.bits < SIGN_BIT + INFINITY_BITS,
        near ==> own,
{
    lemma_pow2_pos(126);
    lemma_pow2_pos(102);
}

/// A whole number comes out as the single-precision number nearest to it, and zero as
/// zero.
pub proof fn whole_numbers_come_out_nearest(value: u32, number: Single, other: Single)
    requires
        call_ensures(Single::whole, (value,), number),
        other.is_finite(),
    ensures
        number.bits < INFINITY_BITS,
        value == 0 <==> number.bits == 0,
        number.is_at_least_as_near(other, value * pow2(149)),
{
    whole_numbers_are_rounded_to_nearest(value, other);
    if value >= 1 {
        whole_radius_is_not_near_zero(value);
        lemma_pow2_pos(126);
        lemma_pow2_pos(102);
    }
}

} // verus!
