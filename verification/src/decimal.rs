//! Fixed-point decimal numbers, carried as the mantissa and scale that
//! `rust_decimal::Decimal` holds; arithmetic is done by `rust_decimal`.
use vstd::prelude::*;

use rust_decimal::Decimal;

verus! {

/// Largest magnitude of a mantissa: 2^96 - 1.
pub const MAX_MANTISSA: i128 = 79228162514264337593543950335i128;

/// Largest scale (number of fractional digits).
pub const MAX_SCALE: u32 = 28;

/// `10^n`.
pub open spec fn pow10(n: nat) -> int
    decreases n,
{
    if n == 0 {
        1
    } else {
        10 * pow10((n - 1) as nat)
    }
}

pub open spec fn abs(x: int) -> int {
    if x < 0 {
        -x
    } else {
        x
    }
}

/// A decimal number as plain values: `mantissa / 10^scale`.
pub struct DecView {
    pub mantissa: int,
    pub scale: nat,
}

/// Whether `d` is a value that `rust_decimal::Decimal` can hold.
pub open spec fn dec_wf(d: DecView) -> bool {
    &&& abs(d.mantissa) <= MAX_MANTISSA
    &&& d.scale <= MAX_SCALE
}

/// The sign of `value(a) - value(b)`: -1, 0 or 1.
pub open spec fn value_order(a: DecView, b: DecView) -> int {
    let x = a.mantissa * pow10(b.scale);
    let y = b.mantissa * pow10(a.scale);
    if x < y {
        -1
    } else if x == y {
        0
    } else {
        1
    }
}

/// `round_dp(dp)` of `rust_decimal`: round to `dp` fractional digits, half to even,
/// leaving numbers with at most `dp` fractional digits as they are.
pub open spec fn round_dp_view(d: DecView, dp: nat) -> DecView {
    if d.scale <= dp {
        d
    } else {
        let p = pow10((d.scale - dp) as nat);
        let mag = abs(d.mantissa);
        let q = mag / p;
        let r = mag % p;
        let q2 = if r > p / 2 || (r == p / 2 && q % 2 == 1) {
            q + 1
        } else {
            q
        };
        DecView { mantissa: if d.mantissa < 0 { -q2 } else { q2 }, scale: dp }
    }
}

/// Whether the exact product of two nonzero decimals fits a `Decimal` unrounded.
pub open spec fn product_fits(a: DecView, b: DecView) -> bool {
    &&& a.mantissa != 0
    &&& b.mantissa != 0
    &&& abs(a.mantissa * b.mantissa) <= MAX_MANTISSA
    &&& a.scale + b.scale <= MAX_SCALE
}

/// The exact product of two decimals.
pub open spec fn exact_product(a: DecView, b: DecView) -> DecView {
    DecView { mantissa: a.mantissa * b.mantissa, scale: a.scale + b.scale }
}

/// The larger of the two scales.
pub open spec fn common_scale(a: DecView, b: DecView) -> nat {
    if a.scale >= b.scale {
        a.scale
    } else {
        b.scale
    }
}

/// The mantissa of `d` written at scale `s` (not below `d.scale`).
pub open spec fn mantissa_at(d: DecView, s: nat) -> int {
    d.mantissa * pow10((s - d.scale) as nat)
}

/// The exact sum of two decimals, at the larger of their scales.
pub open spec fn exact_sum(a: DecView, b: DecView) -> DecView {
    let s = common_scale(a, b);
    DecView { mantissa: mantissa_at(a, s) + mantissa_at(b, s), scale: s }
}

/// Whether two nonzero decimals, written at their common scale, and their exact sum
/// all fit a `Decimal` mantissa.
pub open spec fn sum_fits(a: DecView, b: DecView) -> bool {
    let s = common_scale(a, b);
    &&& a.mantissa != 0
    &&& b.mantissa != 0
    &&& abs(mantissa_at(a, s)) <= MAX_MANTISSA
    &&& abs(mantissa_at(b, s)) <= MAX_MANTISSA
    &&& abs(exact_sum(a, b).mantissa) <= MAX_MANTISSA
}

/// `d` with its sign flipped.
pub open spec fn negated(d: DecView) -> DecView {
    DecView { mantissa: -d.mantissa, scale: d.scale }
}

/// What `Decimal::checked_add` returns.
pub uninterp spec fn decimal_sum(a: DecView, b: DecView) -> Option<DecView>;

/// What `Decimal::checked_sub` returns.
pub uninterp spec fn decimal_difference(a: DecView, b: DecView) -> Option<DecView>;

/// What `Decimal::checked_mul` returns.
pub uninterp spec fn decimal_product(a: DecView, b: DecView) -> Option<DecView>;

/// What `Decimal::checked_div` returns.
pub uninterp spec fn decimal_quotient(a: DecView, b: DecView) -> Option<DecView>;

/// A decimal number: `mantissa / 10^scale`, as `rust_decimal::Decimal` holds it.
#[derive(Clone, Copy, Debug)]
pub struct Dec {
    mantissa: i128,
    scale: u32,
}

/// The result of comparing two decimal numbers by value.
#[derive(PartialEq, Eq, Structural, Clone, Copy, Debug)]
pub enum DecOrder {
    Less,
    Equal,
    Greater,
}

impl View for Dec {
    type V = DecView;

    closed spec fn view(&self) -> DecView {
        DecView { mantissa: self.mantissa as int, scale: self.scale as nat }
    }
}

impl Dec {
    /// Every decimal is one that `rust_decimal::Decimal` can hold.
    #[verifier::type_invariant]
    pub open spec fn inv(self) -> bool {
        dec_wf(self@)
    }

    /// `Decimal::try_from_i128_with_scale`: `None` when the scale or the mantissa is too large.
    pub fn new(mantissa: i128, scale: u32) -> (r: Option<Dec>)
        ensures
            r is Some <==> dec_wf(DecView { mantissa: mantissa as int, scale: scale as nat }),
            r matches Some(d) ==> d@ == (DecView { mantissa: mantissa as int, scale: scale as nat }),
    {
        if scale <= MAX_SCALE && -MAX_MANTISSA <= mantissa && mantissa <= MAX_MANTISSA {
            Some(Dec { mantissa, scale })
        } else {
            None
        }
    }

    /// The integer `n` as a decimal with scale 0 (`Decimal::from(i64)`).
    pub fn from_i64(n: i64) -> (r: Dec)
        ensures
            r@ == (DecView { mantissa: n as int, scale: 0 }),
    {
        Dec { mantissa: n as i128, scale: 0 }
    }

    /// `Decimal::ZERO`.
    pub fn zero() -> (r: Dec)
        ensures
            r@ == (DecView { mantissa: 0, scale: 0 }),
    {
        Dec { mantissa: 0, scale: 0 }
    }

    pub fn mantissa(&self) -> (r: i128)
        ensures
            r == self@.mantissa,
    {
        self.mantissa
    }

    pub fn scale(&self) -> (r: u32)
        ensures
            r == self@.scale,
    {
        self.scale
    }

}

/// `Decimal::checked_add`. The sum of two nonzero decimals is exact, at the larger of
/// their scales, when both written at that scale and their sum fit a mantissa.
#[verifier::external_body]
pub(crate) fn checked_add(a: &Dec, b: &Dec) -> (r: Option<Dec>)
    ensures
        r matches Some(x) ==> decimal_sum(a@, b@) == Some(x@),
        r is None ==> decimal_sum(a@, b@) is None,
        sum_fits(a@, b@) ==> r is Some && r->0@ == exact_sum(a@, b@),
{
    Decimal::from_i128_with_scale(a.mantissa, a.scale).checked_add(
        Decimal::from_i128_with_scale(b.mantissa, b.scale),
    ).map(|d| Dec { mantissa: d.mantissa(), scale: d.scale() })
}

/// `Decimal::checked_sub`. The difference of two nonzero decimals is exact, at the
/// larger of their scales, when both written at that scale and their difference fit a
/// mantissa.
#[verifier::external_body]
pub(crate) fn checked_sub(a: &Dec, b: &Dec) -> (r: Option<Dec>)
    ensures
        r matches Some(x) ==> decimal_difference(a@, b@) == Some(x@),
        r is None ==> decimal_difference(a@, b@) is None,
        sum_fits(a@, negated(b@)) ==> r is Some && r->0@ == exact_sum(a@, negated(b@)),
{
    Decimal::from_i128_with_scale(a.mantissa, a.scale).checked_sub(
        Decimal::from_i128_with_scale(b.mantissa, b.scale),
    ).map(|d| Dec { mantissa: d.mantissa(), scale: d.scale() })
}

/// `Decimal::checked_mul`. A product with a zero factor is zero with scale 0; a product
/// whose exact mantissa and scale fit is exact.
#[verifier::external_body]
pub(crate) fn checked_mul(a: &Dec, b: &Dec) -> (r: Option<Dec>)
    ensures
        r matches Some(x) ==> decimal_product(a@, b@) == Some(x@),
        r is None ==> decimal_product(a@, b@) is None,
        a@.mantissa == 0 || b@.mantissa == 0 ==> r is Some && r->0@ == (DecView { mantissa: 0, scale: 0 }),
        product_fits(a@, b@) ==> r is Some && r->0@ == exact_product(a@, b@),
{
    Decimal::from_i128_with_scale(a.mantissa, a.scale).checked_mul(
        Decimal::from_i128_with_scale(b.mantissa, b.scale),
    ).map(|d| Dec { mantissa: d.mantissa(), scale: d.scale() })
}

/// `Decimal::checked_div`; `None` for a zero divisor or on overflow. A quotient of two
/// integers whose dividend is below 2^64 in magnitude is never larger than the
/// dividend, so it does not overflow.
#[verifier::external_body]
pub(crate) fn checked_div(a: &Dec, b: &Dec) -> (r: Option<Dec>)
    ensures
        r matches Some(x) ==> decimal_quotient(a@, b@) == Some(x@),
        r is None ==> decimal_quotient(a@, b@) is None,
        b@.mantissa == 0 ==> r is None,
        a@.scale == 0 && b@.scale == 0 && b@.mantissa != 0 && abs(a@.mantissa) < 0x1_0000_0000_0000_0000
            ==> r is Some,
{
    Decimal::from_i128_with_scale(a.mantissa, a.scale).checked_div(
        Decimal::from_i128_with_scale(b.mantissa, b.scale),
    ).map(|d| Dec { mantissa: d.mantissa(), scale: d.scale() })
}

/// `Decimal::round_dp`: banker's rounding to `dp` fractional digits.
#[verifier::external_body]
pub(crate) fn round_dp(a: &Dec, dp: u32) -> (r: Dec)
    ensures
        r@ == round_dp_view(a@, dp as nat),
{
    let d = Decimal::from_i128_with_scale(a.mantissa, a.scale).round_dp(dp);
    Dec { mantissa: d.mantissa(), scale: d.scale() }
}

/// `Ord::cmp` of `Decimal`, which orders by value.
#[verifier::external_body]
pub(crate) fn compare(a: &Dec, b: &Dec) -> (r: DecOrder)
    ensures
        r == DecOrder::Less <==> value_order(a@, b@) == -1,
        r == DecOrder::Equal <==> value_order(a@, b@) == 0,
        r == DecOrder::Greater <==> value_order(a@, b@) == 1,
{
    match Decimal::from_i128_with_scale(a.mantissa, a.scale).cmp(
        &Decimal::from_i128_with_scale(b.mantissa, b.scale),
    ) {
        std::cmp::Ordering::Less => DecOrder::Less,
        std::cmp::Ordering::Equal => DecOrder::Equal,
        std::cmp::Ordering::Greater => DecOrder::Greater,
    }
}

/// `Decimal::max`: `b` when `a < b`, otherwise `a`.
pub open spec fn max_view(a: DecView, b: DecView) -> DecView {
    if value_order(a, b) == -1 {
        b
    } else {
        a
    }
}

/// `Decimal::min`: `b` when `a > b`, otherwise `a`.
pub open spec fn min_view(a: DecView, b: DecView) -> DecView {
    if value_order(a, b) == 1 {
        b
    } else {
        a
    }
}

/// `Decimal::max`.
pub fn max(a: Dec, b: Dec) -> (r: Dec)
    ensures
        r@ == max_view(a@, b@),
{
    match compare(&a, &b) {
        DecOrder::Less => b,
        _ => a,
    }
}

/// `Decimal::min`.
pub fn min(a: Dec, b: Dec) -> (r: Dec)
    ensures
        r@ == min_view(a@, b@),
{
    match compare(&a, &b) {
        DecOrder::Greater => b,
        _ => a,
    }
}

/// Whether two decimals are equal by value (`PartialEq` of `Decimal`).
pub fn eq_value(a: &Dec, b: &Dec) -> (r: bool)
    ensures
        r == (value_order(a@, b@) == 0),
{
    match compare(a, b) {
        DecOrder::Equal => true,
        _ => false,
    }
}

/// Whether `a < b` by value.
pub fn lt(a: &Dec, b: &Dec) -> (r: bool)
    ensures
        r == (value_order(a@, b@) == -1),
{
    match compare(a, b) {
        DecOrder::Less => true,
        _ => false,
    }
}

/// Whether `a > b` by value.
pub fn gt(a: &Dec, b: &Dec) -> (r: bool)
    ensures
        r == (value_order(a@, b@) == 1),
{
    match compare(a, b) {
        DecOrder::Greater => true,
        _ => false,
    }
}

} // verus!

verus! {

use crate::text::{nat_digits, digits_vec, string_from_chars};

/// The digits of a mantissa magnitude; none for zero.
pub open spec fn mag_digits(n: nat) -> Seq<char> {
    if n == 0 {
        Seq::empty()
    } else {
        nat_digits(n)
    }
}

/// `s` with zeros put in front until it is `w` long.
pub open spec fn zero_pad(s: Seq<char>, w: nat) -> Seq<char> {
    if s.len() >= w {
        s
    } else {
        Seq::new((w - s.len()) as nat, |i: int| '0') + s
    }
}

/// The text that `Decimal`'s `Display` writes: every fractional digit of the scale,
/// a `0` before the point when there is no whole part, and a leading `-` when negative.
pub open spec fn dec_text(d: DecView) -> Seq<char> {
    let s = zero_pad(mag_digits(abs(d.mantissa) as nat), d.scale);
    let w = s.len() - d.scale;
    let body = if d.scale == 0 {
        if s.len() == 0 {
            seq!['0']
        } else {
            s
        }
    } else {
        (if w == 0 {
            seq!['0']
        } else {
            s.subrange(0, w)
        }) + seq!['.'] + s.subrange(w, s.len() as int)
    };
    if d.mantissa < 0 {
        seq!['-'] + body
    } else {
        body
    }
}

impl Dec {
    /// The decimal's text, as `Decimal::to_string` writes it.
    #[verifier::rlimit(60)]
    pub fn to_text(&self) -> (r: String)
        ensures
            r@ == dec_text(self@),
    {
        proof {
            use_type_invariant(self);
        }
        let neg = self.mantissa < 0;
        let mag: u128 = if neg {
            (-self.mantissa) as u128
        } else {
            self.mantissa as u128
        };
        let d = if mag == 0 {
            Vec::new()
        } else {
            digits_vec(mag)
        };
        let ghost md = mag_digits(mag as nat);
        assert(d@ == md);
        let sc = self.scale as usize;
        let mut s: Vec<char> = Vec::new();
        if d.len() < sc {
            let mut k: usize = 0;
            while k < sc - d.len()
                invariant
                    d.len() < sc,
                    k <= sc - d.len(),
                    s@ == Seq::new(k as nat, |i: int| '0'),
                decreases sc - d.len() - k,
            {
                s.push('0');
                assert(s@ =~= Seq::new((k + 1) as nat, |i: int| '0'));
                k = k + 1;
            }
        }
        let mut j: usize = 0;
        let ghost pre = s@;
        while j < d.len()
            invariant
                j <= d.len(),
                s@ == pre + d@.take(j as int),
            decreases d.len() - j,
        {
            s.push(d[j]);
            assert(pre + d@.take(j as int).push(d@[j as int]) =~= pre + d@.take(j + 1));
            j = j + 1;
        }
        assert(d@.take(d.len() as int) =~= d@);
        proof {
            if d.len() >= sc {
                assert(pre =~= Seq::<char>::empty());
                assert(s@ =~= d@);
            }
        }
        assert(s@ == zero_pad(md, self.scale as nat));
        let w = s.len() - sc;
        let mut out: Vec<char> = Vec::new();
        if neg {
            out.push('-');
        }
        let ghost start = out@;
        if sc == 0 {
            if s.len() == 0 {
                out.push('0');
            } else {
                let mut i: usize = 0;
                while i < s.len()
                    invariant
                        i <= s.len(),
                        out@ == start + s@.take(i as int),
                    decreases s.len() - i,
                {
                    out.push(s[i]);
                    assert(start + s@.take(i as int).push(s@[i as int]) =~= start + s@.take(i + 1));
                    i = i + 1;
                }
                assert(s@.take(s.len() as int) =~= s@);
            }
        } else {
            if w == 0 {
                out.push('0');
            } else {
                let mut i: usize = 0;
                while i < w
                    invariant
                        w <= s.len(),
                        i <= w,
                        out@ == start + s@.take(i as int),
                    decreases w - i,
                {
                    out.push(s[i]);
                    assert(start + s@.take(i as int).push(s@[i as int]) =~= start + s@.take(i + 1));
                    i = i + 1;
                }
                assert(s@.take(w as int) =~= s@.subrange(0, w as int));
            }
            let ghost mid = out@;
            out.push('.');
            let ghost mid2 = out@;
            let mut i: usize = w;
            while i < s.len()
                invariant
                    w <= i <= s.len(),
                    out@ == mid2 + s@.subrange(w as int, i as int),
                decreases s.len() - i,
            {
                out.push(s[i]);
                assert(mid2 + s@.subrange(w as int, i as int).push(s@[i as int]) =~= mid2
                    + s@.subrange(w as int, i + 1));
                i = i + 1;
            }
        }
        proof {
            let body = if self.scale == 0 {
                if s@.len() == 0 {
                    seq!['0']
                } else {
                    s@
                }
            } else {
                (if w == 0 {
                    seq!['0']
                } else {
                    s@.subrange(0, w as int)
                }) + seq!['.'] + s@.subrange(w as int, s@.len() as int)
            };
            if neg {
                assert(out@ =~= seq!['-'] + body);
            } else {
                assert(out@ =~= body);
            }
        }
        string_from_chars(&out)
    }
}

} // verus!
