//! Decimal numbers: a sign, a 96-bit mantissa and a power of ten.
//!
//! The arithmetic is done by `rust_decimal`. This module states what each call
//! returns, over the number's mathematical value.
use crate::text::{
    digits_value, is_digit, law_nat_text_writes_the_number, lemma_padded_text, nat_text,
    padded_text, writes,
};
use std::str::FromStr;
use vstd::prelude::*;

verus! {

/// The largest number of digits after the decimal point.
pub const MAX_SCALE: u32 = 28;

/// A decimal number: the mantissa in three 32-bit words, lowest first, divided by
/// ten to the power of `scale`.
#[derive(Clone, Copy, Debug, PartialEq, Eq, Structural)]
pub struct Decimal {
    pub negative: bool,
    pub lo: u32,
    pub mid: u32,
    pub hi: u32,
    pub scale: u32,
}

/// The mathematical value of a `Decimal`, with the scale it is written in.
#[verifier::ext_equal]
pub struct DecimalValue {
    pub negative: bool,
    pub mantissa: nat,
    pub scale: nat,
}

/// Ten to the power of `n`.
pub open spec fn ten_pow(n: nat) -> nat
    decreases n,
{
    if n == 0 {
        1
    } else {
        10 * ten_pow((n - 1) as nat)
    }
}

/// The first powers of ten.
pub proof fn lemma_small_ten_pow()
    ensures
        ten_pow(0) == 1,
        ten_pow(1) == 10,
        ten_pow(2) == 100,
{
    reveal_with_fuel(ten_pow, 3);
}

/// One more than the largest mantissa.
pub open spec fn mantissa_limit() -> nat {
    0x1_0000_0000_0000_0000_0000_0000nat
}

impl DecimalValue {
    /// A mantissa of 96 bits and at most `MAX_SCALE` places.
    pub open spec fn wf(self) -> bool {
        self.mantissa < mantissa_limit() && self.scale <= MAX_SCALE
    }

    /// Zero carries no sign.
    pub open spec fn canonical(self) -> bool {
        self.mantissa == 0 ==> !self.negative
    }

    /// The mantissa with its sign.
    pub open spec fn signed(self) -> int {
        if self.negative {
            -self.mantissa
        } else {
            self.mantissa as int
        }
    }

    /// The number with the other sign.
    pub open spec fn negated(self) -> DecimalValue {
        DecimalValue { negative: !self.negative, ..self }
    }

    /// At most `other`, whatever scales the two are written in.
    pub open spec fn at_most(self, other: DecimalValue) -> bool {
        self.signed() * ten_pow(other.scale) <= other.signed() * ten_pow(self.scale)
    }

    /// The number in plain notation: every place is written, trailing zeros kept.
    pub open spec fn text(self) -> Seq<char> {
        let sign = if self.negative {
            seq!['-']
        } else {
            Seq::empty()
        };
        let whole = nat_text(self.mantissa / ten_pow(self.scale));
        let places = if self.scale == 0 {
            Seq::empty()
        } else {
            seq!['.'] + padded_text(self.mantissa, self.scale)
        };
        sign + whole + places
    }

    /// The number rounded to at most `dp` places, ties to the even neighbour.
    pub open spec fn rounded(self, dp: nat) -> DecimalValue {
        if self.scale <= dp {
            self
        } else {
            let mantissa = round_half_even(self.mantissa, ten_pow((self.scale - dp) as nat));
            DecimalValue {
                negative: self.negative && (self.mantissa == 0 || mantissa != 0),
                mantissa,
                scale: dp,
            }
        }
    }
}

/// `n / unit` to the nearest integer, ties to the even one.
pub open spec fn round_half_even(n: nat, unit: nat) -> nat {
    let floor = n / unit;
    let rest = n % unit;
    if 2 * rest > unit || (2 * rest == unit && floor % 2 == 1) {
        floor + 1
    } else {
        floor
    }
}

impl View for Decimal {
    type V = DecimalValue;

    open spec fn view(&self) -> DecimalValue {
        DecimalValue {
            negative: self.negative,
            mantissa: (self.lo + self.mid * 0x1_0000_0000 + self.hi * 0x1_0000_0000_0000_0000) as nat,
            scale: self.scale as nat,
        }
    }
}

impl Decimal {
    /// At most `MAX_SCALE` places.
    pub open spec fn wf(self) -> bool {
        self.scale <= MAX_SCALE
    }
}

/// The value of an optional number.
pub open spec fn value_of(d: Option<Decimal>) -> Option<DecimalValue> {
    match d {
        Some(d) => Some(d@),
        None => None,
    }
}

/// Two decimal numbers of one value and one scale are the same.
pub proof fn law_value_identifies(a: Decimal, b: Decimal)
    requires
        a@ == b@,
    ensures
        a == b,
{
    let word = 0x1_0000_0000int;
    assert(a.lo + word * (a.mid + a.hi * word) == b.lo + word * (b.mid + b.hi * word));
    assert(a.lo == b.lo && a.mid + a.hi * word == b.mid + b.hi * word) by (nonlinear_arith)
        requires
            a.lo + word * (a.mid + a.hi * word) == b.lo + word * (b.mid + b.hi * word),
            word == 0x1_0000_0000int,
    ;
    assert(a.mid == b.mid && a.hi == b.hi) by (nonlinear_arith)
        requires
            a.mid + a.hi * word == b.mid + b.hi * word,
            word == 0x1_0000_0000int,
    ;
}

proof fn lemma_padded_text_value(n: nat, places: nat)
    ensures
        digits_value(padded_text(n, places)) == n % ten_pow(places),
        ten_pow(places) > 0,
    decreases places,
{
    if places > 0 {
        let rest = ten_pow((places - 1) as nat);
        let unit = ten_pow(places);
        lemma_padded_text_value(n / 10, (places - 1) as nat);
        let text = padded_text(n, places);
        assert(text.drop_last() =~= padded_text(n / 10, (places - 1) as nat));
        let q = n / 10;
        let t = q / rest;
        let r = q % rest;
        assert(q == t * rest + r && r < rest) by (nonlinear_arith)
            requires
                rest > 0,
                t == q / rest,
                r == q % rest,
        ;
        let low = 10 * r + n % 10;
        assert(n == t * unit + low && low < unit) by (nonlinear_arith)
            requires
                n == 10 * q + n % 10,
                q == t * rest + r,
                r < rest,
                unit == 10 * rest,
                low == 10 * r + n % 10,
                n % 10 < 10,
        ;
        assert(n % unit == low) by (nonlinear_arith)
            requires
                n == t * unit + low,
                low < unit,
        ;
    }
}

/// `text` writes `v`: a minus sign for a negative number, the whole part without
/// needless zeros, and behind the point as many digits as the scale has places.
pub open spec fn writes_decimal(text: Seq<char>, v: DecimalValue) -> bool {
    let unit = ten_pow(v.scale);
    let start = if v.negative {
        1int
    } else {
        0int
    };
    let point = text.len() - (if v.scale == 0 {
        0int
    } else {
        v.scale as int + 1
    });
    &&& start < point
    &&& text[0] == '-' <==> v.negative
    &&& writes(text.subrange(start, point), (v.mantissa / unit) as int)
    &&& v.scale > 0 ==> {
        &&& text[point] == '.'
        &&& forall|i: int| point < i < text.len() ==> is_digit(#[trigger] text[i])
        &&& digits_value(text.subrange(point + 1, text.len() as int)) == v.mantissa % unit
    }
}

/// The plain notation of a number writes that number.
pub proof fn law_text_writes_the_number(v: DecimalValue)
    ensures
        writes_decimal(v.text(), v),
{
    let text = v.text();
    let sign = if v.negative {
        seq!['-']
    } else {
        Seq::empty()
    };
    let whole = nat_text(v.mantissa / ten_pow(v.scale));
    law_nat_text_writes_the_number(v.mantissa / ten_pow(v.scale));
    let start = sign.len() as int;
    let point = start + whole.len();
    assert(text.subrange(start, point) =~= whole);
    if !v.negative {
        assert(text[0] == whole[0]);
    }
    if v.scale > 0 {
        let places = padded_text(v.mantissa, v.scale);
        lemma_padded_text(v.mantissa, v.scale);
        lemma_padded_text_value(v.mantissa, v.scale);
        assert(text.subrange(point + 1, text.len() as int) =~= places);
        assert forall|i: int| point < i < text.len() implies is_digit(#[trigger] text[i]) by {
            assert(text[i] == places[i - point - 1]);
        }
    }
}

/// What `rust_decimal::Decimal::from_str` reads from a text, `None` where it
/// refuses the text.
pub uninterp spec fn parsed_decimal(text: Seq<char>) -> Option<DecimalValue>;

/// Calls `rust_decimal::Decimal::from_str`.
///
/// Claimed of it: the result depends on the text alone; a number that it reads has
/// at most `MAX_SCALE` places; the plain notation of a number (zero without a sign)
/// reads back as that number; a text without a decimal digit is refused.
#[verifier::external_body]
pub(crate) fn parse(text: &str) -> (r: Option<Decimal>)
    ensures
        value_of(r) == parsed_decimal(text@),
        r matches Some(d) ==> d.wf(),
        forall|v: DecimalValue|
            v.wf() && v.canonical() && text@ == #[trigger] v.text() ==> value_of(r) == Some(v),
        (forall|i: int| 0 <= i < text@.len() ==> !is_digit(#[trigger] text@[i])) ==> r is None,
{
    match rust_decimal::Decimal::from_str(text) {
        Ok(d) => {
            let u = d.unpack();
            Some(Decimal { negative: u.negative, lo: u.lo, mid: u.mid, hi: u.hi, scale: u.scale })
        }
        Err(_) => None,
    }
}

/// Dropping `k` trailing zeros from the product mantissa `p` is the least that makes
/// it fit into 96 bits, and `scale` has the places to drop.
pub open spec fn fits_after_drop(p: nat, scale: nat, k: nat) -> bool {
    &&& p > 0
    &&& k <= scale <= MAX_SCALE
    &&& p % ten_pow(k) == 0
    &&& p / ten_pow(k) < mantissa_limit()
    &&& k > 0 ==> p / ten_pow((k - 1) as nat) >= mantissa_limit()
}

/// Calls `rust_decimal::Decimal::checked_mul` with a power of ten as the second factor.
///
/// Claimed of it: a product of zero is zero without a sign or places; any other
/// product is exact, as few trailing zeros dropped as make its mantissa fit into 96
/// bits; a product too large even with no places is an overflow. Times a power of
/// ten, no digit other than a zero is ever dropped.
#[verifier::external_body]
pub(crate) fn checked_mul(a: Decimal, b: Decimal) -> (r: Option<Decimal>)
    requires
        a.wf(),
        b.wf(),
        b@.scale == 0,
        exists|n: nat| b@.mantissa == #[trigger] ten_pow(n),
    ensures
        r matches Some(d) ==> d.wf(),
        a@.mantissa * b@.mantissa == 0 ==> value_of(r) == Some(
            (DecimalValue { negative: false, mantissa: 0, scale: 0 }),
        ),
        forall|k: nat| #[trigger]
            fits_after_drop(a@.mantissa * b@.mantissa, a@.scale + b@.scale, k) ==> value_of(r)
                == Some(
                (DecimalValue {
                    negative: a.negative != b.negative,
                    mantissa: a@.mantissa * b@.mantissa / ten_pow(k),
                    scale: (a@.scale + b@.scale - k) as nat,
                }),
            ),
        a@.scale + b@.scale <= MAX_SCALE && a@.mantissa * b@.mantissa >= mantissa_limit()
            * ten_pow(a@.scale + b@.scale) ==> r is None,
{
    let mut x = rust_decimal::Decimal::from_parts(a.lo, a.mid, a.hi, a.negative, a.scale);
    x.set_sign_negative(a.negative);
    let mut y = rust_decimal::Decimal::from_parts(b.lo, b.mid, b.hi, b.negative, b.scale);
    y.set_sign_negative(b.negative);
    match x.checked_mul(y) {
        Some(d) => {
            let u = d.unpack();
            Some(Decimal { negative: u.negative, lo: u.lo, mid: u.mid, hi: u.hi, scale: u.scale })
        }
        None => None,
    }
}

/// Calls `rust_decimal::Decimal::round_dp`.
///
/// Claimed of it: a number with at most `dp` places comes back as it is; any other
/// is rounded to `dp` places, ties to the even neighbour, and loses its sign when it
/// rounds to zero.
#[verifier::external_body]
pub(crate) fn round_dp(d: Decimal, dp: u32) -> (r: Decimal)
    requires
        d.wf(),
    ensures
        r@ == d@.rounded(dp as nat),
        r.wf(),
{
    let mut x = rust_decimal::Decimal::from_parts(d.lo, d.mid, d.hi, d.negative, d.scale);
    x.set_sign_negative(d.negative);
    let u = x.round_dp(dp).unpack();
    Decimal { negative: u.negative, lo: u.lo, mid: u.mid, hi: u.hi, scale: u.scale }
}

/// Calls the `to_string` that `rust_decimal::Decimal` has from its `Display`.
///
/// Claimed of it: the result is the number in plain notation, a minus sign in front
/// of a negative one, every place of its scale written out.
#[verifier::external_body]
pub(crate) fn decimal_text(d: Decimal) -> (r: String)
    requires
        d.wf(),
    ensures
        r@ == d@.text(),
{
    let mut x = rust_decimal::Decimal::from_parts(d.lo, d.mid, d.hi, d.negative, d.scale);
    x.set_sign_negative(d.negative);
    x.to_string()
}

} // verus!
