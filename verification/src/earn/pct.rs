//! Rates, which the exchange reports as fractions, shown as percentages.
use super::laws::{law_pct_is_a_percentage, law_pct_missing_iff_too_large};
use crate::decimal::{
    checked_mul, decimal_text, fits_after_drop, lemma_small_ten_pow, mantissa_limit, parse,
    parsed_decimal, round_dp, ten_pow, value_of, Decimal, DecimalValue,
};
use crate::text::{digits_value, is_digit, writes};
use vstd::prelude::*;
use vstd::string::*;

verus! {

/// The places of a shown percentage.
const PCT_PLACES: u32 = 2;

/// A hundred times `v`, without loss: the mantissa grows by as many zeros as fit into
/// 96 bits, the scale shrinks for the others. `None` where no such number exists.
pub open spec fn percent_of(v: DecimalValue) -> Option<DecimalValue> {
    if v.mantissa == 0 {
        Some(DecimalValue { negative: false, mantissa: 0, scale: 0 })
    } else if v.mantissa * 100 < mantissa_limit() {
        Some(DecimalValue { mantissa: v.mantissa * 100, ..v })
    } else if v.mantissa * 10 < mantissa_limit() && v.scale >= 1 {
        Some(DecimalValue { mantissa: v.mantissa * 10, scale: (v.scale - 1) as nat, ..v })
    } else if v.mantissa * 10 >= mantissa_limit() && v.scale >= 2 {
        Some(DecimalValue { scale: (v.scale - 2) as nat, ..v })
    } else {
        None
    }
}

/// A number of at most two places in plain notation, with two places written.
pub open spec fn two_places(v: DecimalValue) -> Seq<char> {
    if v.scale == 0 {
        v.text() + ".00"@
    } else if v.scale == 1 {
        v.text() + "0"@
    } else {
        v.text()
    }
}

/// How the rate `value`, read as `parsed`, is shown: a hundred times the number,
/// rounded to two places and written with two, or `value` itself where it is no
/// number. `None` where the percentage is too large for a decimal number.
pub open spec fn pct_text(parsed: Option<DecimalValue>, value: Seq<char>) -> Option<Seq<char>> {
    match parsed {
        None => Some(value),
        Some(v) => match percent_of(v) {
            Some(p) => Some(two_places(p.rounded(2))),
            None => None,
        },
    }
}

/// The percentage that is shown for `v`, in hundredths.
pub open spec fn shown_pct(v: DecimalValue) -> DecimalValue
    recommends
        percent_of(v) is Some,
{
    let shown = (percent_of(v)->0).rounded(2);
    DecimalValue {
        negative: shown.negative,
        mantissa: shown.mantissa * ten_pow((2 - shown.scale) as nat),
        scale: 2,
    }
}

/// The hundredths that a text with two places reads as.
pub open spec fn read_hundredths(text: Seq<char>) -> int {
    let start = if text[0] == '-' {
        1int
    } else {
        0int
    };
    let whole = text.subrange(start, text.len() - 3);
    let places = text.subrange(text.len() - 2, text.len() as int);
    let hundredths = 100 * digits_value(whole) + digits_value(places);
    if text[0] == '-' {
        -hundredths
    } else {
        hundredths
    }
}

/// `text` is `v` as a percentage: a number with two places, no sign on a zero, whose
/// hundredths are the integer nearest to ten thousand times `v`, the even one of two.
pub open spec fn is_percentage(text: Seq<char>, v: DecimalValue) -> bool {
    let start = if text[0] == '-' {
        1int
    } else {
        0int
    };
    let whole = text.subrange(start, text.len() - 3);
    let h = read_hundredths(text);
    let unit = ten_pow(v.scale) as int;
    &&& text.len() >= start + 4
    &&& writes(whole, digits_value(whole))
    &&& text[text.len() - 3] == '.'
    &&& is_digit(text[text.len() - 2])
    &&& is_digit(text[text.len() - 1])
    &&& h == 0 ==> text[0] != '-'
    &&& -unit <= 2 * (h * unit - 10000 * v.signed()) <= unit
    &&& 2 * (h * unit - 10000 * v.signed()) == unit ==> h % 2 == 0
    &&& 2 * (h * unit - 10000 * v.signed()) == -unit ==> h % 2 == 0
}

/// A hundred times `v` is beyond the largest decimal number.
pub open spec fn too_large(v: DecimalValue) -> bool {
    100 * v.mantissa >= mantissa_limit() * ten_pow(v.scale)
}

/// What an optional text reads.
pub open spec fn opt_text(s: Option<String>) -> Option<Seq<char>> {
    match s {
        Some(s) => Some(s@),
        None => None,
    }
}

fn percent(d: Decimal) -> (r: Option<Decimal>)
    requires
        d.wf(),
    ensures
        value_of(r) == percent_of(d@),
        r matches Some(p) ==> p.wf(),
{
    let hundred = Decimal { negative: false, lo: 100, mid: 0, hi: 0, scale: 0 };
    proof {
        lemma_small_ten_pow();
        assert(hundred@.mantissa == ten_pow(2));
    }
    let r = checked_mul(d, hundred);
    proof {
        let m = d@.mantissa;
        assert(m < mantissa_limit());
        if m > 0 {
            if m * 100 < mantissa_limit() {
                assert(fits_after_drop(m * 100, d@.scale, 0));
            } else if m * 10 < mantissa_limit() && d@.scale >= 1 {
                assert((m * 100) % ten_pow(1) == 0 && (m * 100) / ten_pow(1) == m * 10);
                assert((m * 100) / ten_pow(0) == m * 100);
                assert(fits_after_drop(m * 100, d@.scale, 1));
            } else if m * 10 >= mantissa_limit() && d@.scale >= 2 {
                assert(fits_after_drop(m * 100, d@.scale, 2));
            }
        }
    }
    r
}

/// Shows a rate whose text `value` was read as `parsed`.
pub fn render_pct(parsed: Option<Decimal>, value: &str) -> (r: Option<String>)
    requires
        parsed matches Some(d) ==> d.wf(),
    ensures
        opt_text(r) == pct_text(value_of(parsed), value@),
        parsed is None ==> (r matches Some(text) && text@ == value@),
        parsed matches Some(d) ==> {
            &&& r is None <==> too_large(d@)
            &&& r matches Some(text) ==> is_percentage(text@, d@)
        },
{
    proof {
        law_pct_is_a_percentage(value_of(parsed), value@);
        if parsed is Some {
            law_pct_missing_iff_too_large(parsed->0@);
        }
    }
    match parsed {
        None => Some(value.to_owned()),
        Some(d) => match percent(d) {
            Some(p) => {
                let shown = round_dp(p, PCT_PLACES);
                let text = decimal_text(shown);
                if shown.scale == 0 {
                    Some(text.concat(".00"))
                } else if shown.scale == 1 {
                    Some(text.concat("0"))
                } else {
                    Some(text)
                }
            },
            None => None,
        },
    }
}

/// Renders a fractional decimal string as a percentage with two places.
pub fn format_pct(value: &str) -> (r: String)
    requires
        pct_text(parsed_decimal(value@), value@) is Some,
    ensures
        pct_text(parsed_decimal(value@), value@) == Some(r@),
        parsed_decimal(value@) is None ==> r@ == value@,
        parsed_decimal(value@) matches Some(v) ==> v.wf() && !too_large(v) && is_percentage(r@, v),
        forall|v: DecimalValue|
            v.wf() && v.canonical() && value@ == #[trigger] v.text() ==> parsed_decimal(value@)
                == Some(v),
        (forall|i: int| 0 <= i < value@.len() ==> !is_digit(#[trigger] value@[i])) ==> r@ == value@,
{
    match render_pct(parse(value), value) {
        Some(text) => text,
        None => vstd::pervasive::unreached(),
    }
}

/// `format_pct` for any text: `None` where the percentage is too large for a decimal
/// number.
pub fn try_format_pct(value: &str) -> (r: Option<String>)
    ensures
        opt_text(r) == pct_text(parsed_decimal(value@), value@),
        parsed_decimal(value@) is None ==> (r matches Some(text) && text@ == value@),
        parsed_decimal(value@) matches Some(v) ==> {
            &&& v.wf()
            &&& r is None <==> too_large(v)
            &&& r matches Some(text) ==> is_percentage(text@, v)
        },
        forall|v: DecimalValue|
            v.wf() && v.canonical() && value@ == #[trigger] v.text() ==> parsed_decimal(value@)
                == Some(v),
        (forall|i: int| 0 <= i < value@.len() ==> !is_digit(#[trigger] value@[i])) ==> opt_text(r)
            == Some(value@),
{
    let parsed = parse(value);
    proof {
        if parsed is Some {
            law_pct_missing_iff_too_large(parsed->0@);
        }
    }
    let fits = match parsed {
        None => true,
        Some(d) => percent(d).is_some(),
    };
    if fits {
        Some(format_pct(value))
    } else {
        None
    }
}

} // verus!
