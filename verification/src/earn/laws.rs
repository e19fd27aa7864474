//! What holds of every percentage that is shown, and of every run of an Earn command,
//! whatever replies come in and in whatever order.
use super::pct::{is_percentage, pct_text, percent_of, read_hundredths, shown_pct, two_places};
use super::run::{earn_transition, past_text, EarnEvent, EarnRequest, EarnState, EarnStep};
use super::{BorrowLendAction, BorrowLendOperation, EarnCmd, EarnTransferCmd};
use crate::decimal::{
    law_text_writes_the_number, lemma_small_ten_pow, mantissa_limit, round_half_even, ten_pow,
    DecimalValue,
};
use crate::text::{
    digits_value, is_digit, lemma_nat_text, lemma_padded_text, nat_text, padded_text, texts, writes,
};
use vstd::prelude::*;

pub mod session;

verus! {

proof fn lemma_ten_pow(n: nat)
    ensures
        ten_pow(n) >= 1,
        n >= 1 ==> ten_pow(n) >= 10 && ten_pow(n) % 2 == 0,
        n >= 2 ==> ten_pow(n) >= 100,
    decreases n,
{
    if n > 0 {
        lemma_ten_pow((n - 1) as nat);
    }
}

/// A percentage is missing exactly where a hundred times the number is beyond the
/// largest decimal number.
pub proof fn law_pct_missing_iff_too_large(v: DecimalValue)
    requires
        v.wf(),
    ensures
        percent_of(v) is None <==> 100 * v.mantissa >= mantissa_limit() * ten_pow(v.scale),
{
    lemma_ten_pow(v.scale);
    lemma_small_ten_pow();
    let limit = mantissa_limit();
    let unit = ten_pow(v.scale);
    if v.scale >= 2 {
        assert(limit * unit >= limit * 100) by (nonlinear_arith)
            requires
                unit >= 100,
        ;
    } else if v.scale == 1 {
        assert(limit * unit == limit * 10);
    } else {
        assert(limit * unit == limit);
    }
}

/// A percentage is a hundred times the number, with nothing lost, to the nearest
/// hundredth.
pub proof fn law_pct_is_nearest_hundredth(v: DecimalValue)
    requires
        v.wf(),
        percent_of(v) is Some,
    ensures
        ({
            let p = percent_of(v)->0;
            let shown = p.rounded(2);
            &&& p.wf()
            &&& p.mantissa * ten_pow(v.scale) == 100 * v.mantissa * ten_pow(p.scale)
            &&& p.scale <= 2 ==> shown == p
            &&& p.scale > 2 ==> {
                let unit = ten_pow((p.scale - 2) as nat);
                &&& 2 * (shown.mantissa * unit - p.mantissa) <= unit
                &&& 2 * (p.mantissa - shown.mantissa * unit) <= unit
            }
            &&& shown.negative ==> v.negative
        }),
{
    let p = percent_of(v)->0;
    lemma_percent_is_exact(v);
    if p.scale > 2 {
        let unit = ten_pow((p.scale - 2) as nat);
        lemma_ten_pow((p.scale - 2) as nat);
        lemma_round_half_even(p.mantissa, unit);
    }
}

proof fn lemma_percent_is_exact(v: DecimalValue)
    requires
        percent_of(v) is Some,
    ensures
        ({
            let p = percent_of(v)->0;
            p.mantissa * ten_pow(v.scale) == 100 * v.mantissa * ten_pow(p.scale)
        }),
{
    let p = percent_of(v)->0;
    let m = v.mantissa;
    if m != 0 {
        if m * 100 < mantissa_limit() {
            let u = ten_pow(v.scale);
            assert((m * 100) * u == (100 * m) * u) by (nonlinear_arith);
        } else if m * 10 < mantissa_limit() {
            let u = ten_pow((v.scale - 1) as nat);
            assert(ten_pow(v.scale) == 10 * u);
            assert((m * 10) * (10 * u) == (100 * m) * u) by (nonlinear_arith);
        } else {
            let u = ten_pow((v.scale - 2) as nat);
            assert(ten_pow((v.scale - 1) as nat) == 10 * u);
            assert(ten_pow(v.scale) == 10 * (10 * u));
            assert(m * (10 * (10 * u)) == (100 * m) * u) by (nonlinear_arith);
        }
    } else {
        let unit = ten_pow(v.scale);
        let shown_unit = ten_pow(p.scale);
        assert(p.mantissa * unit == 100 * m * shown_unit) by (nonlinear_arith)
            requires
                p.mantissa == 0,
                m == 0,
        ;
    }
}

proof fn lemma_round_half_even(n: nat, unit: nat)
    requires
        unit > 0,
    ensures
        2 * (round_half_even(n, unit) * unit - n) <= unit,
        2 * (n - round_half_even(n, unit) * unit) <= unit,
{
    let floor = n / unit;
    let rest = n % unit;
    assert(n == floor * unit + rest) by (nonlinear_arith)
        requires
            unit > 0,
            floor == n / unit,
            rest == n % unit,
    ;
    assert((floor + 1) * unit == floor * unit + unit) by (nonlinear_arith);
}

/// Writing two places does not change the number: the text is that of the number with
/// its mantissa in hundredths.
pub proof fn law_two_places_keep_the_value(v: DecimalValue)
    requires
        v.scale <= 2,
    ensures
        two_places(v) == (DecimalValue {
            negative: v.negative,
            mantissa: v.mantissa * ten_pow((2 - v.scale) as nat),
            scale: 2,
        }).text(),
{
    let m = v.mantissa;
    reveal_strlit(".00");
    reveal_strlit("0");
    lemma_small_ten_pow();
    reveal_with_fuel(padded_text, 3);
    if v.scale == 0 {
        let hundredths = m * 100;
        assert(hundredths / 100 == m && hundredths % 10 == 0 && (hundredths / 10) % 10 == 0);
        assert(padded_text(hundredths, 2) =~= seq!['0', '0']);
        assert(m / ten_pow(0) == m);
        assert(two_places(v) =~= (DecimalValue { mantissa: hundredths, scale: 2, ..v }).text());
    } else if v.scale == 1 {
        let hundredths = m * 10;
        assert(hundredths / 100 == m / 10 && hundredths % 10 == 0 && hundredths / 10 == m);
        assert(padded_text(hundredths, 2) =~= padded_text(m, 1).push('0'));
        assert(two_places(v) =~= (DecimalValue { mantissa: hundredths, scale: 2, ..v }).text());
    } else {
        assert(m * ten_pow(0) == m);
    }
}

/// What is shown is a number: the text is its plain notation, a zero carries no sign, and
/// its hundredths are ten thousand times the rate to the nearest integer, ties to the even
/// one.
pub proof fn law_pct_shows_the_rate_in_hundredths(v: DecimalValue, value: Seq<char>)
    requires
        percent_of(v) is Some,
    ensures
        pct_text(Some(v), value) == Some(shown_pct(v).text()),
        shown_pct(v).canonical(),
        shown_pct(v).mantissa == round_half_even(10000 * v.mantissa, ten_pow(v.scale)),
        shown_pct(v).negative ==> v.negative,
        v.negative && shown_pct(v).mantissa > 0 ==> shown_pct(v).negative,
{
    let p = percent_of(v)->0;
    let shown = p.rounded(2);
    let m = v.mantissa;
    let unit = ten_pow(v.scale);
    lemma_small_ten_pow();
    lemma_ten_pow(v.scale);
    lemma_ten_pow(p.scale);
    lemma_percent_is_exact(v);
    law_two_places_keep_the_value(shown);
    if p.scale > 2 {
        let rest = ten_pow((p.scale - 2) as nat);
        lemma_ten_pow((p.scale - 2) as nat);
        assert(ten_pow((p.scale - 1) as nat) == 10 * rest);
        assert(ten_pow(p.scale) == 100 * rest);
        assert(p.mantissa * unit == (10000 * m) * rest) by (nonlinear_arith)
            requires
                p.mantissa * unit == 100 * m * (100 * rest),
        ;
        lemma_rounding_keeps_order(p.mantissa, rest, 10000 * m, unit);
        lemma_rounding_keeps_order(10000 * m, unit, p.mantissa, rest);
        assert(shown.mantissa * ten_pow(0) == shown.mantissa);
    } else {
        let up = ten_pow((2 - p.scale) as nat);
        let exact = p.mantissa * up;
        assert(p.scale == 0 || p.scale == 1 || p.scale == 2);
        assert(ten_pow(p.scale) * up == 100);
        assert(exact * unit == 10000 * m) by (nonlinear_arith)
            requires
                p.mantissa * unit == 100 * m * ten_pow(p.scale),
                ten_pow(p.scale) * up == 100,
                exact == p.mantissa * up,
        ;
        lemma_rounding_keeps_order(exact, 1, 10000 * m, unit);
        lemma_rounding_keeps_order(10000 * m, unit, exact, 1);
        assert(round_half_even(exact, 1) == exact);
        if m > 0 {
            assert(exact > 0) by (nonlinear_arith)
                requires
                    exact * unit == 10000 * m,
                    m > 0,
            ;
        }
    }
}

/// Rounding to an integer keeps the order of two quotients.
proof fn lemma_rounding_keeps_order(a: nat, unit_a: nat, b: nat, unit_b: nat)
    requires
        unit_a > 0,
        unit_b > 0,
        a * unit_b <= b * unit_a,
    ensures
        round_half_even(a, unit_a) <= round_half_even(b, unit_b),
{
    let f = a / unit_a;
    let r = a % unit_a;
    let g = b / unit_b;
    let q = b % unit_b;
    assert(a == f * unit_a + r && r < unit_a) by (nonlinear_arith)
        requires
            unit_a > 0,
            f == a / unit_a,
            r == a % unit_a,
    ;
    assert(b == g * unit_b + q && q < unit_b) by (nonlinear_arith)
        requires
            unit_b > 0,
            g == b / unit_b,
            q == b % unit_b,
    ;
    let both = unit_a * unit_b;
    assert(a * unit_b == f * both + r * unit_b) by (nonlinear_arith)
        requires
            a == f * unit_a + r,
            both == unit_a * unit_b,
    ;
    assert(b * unit_a == g * both + q * unit_a) by (nonlinear_arith)
        requires
            b == g * unit_b + q,
            both == unit_a * unit_b,
    ;
    if f > g {
        assert(f * both >= g * both + both) by (nonlinear_arith)
            requires
                f >= g + 1,
        ;
        assert(q * unit_a < both) by (nonlinear_arith)
            requires
                q < unit_b,
                unit_a > 0,
                both == unit_a * unit_b,
        ;
    } else if f == g {
        assert(r * unit_b <= q * unit_a);
        assert(2 * r > unit_a ==> 2 * q > unit_b) by (nonlinear_arith)
            requires
                r * unit_b <= q * unit_a,
                unit_a > 0,
                unit_b > 0,
        ;
        assert(2 * r == unit_a ==> 2 * q >= unit_b) by (nonlinear_arith)
            requires
                r * unit_b <= q * unit_a,
                unit_a > 0,
                unit_b > 0,
        ;
    }
}

/// Shown percentages keep the order of the rates, and flip with their sign.
pub proof fn law_pct_keeps_order(v: DecimalValue, w: DecimalValue)
    requires
        v.wf(),
        w.wf(),
        percent_of(v) is Some,
        percent_of(w) is Some,
        v.at_most(w),
    ensures
        shown_pct(v).signed() <= shown_pct(w).signed(),
        shown_pct(v).at_most(shown_pct(w)),
        percent_of(v.negated()) is Some,
        shown_pct(v.negated()).signed() == -shown_pct(v).signed(),
{
    let unit_v = ten_pow(v.scale);
    let unit_w = ten_pow(w.scale);
    lemma_ten_pow(v.scale);
    lemma_ten_pow(w.scale);
    lemma_small_ten_pow();
    law_pct_shows_the_rate_in_hundredths(v, Seq::empty());
    law_pct_shows_the_rate_in_hundredths(w, Seq::empty());
    law_pct_shows_the_rate_in_hundredths(v.negated(), Seq::empty());
    let a = 10000 * v.mantissa;
    let b = 10000 * w.mantissa;
    assert(a * unit_w == 10000 * (v.mantissa * unit_w)) by (nonlinear_arith)
        requires
            a == 10000 * v.mantissa,
    ;
    assert(b * unit_v == 10000 * (w.mantissa * unit_v)) by (nonlinear_arith)
        requires
            b == 10000 * w.mantissa,
    ;
    assert((-v.mantissa) * unit_w == -(v.mantissa * unit_w)) by (nonlinear_arith);
    assert((-w.mantissa) * unit_v == -(w.mantissa * unit_v)) by (nonlinear_arith);
    if !v.negative && !w.negative {
        lemma_rounding_keeps_order(a, unit_v, b, unit_w);
    } else if v.negative && w.negative {
        lemma_rounding_keeps_order(b, unit_w, a, unit_v);
    } else if !v.negative && w.negative {
        assert(v.mantissa == 0 && w.mantissa == 0) by (nonlinear_arith)
            requires
                v.mantissa * unit_w <= -(w.mantissa * unit_v),
                unit_v >= 1,
                unit_w >= 1,
        ;
        lemma_rounding_keeps_order(a, unit_v, 0, 1);
        lemma_rounding_keeps_order(b, unit_w, 0, 1);
    }
}

/// Two opposite rates, in whatever scales, are shown as opposite percentages.
pub proof fn law_pct_of_opposite_rates(v: DecimalValue, w: DecimalValue)
    requires
        v.wf(),
        w.wf(),
        percent_of(v) is Some,
        percent_of(w) is Some,
        v.at_most(w.negated()),
        w.negated().at_most(v),
    ensures
        shown_pct(v).signed() == -shown_pct(w).signed(),
{
    law_pct_keeps_order(v, w.negated());
    law_pct_keeps_order(w.negated(), v);
    assert(w.negated().negated() == w);
}

/// What is shown for a rate that reads as a number is a percentage of that rate; a text
/// that does not is shown as it is.
pub proof fn law_pct_is_a_percentage(parsed: Option<DecimalValue>, value: Seq<char>)
    ensures
        parsed is None ==> pct_text(parsed, value) == Some(value),
        parsed matches Some(v) ==> (v.wf() ==> (pct_text(parsed, value) is None <==> 100 * v.mantissa
            >= mantissa_limit() * ten_pow(v.scale))),
        parsed matches Some(v) ==> (pct_text(parsed, value) matches Some(text) ==> {
            let unit = ten_pow(v.scale) as int;
            let error = 2 * (read_hundredths(text) * unit - 10000 * v.signed());
            &&& text.len() >= 4
            &&& text[text.len() - 3] == '.'
            &&& -unit <= error <= unit
            &&& error == unit || error == -unit ==> read_hundredths(text) % 2 == 0
            &&& read_hundredths(text) == 0 ==> text[0] != '-'
        }),
        parsed matches Some(v) ==> (pct_text(parsed, value) matches Some(text) ==> is_percentage(
            text,
            v,
        )),
{
    if parsed is Some && parsed->0.wf() {
        law_pct_missing_iff_too_large(parsed->0);
    }
    if parsed is Some && pct_text(parsed, value) is Some {
        let v = parsed->0;
        law_pct_shows_the_rate_in_hundredths(v, value);
        lemma_hundredths_read_back(shown_pct(v));
        lemma_shown_pct_is_nearest(v);
    }
}

/// The text of a number of hundredths reads back as these hundredths.
proof fn lemma_hundredths_read_back(w: DecimalValue)
    requires
        w.scale == 2,
        w.canonical(),
    ensures
        ({
            let text = w.text();
            let start = if text[0] == '-' {
                1int
            } else {
                0int
            };
            let whole = text.subrange(start, text.len() - 3);
            &&& text.len() >= start + 4
            &&& writes(whole, digits_value(whole))
            &&& text[text.len() - 3] == '.'
            &&& is_digit(text[text.len() - 2])
            &&& is_digit(text[text.len() - 1])
            &&& read_hundredths(text) == w.signed()
            &&& read_hundredths(text) == 0 ==> text[0] != '-'
        }),
{
    let text = w.text();
    law_text_writes_the_number(w);
    lemma_small_ten_pow();
    let start = if w.negative {
        1int
    } else {
        0int
    };
    let whole = text.subrange(start, text.len() - 3);
    let places = text.subrange(text.len() - 2, text.len() as int);
    assert(text[0] == '-' <==> w.negative);
    assert(writes(whole, (w.mantissa / 100) as int));
    assert(digits_value(places) == w.mantissa % 100);
}

/// The hundredths shown for a rate are the nearest, the even ones of two.
proof fn lemma_shown_pct_is_nearest(v: DecimalValue)
    requires
        percent_of(v) is Some,
    ensures
        ({
            let unit = ten_pow(v.scale) as int;
            let h = shown_pct(v).signed();
            let error = 2 * (h * unit - 10000 * v.signed());
            &&& -unit <= error <= unit
            &&& error == unit || error == -unit ==> h % 2 == 0
        }),
{
    let n = 10000 * v.mantissa;
    let unit = ten_pow(v.scale);
    let h = shown_pct(v).mantissa;
    law_pct_shows_the_rate_in_hundredths(v, Seq::empty());
    lemma_ten_pow(v.scale);
    lemma_round_half_even(n, unit);
    lemma_round_half_even_tie(n, unit);
    lemma_error_of_signed(h, n, unit, shown_pct(v).signed(), 10000 * v.signed());
}

proof fn lemma_error_of_signed(h: nat, n: nat, unit: nat, shown: int, exact: int)
    requires
        2 * (h * unit - n) <= unit,
        2 * (n - h * unit) <= unit,
        2 * (h * unit - n) == unit || 2 * (n - h * unit) == unit ==> h % 2 == 0,
        shown == h && exact == n || shown == -h && exact == -n,
    ensures
        -unit <= 2 * (shown * unit - exact) <= unit,
        2 * (shown * unit - exact) == unit || 2 * (shown * unit - exact) == -unit ==> shown % 2 == 0,
{
    if shown == -h {
        assert(shown * unit == -(h * unit)) by (nonlinear_arith)
            requires
                shown == -h,
        ;
    }
}

proof fn lemma_round_half_even_tie(n: nat, unit: nat)
    requires
        unit > 0,
    ensures
        2 * (round_half_even(n, unit) * unit - n) == unit || 2 * (n - round_half_even(n, unit)
            * unit) == unit ==> round_half_even(n, unit) % 2 == 0,
{
    let floor = n / unit;
    let rest = n % unit;
    assert(n == floor * unit + rest) by (nonlinear_arith)
        requires
            unit > 0,
            floor == n / unit,
            rest == n % unit,
    ;
    assert((floor + 1) * unit == floor * unit + unit) by (nonlinear_arith);
    assert(0 <= rest < unit) by (nonlinear_arith)
        requires
            unit > 0,
            rest == n % unit,
    ;
}

/// A percentage has exactly two places, behind the only point of its text.
pub proof fn law_pct_has_two_places(v: DecimalValue, value: Seq<char>)
    requires
        v.wf(),
        percent_of(v) is Some,
    ensures
        ({
            &&& pct_text(Some(v), value) matches Some(text)
            &&& text.len() >= 4
            &&& text[text.len() - 3] == '.'
            &&& is_digit(text[text.len() - 2])
            &&& is_digit(text[text.len() - 1])
            &&& forall|i: int|
                0 <= i < text.len() && i != text.len() - 3 ==> #[trigger] text[i] != '.'
        }),
{
    let shown = shown_pct(v);
    let hundredths = shown.mantissa;
    law_pct_shows_the_rate_in_hundredths(v, value);
    let text = shown.text();
    let sign = if shown.negative {
        seq!['-']
    } else {
        Seq::empty()
    };
    let whole = nat_text(hundredths / ten_pow(2));
    let places = padded_text(hundredths, 2);
    lemma_nat_text(hundredths / ten_pow(2));
    lemma_padded_text(hundredths, 2);
    assert(text == sign + whole + (seq!['.'] + places));
    assert forall|i: int| 0 <= i < text.len() && i != text.len() - 3 implies #[trigger] text[i]
        != '.' by {
        if i < sign.len() {
            assert(text[i] == sign[i]);
        } else if i < sign.len() + whole.len() {
            assert(text[i] == whole[i - sign.len()]);
        } else {
            assert(text[i] == places[i - sign.len() - whole.len() - 1]);
        }
    }
    assert(text[text.len() - 2] == places[0]);
    assert(text[text.len() - 1] == places[1]);
}

/// A run: `states[i]` answers `events[i]` with `steps[i]`, which leads to `states[i + 1]`.
pub open spec fn earn_run<E>(
    states: Seq<EarnState>,
    events: Seq<EarnEvent<E>>,
    steps: Seq<EarnStep<E>>,
) -> bool {
    &&& states.len() == events.len() + 1
    &&& steps.len() == events.len()
    &&& forall|i: int|
        0 <= i < steps.len() ==> earn_transition(states[i], events[i], #[trigger] steps[i])
            && states[i + 1] == steps[i].state
}

/// The step hands a transfer to the exchange.
pub open spec fn submits<E>(step: EarnStep<E>) -> bool {
    step.request matches Some(EarnRequest::Submit { .. })
}

/// The step ends the run.
pub open spec fn ends<E>(step: EarnStep<E>) -> bool {
    step.request matches Some(EarnRequest::Finish(_)) || step.request == Some(
        EarnRequest::<E>::RateOverflow,
    )
}

/// How far a run has come, from 0 to 4.
pub open spec fn stage(state: EarnState) -> int {
    match state {
        EarnState::FindingSigner { .. } => 0,
        EarnState::NamingToken { .. } => 1,
        EarnState::TakingNonce { .. } => 2,
        EarnState::Submitting { .. } => 3,
        EarnState::NamingReserve { .. } => 0,
        EarnState::ReadingReserve { .. } => 1,
        EarnState::ReadingUser { .. } => 2,
        EarnState::Finished => 4,
    }
}

/// The state belongs to a run of the transfer `cmd`.
pub open spec fn transfers(
    state: EarnState,
    cmd: EarnTransferCmd,
    operation: BorrowLendOperation,
) -> bool {
    match state {
        EarnState::FindingSigner { cmd: c, operation: o } => c == cmd && o == operation,
        EarnState::NamingToken { cmd: c, operation: o } => c == cmd && o == operation,
        EarnState::TakingNonce { cmd: c, operation: o } => c == cmd && o == operation,
        EarnState::Submitting { operation: o } => o == operation,
        EarnState::Finished => true,
        _ => false,
    }
}

/// The state belongs to a run of a query.
pub open spec fn queries(state: EarnState) -> bool {
    match state {
        EarnState::NamingReserve { .. } => true,
        EarnState::ReadingReserve { .. } => true,
        EarnState::ReadingUser { .. } => true,
        EarnState::Finished => true,
        _ => false,
    }
}

/// The state only waits for the name of a token.
pub open spec fn names(state: EarnState) -> bool {
    state is NamingToken || state is NamingReserve
}

pub(crate) proof fn lemma_stage<E>(
    states: Seq<EarnState>,
    events: Seq<EarnEvent<E>>,
    steps: Seq<EarnStep<E>>,
    i: int,
    j: int,
)
    requires
        earn_run(states, events, steps),
        0 <= i <= j < states.len(),
    ensures
        stage(states[i]) <= stage(states[j]),
    decreases j - i,
{
    if i < j {
        lemma_stage(states, events, steps, i, j - 1);
        assert(earn_transition(states[j - 1], events[j - 1], steps[j - 1]));
    }
}

proof fn lemma_transfers<E>(
    cmd: EarnTransferCmd,
    operation: BorrowLendOperation,
    states: Seq<EarnState>,
    events: Seq<EarnEvent<E>>,
    steps: Seq<EarnStep<E>>,
    i: int,
)
    requires
        earn_run(states, events, steps),
        transfers(states[0], cmd, operation),
        0 <= i < states.len(),
    ensures
        transfers(states[i], cmd, operation),
    decreases i,
{
    if i > 0 {
        lemma_transfers(cmd, operation, states, events, steps, i - 1);
        assert(earn_transition(states[i - 1], events[i - 1], steps[i - 1]));
    }
}

proof fn lemma_queries<E>(
    states: Seq<EarnState>,
    events: Seq<EarnEvent<E>>,
    steps: Seq<EarnStep<E>>,
    i: int,
)
    requires
        earn_run(states, events, steps),
        queries(states[0]),
        0 <= i < states.len(),
    ensures
        queries(states[i]),
    decreases i,
{
    if i > 0 {
        lemma_queries(states, events, steps, i - 1);
        assert(earn_transition(states[i - 1], events[i - 1], steps[i - 1]));
    }
}

/// The event is a reply, good or bad, to the request that the state waits for.
pub open spec fn answers<E>(state: EarnState, event: EarnEvent<E>) -> bool {
    match state {
        EarnState::FindingSigner { .. } => event is SignerFound || event is Failed,
        EarnState::NamingToken { .. } => event is SpotTokens || event is Failed,
        EarnState::TakingNonce { .. } => event is Nonce || event is Failed,
        EarnState::Submitting { .. } => event is Submitted || event is Failed,
        EarnState::NamingReserve { .. } => event is SpotTokens || event is Failed,
        EarnState::ReadingReserve { .. } => event is Reserve || event is Failed,
        EarnState::ReadingUser { .. } => event is User || event is Failed,
        EarnState::Finished => false,
    }
}

/// The replies that lead to a request are those to the outstanding one.
pub proof fn law_replies_are_answered<E>(state: EarnState, event: EarnEvent<E>, step: EarnStep<E>)
    requires
        earn_transition(state, event, step),
    ensures
        step.request is Some <==> answers(state, event),
{
}

/// Every request moves the run on and none is made twice, so a run makes at most four
/// requests after the one it starts with. A reply that leads to no request changes
/// nothing and prints nothing.
pub proof fn law_requests_move_on<E>(
    states: Seq<EarnState>,
    events: Seq<EarnEvent<E>>,
    steps: Seq<EarnStep<E>>,
    i: int,
    j: int,
)
    requires
        earn_run(states, events, steps),
        0 <= i < j < steps.len(),
    ensures
        steps[i].request is Some ==> stage(states[i]) < stage(states[j]) <= 4,
        steps[i].request is None ==> states[i + 1] == states[i] && steps[i].lines@.len() == 0,
{
    assert(earn_transition(states[i], events[i], steps[i]));
    lemma_stage(states, events, steps, i + 1, j);
}

/// A run hands over at most one transfer.
pub proof fn law_one_submission<E>(
    states: Seq<EarnState>,
    events: Seq<EarnEvent<E>>,
    steps: Seq<EarnStep<E>>,
    i: int,
    j: int,
)
    requires
        earn_run(states, events, steps),
        0 <= i < steps.len(),
        0 <= j < steps.len(),
        submits(steps[i]),
        submits(steps[j]),
    ensures
        i == j,
{
    let first = if i < j { i } else { j };
    let last = if i < j { j } else { i };
    assert(earn_transition(states[first], events[first], steps[first]));
    assert(earn_transition(states[last], events[last], steps[last]));
    if first < last {
        lemma_stage(states, events, steps, first + 1, last);
    }
}

/// What a transfer hands over is its own operation, token and amount, on its own chain.
pub proof fn law_submits_what_was_asked<E>(
    cmd: EarnTransferCmd,
    operation: BorrowLendOperation,
    states: Seq<EarnState>,
    events: Seq<EarnEvent<E>>,
    steps: Seq<EarnStep<E>>,
    i: int,
)
    requires
        earn_run(states, events, steps),
        states[0] == (EarnState::FindingSigner { cmd, operation }),
        0 <= i < steps.len(),
        submits(steps[i]),
    ensures
        steps[i].request matches Some(EarnRequest::Submit { chain, action, nonce }) && chain
            == cmd.signer.chain && action == (BorrowLendAction {
            operation,
            token: cmd.token,
            amount: cmd.amount,
        }) && events[i] == EarnEvent::<E>::Nonce(nonce),
{
    lemma_transfers(cmd, operation, states, events, steps, i);
    assert(earn_transition(states[i], events[i], steps[i]));
}

/// A transfer ends well only once the exchange has accepted what the run handed over
/// before, and then says so.
pub proof fn law_success_follows_submission<E>(
    cmd: EarnTransferCmd,
    operation: BorrowLendOperation,
    states: Seq<EarnState>,
    events: Seq<EarnEvent<E>>,
    steps: Seq<EarnStep<E>>,
    j: int,
)
    requires
        earn_run(states, events, steps),
        states[0] == (EarnState::FindingSigner { cmd, operation }),
        0 <= j < steps.len(),
        steps[j].request == Some(EarnRequest::<E>::Finish(Ok(()))),
    ensures
        events[j] is Submitted,
        exists|i: int| 0 <= i < j && submits(#[trigger] steps[i]),
        texts(steps[j].lines@) == seq![past_text(operation) + " successfully."@],
{
    lemma_transfers(cmd, operation, states, events, steps, j);
    assert(earn_transition(states[j], events[j], steps[j]));
    lemma_submitting_follows_submission(cmd, operation, states, events, steps, j);
}

proof fn lemma_submitting_follows_submission<E>(
    cmd: EarnTransferCmd,
    operation: BorrowLendOperation,
    states: Seq<EarnState>,
    events: Seq<EarnEvent<E>>,
    steps: Seq<EarnStep<E>>,
    j: int,
)
    requires
        earn_run(states, events, steps),
        states[0] == (EarnState::FindingSigner { cmd, operation }),
        0 <= j < states.len(),
        states[j] is Submitting,
    ensures
        exists|i: int| 0 <= i < j && submits(#[trigger] steps[i]),
    decreases j,
{
    assert(j > 0);
    assert(earn_transition(states[j - 1], events[j - 1], steps[j - 1]));
    if states[j - 1] is Submitting {
        lemma_submitting_follows_submission(cmd, operation, states, events, steps, j - 1);
    } else {
        assert(submits(steps[j - 1]));
    }
}

/// A query hands over nothing, and prints nothing before it ends well.
pub proof fn law_query_only_reads<E>(
    states: Seq<EarnState>,
    events: Seq<EarnEvent<E>>,
    steps: Seq<EarnStep<E>>,
    i: int,
)
    requires
        earn_run(states, events, steps),
        states[0] is NamingReserve,
        0 <= i < steps.len(),
    ensures
        !submits(steps[i]),
        steps[i].lines@.len() > 0 ==> steps[i].request == Some(EarnRequest::<E>::Finish(Ok(()))),
{
    lemma_queries(states, events, steps, i);
    assert(earn_transition(states[i], events[i], steps[i]));
    assert(texts(steps[i].lines@).len() == steps[i].lines@.len());
}

/// Once a run has ended it prints nothing and asks for nothing.
pub proof fn law_end_is_final<E>(
    states: Seq<EarnState>,
    events: Seq<EarnEvent<E>>,
    steps: Seq<EarnStep<E>>,
    i: int,
    j: int,
)
    requires
        earn_run(states, events, steps),
        0 <= i < j < steps.len(),
        ends(steps[i]),
    ensures
        steps[j].request is None,
        steps[j].lines@.len() == 0,
{
    assert(earn_transition(states[i], events[i], steps[i]));
    lemma_stage(states, events, steps, i + 1, j);
    assert(earn_transition(states[j], events[j], steps[j]));
}

/// A failed request ends a run that has not ended yet, with the failure itself and
/// without a line. The one exception is the request for the spot tokens: without them
/// the run goes on, and calls the token by its index.
pub proof fn law_failure_ends_the_run<E>(
    states: Seq<EarnState>,
    events: Seq<EarnEvent<E>>,
    steps: Seq<EarnStep<E>>,
    i: int,
    error: E,
)
    requires
        earn_run(states, events, steps),
        0 <= i < steps.len(),
        states[i] !is Finished,
        events[i] == EarnEvent::Failed(error),
    ensures
        !names(states[i]) ==> {
            &&& steps[i].request == Some(EarnRequest::Finish(Err::<(), E>(error)))
            &&& steps[i].lines@.len() == 0
            &&& states[i + 1] is Finished
        },
        names(states[i]) ==> !ends(steps[i]) && states[i + 1] !is Finished,
{
    assert(earn_transition(states[i], events[i], steps[i]));
    assert(texts(steps[i].lines@).len() == steps[i].lines@.len());
}

/// A supply or withdrawal starts as a transfer with its own operation, a status query
/// as a query.
pub proof fn law_commands_start_apart<E>(cmd: EarnCmd, step: EarnStep<E>)
    requires
        cmd.starts_with(step),
    ensures
        cmd is Status <==> queries(step.state),
        cmd matches EarnCmd::Supply(t) ==> transfers(
            step.state,
            t,
            BorrowLendOperation::Supply,
        ),
        cmd matches EarnCmd::Withdraw(t) ==> transfers(
            step.state,
            t,
            BorrowLendOperation::Withdraw,
        ),
{
}

} // verus!
