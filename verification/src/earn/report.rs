//! The status report: the rates of a reserve and a user's position in it.
use super::laws::law_pct_is_a_percentage;
use super::pct::{pct_text, try_format_pct};
use crate::decimal::{mantissa_limit, parsed_decimal, ten_pow};
use crate::text::{nat_text, texts, u32_text};
use vstd::prelude::*;
use vstd::string::*;

verus! {

/// Reserve-level rate and liquidity state.
#[derive(Debug, PartialEq, Eq)]
pub struct ReserveState {
    pub borrow_yearly_rate: String,
    pub supply_yearly_rate: String,
    pub total_supplied: String,
    pub total_borrowed: String,
    pub utilization: String,
    pub oracle_px: String,
}

/// A user's aggregate borrow/lend state.
#[derive(Debug, PartialEq, Eq)]
pub struct UserState {
    pub token_to_state: Vec<(u32, TokenState)>,
    pub health: String,
}

/// A user's position in one reserve.
#[derive(Debug, PartialEq, Eq)]
pub struct TokenState {
    pub supply: Option<Side>,
    pub borrow: Option<Side>,
}

/// One side of a position.
#[derive(Debug, PartialEq, Eq)]
pub struct Side {
    pub value: String,
}

/// The first entry for `token`.
pub open spec fn first_state(entries: Seq<(u32, TokenState)>, token: u32) -> Option<TokenState>
    decreases entries.len(),
{
    if entries.len() == 0 {
        None
    } else if entries[0].0 == token {
        Some(entries[0].1)
    } else {
        first_state(entries.drop_first(), token)
    }
}

/// The value of one side of a position, `0` where there is none.
pub open spec fn side_text(side: Option<Side>) -> Seq<char> {
    match side {
        Some(side) => side.value@,
        None => "0"@,
    }
}

/// What a user has supplied to the reserve of `token`, `0` without a position in it.
pub open spec fn supplied_text(user: UserState, token: u32) -> Seq<char> {
    match first_state(user.token_to_state@, token) {
        Some(state) => side_text(state.supply),
        None => "0"@,
    }
}

/// What a user has borrowed from the reserve of `token`, `0` without a position in it.
pub open spec fn borrowed_text(user: UserState, token: u32) -> Seq<char> {
    match first_state(user.token_to_state@, token) {
        Some(state) => side_text(state.borrow),
        None => "0"@,
    }
}

/// How a rate is shown, `None` where it is too large for a percentage.
pub open spec fn rate_text(rate: String) -> Option<Seq<char>> {
    pct_text(parsed_decimal(rate@), rate@)
}

/// The lines of the report, given the three rates as they are shown.
pub open spec fn report_lines(
    name: Seq<char>,
    token: u32,
    reserve: ReserveState,
    user: UserState,
    supply_apy: Seq<char>,
    borrow_apy: Seq<char>,
    utilization: Seq<char>,
) -> Seq<Seq<char>> {
    seq![
        "Reserve: "@ + name + " (token "@ + nat_text(token as nat) + ")"@,
        "Supply APY: "@ + supply_apy + "%"@,
        "Borrow APY: "@ + borrow_apy + "%"@,
        "Utilization: "@ + utilization + "%"@,
        "Total Supplied: "@ + reserve.total_supplied@ + " "@ + name,
        "Total Borrowed: "@ + reserve.total_borrowed@ + " "@ + name,
        "Oracle Price: $"@ + reserve.oracle_px@,
        Seq::empty(),
        "Your Position:"@,
        "  Supplied: "@ + supplied_text(user, token) + " "@ + name,
        "  Borrowed: "@ + borrowed_text(user, token) + " "@ + name,
        "  Health: "@ + user.health@,
    ]
}

/// The report, `None` where a rate is too large for a percentage.
pub open spec fn report_text(
    name: Seq<char>,
    token: u32,
    reserve: ReserveState,
    user: UserState,
) -> Option<Seq<Seq<char>>> {
    match (
        rate_text(reserve.supply_yearly_rate),
        rate_text(reserve.borrow_yearly_rate),
        rate_text(reserve.utilization),
    ) {
        (Some(supply_apy), Some(borrow_apy), Some(utilization)) => Some(
            report_lines(name, token, reserve, user, supply_apy, borrow_apy, utilization),
        ),
        _ => None,
    }
}

/// What an optional block of lines reads.
pub open spec fn opt_texts(lines: Option<Vec<String>>) -> Option<Seq<Seq<char>>> {
    match lines {
        Some(lines) => Some(texts(lines@)),
        None => None,
    }
}

/// `i` is the place of the first entry for `token`.
pub open spec fn entry_at(entries: Seq<(u32, TokenState)>, token: u32, i: int) -> bool {
    &&& 0 <= i < entries.len()
    &&& entries[i].0 == token
    &&& forall|h: int| 0 <= h < i ==> (#[trigger] entries[h]).0 != token
}

/// There is no entry for `token`.
pub open spec fn no_entry(entries: Seq<(u32, TokenState)>, token: u32) -> bool {
    forall|h: int| 0 <= h < entries.len() ==> (#[trigger] entries[h]).0 != token
}

/// `supplied` and `borrowed` are the values of the user's position in the reserve of
/// `token`: those of the first entry for it. Only a side that is missing there, or in a
/// user without an entry, reads `0`.
pub open spec fn is_position(
    supplied: Seq<char>,
    borrowed: Seq<char>,
    user: UserState,
    token: u32,
) -> bool {
    let entries = user.token_to_state@;
    &&& forall|i: int| #[trigger]
        entry_at(entries, token, i) ==> {
            &&& entries[i].1.supply matches Some(side) ==> supplied == side.value@
            &&& entries[i].1.supply is None ==> supplied == seq!['0']
            &&& entries[i].1.borrow matches Some(side) ==> borrowed == side.value@
            &&& entries[i].1.borrow is None ==> borrowed == seq!['0']
        }
    &&& no_entry(entries, token) ==> supplied == seq!['0'] && borrowed == seq!['0']
}

/// A position is what the first entry for its token says, on both sides. Only a side that
/// is missing there, or in a user without an entry, reads `0`.
pub proof fn law_position_is_the_first_entry(user: UserState, token: u32, i: int)
    ensures
        ({
            let entries = user.token_to_state@;
            &&& 0 <= i < entries.len() && entries[i].0 == token && (forall|h: int|
                0 <= h < i ==> (#[trigger] entries[h]).0 != token) ==> {
                &&& entries[i].1.supply matches Some(side) ==> supplied_text(user, token)
                    == side.value@
                &&& entries[i].1.supply is None ==> supplied_text(user, token) == "0"@
                &&& entries[i].1.borrow matches Some(side) ==> borrowed_text(user, token)
                    == side.value@
                &&& entries[i].1.borrow is None ==> borrowed_text(user, token) == "0"@
            }
            &&& (forall|h: int| 0 <= h < entries.len() ==> (#[trigger] entries[h]).0 != token) ==> {
                &&& supplied_text(user, token) == "0"@
                &&& borrowed_text(user, token) == "0"@
            }
        }),
{
    let entries = user.token_to_state@;
    lemma_first_state(entries, token);
    if 0 <= i < entries.len() && entries[i].0 == token && (forall|h: int|
        0 <= h < i ==> (#[trigger] entries[h]).0 != token) {
        assert(entry_at(entries, token, i));
    }
    if forall|h: int| 0 <= h < entries.len() ==> (#[trigger] entries[h]).0 != token {
        assert(no_entry(entries, token));
    }
}

proof fn lemma_is_position(user: UserState, token: u32)
    ensures
        is_position(supplied_text(user, token), borrowed_text(user, token), user, token),
{
    reveal_strlit("0");
    assert("0"@ =~= seq!['0']);
    lemma_first_state(user.token_to_state@, token);
}

proof fn lemma_first_state(entries: Seq<(u32, TokenState)>, token: u32)
    ensures
        match first_state(entries, token) {
            Some(found) => {
                &&& !no_entry(entries, token)
                &&& forall|i: int| #[trigger] entry_at(entries, token, i) ==> entries[i].1 == found
            },
            None => forall|i: int| !#[trigger] entry_at(entries, token, i),
        },
    decreases entries.len(),
{
    if entries.len() > 0 {
        let rest = entries.drop_first();
        if entries[0].0 != token {
            lemma_first_state(rest, token);
            assert forall|i: int| #[trigger] entry_at(entries, token, i) implies entry_at(
                rest,
                token,
                i - 1,
            ) && rest[i - 1] == entries[i] by {
                assert forall|h: int| 0 <= h < i - 1 implies (#[trigger] rest[h]).0 != token by {
                    assert(rest[h] == entries[h + 1]);
                }
            }
            if first_state(entries, token) is Some {
                let h = choose|h: int| 0 <= h < rest.len() && (#[trigger] rest[h]).0 == token;
                assert(entries[h + 1].0 == token);
            }
        } else {
            assert forall|i: int| #[trigger] entry_at(entries, token, i) implies i == 0 by {
                if i > 0 {
                    assert(entries[0].0 != token);
                }
            }
        }
    }
}

/// A number that the rate reads as, if any, is a decimal number.
pub open spec fn readable(rate: Seq<char>) -> bool {
    parsed_decimal(rate) matches Some(v) ==> v.wf()
}

/// The three rates are readable.
pub open spec fn rates_readable(reserve: ReserveState) -> bool {
    &&& readable(reserve.supply_yearly_rate@)
    &&& readable(reserve.borrow_yearly_rate@)
    &&& readable(reserve.utilization@)
}

/// Every line of a laid out report, from what it is given: the name and index of the
/// token, the three rates, the totals, the price, the position that the entry `e` is the
/// first to tell of, and the health.
pub proof fn law_report_line_by_line(
    name: Seq<char>,
    token: u32,
    reserve: ReserveState,
    user: UserState,
    supply_apy: Seq<char>,
    borrow_apy: Seq<char>,
    utilization: Seq<char>,
    e: int,
)
    ensures
        ({
            let entries = user.token_to_state@;
            let lines = report_lines(
                name,
                token,
                reserve,
                user,
                supply_apy,
                borrow_apy,
                utilization,
            );
            &&& lines.len() == 12
            &&& lines[0] == "Reserve: "@ + name + " (token "@ + nat_text(token as nat) + ")"@
            &&& lines[1] == "Supply APY: "@ + supply_apy + "%"@
            &&& lines[2] == "Borrow APY: "@ + borrow_apy + "%"@
            &&& lines[3] == "Utilization: "@ + utilization + "%"@
            &&& lines[4] == "Total Supplied: "@ + reserve.total_supplied@ + " "@ + name
            &&& lines[5] == "Total Borrowed: "@ + reserve.total_borrowed@ + " "@ + name
            &&& lines[6] == "Oracle Price: $"@ + reserve.oracle_px@
            &&& lines[7].len() == 0
            &&& lines[8] == "Your Position:"@
            &&& 0 <= e < entries.len() && entries[e].0 == token && (forall|h: int|
                0 <= h < e ==> (#[trigger] entries[h]).0 != token) ==> {
                &&& entries[e].1.supply matches Some(side) ==> lines[9] == "  Supplied: "@
                    + side.value@ + " "@ + name
                &&& entries[e].1.supply is None ==> lines[9] == "  Supplied: "@ + "0"@ + " "@ + name
                &&& entries[e].1.borrow matches Some(side) ==> lines[10] == "  Borrowed: "@
                    + side.value@ + " "@ + name
                &&& entries[e].1.borrow is None ==> lines[10] == "  Borrowed: "@ + "0"@ + " "@ + name
            }
            &&& (forall|h: int| 0 <= h < entries.len() ==> (#[trigger] entries[h]).0 != token) ==> {
                &&& lines[9] == "  Supplied: "@ + "0"@ + " "@ + name
                &&& lines[10] == "  Borrowed: "@ + "0"@ + " "@ + name
            }
            &&& lines[11] == "  Health: "@ + user.health@
        }),
{
    law_position_is_the_first_entry(user, token, e);
}

/// A report shows the percentages of the supply rate, the borrow rate and the utilization,
/// each in its place. There is no report exactly where one of the three, as a number, is
/// too large for a percentage.
pub proof fn law_report_shows_the_three_rates(
    name: Seq<char>,
    token: u32,
    reserve: ReserveState,
    user: UserState,
)
    requires
        rates_readable(reserve),
    ensures
        ({
            let supply = reserve.supply_yearly_rate@;
            let borrow = reserve.borrow_yearly_rate@;
            let used = reserve.utilization@;
            let report = report_text(name, token, reserve, user);
            &&& report is None <==> {
                ||| parsed_decimal(supply) matches Some(v) && 100 * v.mantissa >= mantissa_limit()
                    * ten_pow(v.scale)
                ||| parsed_decimal(borrow) matches Some(v) && 100 * v.mantissa >= mantissa_limit()
                    * ten_pow(v.scale)
                ||| parsed_decimal(used) matches Some(v) && 100 * v.mantissa >= mantissa_limit()
                    * ten_pow(v.scale)
            }
            &&& report matches Some(lines) ==> {
                &&& lines.len() == 12
                &&& lines[1] == "Supply APY: "@ + pct_text(parsed_decimal(supply), supply)->0 + "%"@
                &&& lines[2] == "Borrow APY: "@ + pct_text(parsed_decimal(borrow), borrow)->0 + "%"@
                &&& lines[3] == "Utilization: "@ + pct_text(parsed_decimal(used), used)->0 + "%"@
            }
        }),
{
    law_pct_is_a_percentage(
        parsed_decimal(reserve.supply_yearly_rate@),
        reserve.supply_yearly_rate@,
    );
    law_pct_is_a_percentage(
        parsed_decimal(reserve.borrow_yearly_rate@),
        reserve.borrow_yearly_rate@,
    );
    law_pct_is_a_percentage(parsed_decimal(reserve.utilization@), reserve.utilization@);
}

fn find_state(entries: &Vec<(u32, TokenState)>, token: u32) -> (r: Option<&TokenState>)
    ensures
        match r {
            Some(state) => first_state(entries@, token) == Some(*state),
            None => first_state(entries@, token) is None,
        },
{
    let mut i: usize = 0;
    assert(entries@.skip(0) =~= entries@);
    while i < entries.len()
        invariant
            i <= entries@.len(),
            first_state(entries@, token) == first_state(entries@.skip(i as int), token),
        decreases entries@.len() - i,
    {
        assert(entries@.skip(i as int)[0] == entries@[i as int]);
        if entries[i].0 == token {
            return Some(&entries[i].1);
        }
        assert(entries@.skip(i as int).drop_first() =~= entries@.skip(i + 1));
        i = i + 1;
    }
    None
}

fn side_value(side: &Option<Side>) -> (r: String)
    ensures
        r@ == side_text(*side),
{
    match side {
        Some(side) => side.value.clone(),
        None => "0".to_owned(),
    }
}

/// The values of the two sides of a user's position in the reserve of `token`, `0` for
/// a side that is missing.
pub fn position(user: &UserState, token: u32) -> (r: (String, String))
    ensures
        r.0@ == supplied_text(*user, token),
        r.1@ == borrowed_text(*user, token),
        is_position(r.0@, r.1@, *user, token),
{
    proof {
        lemma_is_position(*user, token);
    }
    match find_state(&user.token_to_state, token) {
        Some(state) => (side_value(&state.supply), side_value(&state.borrow)),
        None => ("0".to_owned(), "0".to_owned()),
    }
}

/// Lays out the report from the three rates as they are shown.
pub fn layout_report(
    name: &str,
    token: u32,
    reserve: &ReserveState,
    user: &UserState,
    supply_apy: &str,
    borrow_apy: &str,
    utilization: &str,
) -> (r: Vec<String>)
    ensures
        texts(r@) == report_lines(
            name@,
            token,
            *reserve,
            *user,
            supply_apy@,
            borrow_apy@,
            utilization@,
        ),
{
    let (supplied, borrowed) = position(user, token);
    let mut lines: Vec<String> = Vec::new();
    lines.push(
        "Reserve: ".to_owned().concat(name).concat(" (token ").concat(
            u32_text(token).as_str(),
        ).concat(")"),
    );
    lines.push("Supply APY: ".to_owned().concat(supply_apy).concat("%"));
    lines.push("Borrow APY: ".to_owned().concat(borrow_apy).concat("%"));
    lines.push("Utilization: ".to_owned().concat(utilization).concat("%"));
    lines.push(
        "Total Supplied: ".to_owned().concat(reserve.total_supplied.as_str()).concat(" ").concat(
            name,
        ),
    );
    lines.push(
        "Total Borrowed: ".to_owned().concat(reserve.total_borrowed.as_str()).concat(" ").concat(
            name,
        ),
    );
    lines.push("Oracle Price: $".to_owned().concat(reserve.oracle_px.as_str()));
    lines.push(String::new());
    lines.push("Your Position:".to_owned());
    lines.push("  Supplied: ".to_owned().concat(supplied.as_str()).concat(" ").concat(name));
    lines.push("  Borrowed: ".to_owned().concat(borrowed.as_str()).concat(" ").concat(name));
    lines.push("  Health: ".to_owned().concat(user.health.as_str()));
    assert(texts(lines@) =~= report_lines(
        name@,
        token,
        *reserve,
        *user,
        supply_apy@,
        borrow_apy@,
        utilization@,
    ));
    lines
}

/// The status report on the reserve of `token`, which is called `name`. `None` where a
/// rate is too large for a percentage.
pub fn status_report(name: &str, token: u32, reserve: &ReserveState, user: &UserState) -> (r: Option<
    Vec<String>,
>)
    ensures
        opt_texts(r) == report_text(name@, token, *reserve, *user),
        rates_readable(*reserve),
{
    let supply_apy = try_format_pct(reserve.supply_yearly_rate.as_str());
    let borrow_apy = try_format_pct(reserve.borrow_yearly_rate.as_str());
    let utilization = try_format_pct(reserve.utilization.as_str());
    match (supply_apy, borrow_apy, utilization) {
        (Some(supply_apy), Some(borrow_apy), Some(utilization)) => Some(
            layout_report(
                name,
                token,
                reserve,
                user,
                supply_apy.as_str(),
                borrow_apy.as_str(),
                utilization.as_str(),
            ),
        ),
        _ => None,
    }
}

} // verus!
