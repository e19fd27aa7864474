//! Decimal digits as text.
use vstd::prelude::*;
use vstd::string::*;

verus! {

/// The character of the decimal digit `d`.
pub open spec fn digit_char(d: nat) -> char {
    (48 + d) as char
}

/// The decimal digits of `n`, without leading zeros.
pub open spec fn nat_text(n: nat) -> Seq<char>
    decreases n,
{
    if n < 10 {
        seq![digit_char(n)]
    } else {
        nat_text(n / 10).push(digit_char(n % 10))
    }
}

/// The last `places` decimal digits of `n`, leading zeros kept.
pub open spec fn padded_text(n: nat, places: nat) -> Seq<char>
    decreases places,
{
    if places == 0 {
        Seq::empty()
    } else {
        padded_text(n / 10, (places - 1) as nat).push(digit_char(n % 10))
    }
}

/// `true` for the characters `0` to `9`.
pub open spec fn is_digit(c: char) -> bool {
    '0' <= c <= '9'
}

/// What each line of a printed block reads.
pub open spec fn texts(lines: Seq<String>) -> Seq<Seq<char>> {
    Seq::new(lines.len(), |i: int| lines[i]@)
}

/// `padded_text` has as many characters as it has places, all of them digits.
pub proof fn lemma_padded_text(n: nat, places: nat)
    ensures
        padded_text(n, places).len() == places,
        forall|i: int| 0 <= i < places ==> is_digit(#[trigger] padded_text(n, places)[i]),
    decreases places,
{
    if places > 0 {
        lemma_padded_text(n / 10, (places - 1) as nat);
        let head = padded_text(n / 10, (places - 1) as nat);
        assert forall|i: int| 0 <= i < places implies is_digit(
            #[trigger] padded_text(n, places)[i],
        ) by {
            if i < places - 1 {
                assert(padded_text(n, places)[i] == head[i]);
            }
        }
    }
}

/// `nat_text` is never empty and holds digits only.
pub proof fn lemma_nat_text(n: nat)
    ensures
        nat_text(n).len() >= 1,
        forall|i: int| 0 <= i < nat_text(n).len() ==> is_digit(#[trigger] nat_text(n)[i]),
    decreases n,
{
    if n >= 10 {
        lemma_nat_text(n / 10);
        let head = nat_text(n / 10);
        assert forall|i: int| 0 <= i < nat_text(n).len() implies is_digit(
            #[trigger] nat_text(n)[i],
        ) by {
            if i < head.len() {
                assert(nat_text(n)[i] == head[i]);
            }
        }
    }
}

/// The number that a row of decimal digits writes.
pub open spec fn digits_value(digits: Seq<char>) -> int
    decreases digits.len(),
{
    if digits.len() == 0 {
        0
    } else {
        10 * digits_value(digits.drop_last()) + (digits.last() as int - '0' as int)
    }
}

/// `text` writes `n` in decimal: digits only, and no zero in front of another digit.
pub open spec fn writes(text: Seq<char>, n: int) -> bool {
    &&& text.len() >= 1
    &&& forall|i: int| 0 <= i < text.len() ==> is_digit(#[trigger] text[i])
    &&& text.len() > 1 ==> text[0] != '0'
    &&& digits_value(text) == n
}

/// The decimal digits of a number read as that number.
pub proof fn law_nat_text_writes_the_number(n: nat)
    ensures
        writes(nat_text(n), n as int),
        digits_value(nat_text(n)) == n,
        nat_text(n).len() >= 1,
        nat_text(n).len() > 1 ==> nat_text(n)[0] != '0',
        forall|i: int| 0 <= i < nat_text(n).len() ==> '0' <= #[trigger] nat_text(n)[i] <= '9',
    decreases n,
{
    lemma_nat_text(n);
    let text = nat_text(n);
    if n < 10 {
        assert(text.drop_last() =~= Seq::empty());
        assert(digits_value(text.drop_last()) == 0);
    } else {
        law_nat_text_writes_the_number(n / 10);
        let head = nat_text(n / 10);
        assert(text.drop_last() =~= head);
        assert(text[0] == head[0]);
        if head.len() == 1 {
            assert(head.drop_last() =~= Seq::empty());
            assert(digits_value(head.drop_last()) == 0);
        }
    }
}

/// Two numbers never share a text.
pub proof fn law_text_identifies_the_number(n: nat, m: nat)
    requires
        nat_text(n) == nat_text(m),
    ensures
        n == m,
{
    law_nat_text_writes_the_number(n);
    law_nat_text_writes_the_number(m);
}

fn digit_str(d: u32) -> (r: &'static str)
    requires
        d < 10,
    ensures
        r@ == seq![digit_char(d as nat)],
{
    proof {
        reveal_strlit("0");
        reveal_strlit("1");
        reveal_strlit("2");
        reveal_strlit("3");
        reveal_strlit("4");
        reveal_strlit("5");
        reveal_strlit("6");
        reveal_strlit("7");
        reveal_strlit("8");
        reveal_strlit("9");
    }
    if d == 0 {
        "0"
    } else if d == 1 {
        "1"
    } else if d == 2 {
        "2"
    } else if d == 3 {
        "3"
    } else if d == 4 {
        "4"
    } else if d == 5 {
        "5"
    } else if d == 6 {
        "6"
    } else if d == 7 {
        "7"
    } else if d == 8 {
        "8"
    } else {
        "9"
    }
}

/// Writes `n` in decimal.
pub fn u32_text(n: u32) -> (r: String)
    ensures
        r@ == nat_text(n as nat),
    decreases n,
{
    if n < 10 {
        digit_str(n).to_owned()
    } else {
        u32_text(n / 10).concat(digit_str(n % 10))
    }
}

} // verus!
