//! Account addresses.
use crate::text::digit_char;
use vstd::prelude::*;

verus! {

/// An account address of twenty bytes.
#[derive(Clone, Copy, Debug, PartialEq, Eq)]
pub struct Address {
    pub bytes: [u8; 20],
}

/// The `i`th hexadecimal digit of `bytes`, the high half of each byte first.
pub open spec fn nibble(bytes: Seq<u8>, i: int) -> nat {
    if i % 2 == 0 {
        (bytes[i / 2] / 16) as nat
    } else {
        (bytes[i / 2] % 16) as nat
    }
}

/// `c` writes the hexadecimal digit `n`, in either case.
pub open spec fn writes_nibble(c: char, n: nat) -> bool {
    if n < 10 {
        c == digit_char(n)
    } else {
        c == (87 + n) as char || c == (55 + n) as char
    }
}

/// `text` is `0x` and the hexadecimal digits of `bytes`, letters in either case.
pub open spec fn is_address_text(bytes: Seq<u8>, text: Seq<char>) -> bool {
    &&& text.len() == 2 + 2 * bytes.len()
    &&& text[0] == '0'
    &&& text[1] == 'x'
    &&& forall|i: int|
        0 <= i < 2 * bytes.len() ==> writes_nibble(#[trigger] text[2 + i], nibble(bytes, i))
}

/// What `alloy::primitives::Address` shows for twenty bytes: their hexadecimal digits
/// with the case of each letter set by the checksum of EIP-55.
pub uninterp spec fn checksum_text(bytes: Seq<u8>) -> Seq<char>;

/// Calls the `to_string` that `alloy::primitives::Address` has from its `Display`.
///
/// Claimed of it: the result depends on the bytes alone, and is `0x` followed by their
/// hexadecimal digits. Which letters are capitals is named, not described.
#[verifier::external_body]
pub(crate) fn address_text(address: Address) -> (r: String)
    ensures
        r@ == checksum_text(address.bytes@),
        is_address_text(address.bytes@, r@),
{
    alloy::primitives::Address::new(address.bytes).to_string()
}

/// The value of a hexadecimal digit, in either case.
pub open spec fn hex_value(c: char) -> int {
    if 'a' <= c <= 'f' {
        c as int - 'a' as int + 10
    } else if 'A' <= c <= 'F' {
        c as int - 'A' as int + 10
    } else {
        c as int - '0' as int
    }
}

/// `text` is `0x` and two hexadecimal digits for each byte, which read as that byte.
pub open spec fn spells_address(text: Seq<char>, bytes: Seq<u8>) -> bool {
    &&& text.len() == 2 + 2 * bytes.len()
    &&& text[0] == '0' && text[1] == 'x'
    &&& forall|j: int|
        0 <= j < bytes.len() ==> 16 * hex_value(text[2 + 2 * j]) + hex_value(text[3 + 2 * j])
            == #[trigger] bytes[j]
}

/// The text of an address reads back, byte by byte, as that address.
pub proof fn law_address_text_spells_the_address(bytes: Seq<u8>, text: Seq<char>)
    requires
        is_address_text(bytes, text),
    ensures
        spells_address(text, bytes),
{
    assert forall|j: int| 0 <= j < bytes.len() implies 16 * hex_value(text[2 + 2 * j]) + hex_value(
        text[3 + 2 * j],
    ) == #[trigger] bytes[j] by {
        let high = 2 * j;
        let low = 2 * j + 1;
        assert(high / 2 == j && low / 2 == j);
        assert(writes_nibble(text[2 + high], nibble(bytes, high)));
        assert(writes_nibble(text[2 + low], nibble(bytes, low)));
    }
}

/// Two addresses never share a text.
pub proof fn law_address_text_identifies(a: Seq<u8>, b: Seq<u8>, text: Seq<char>)
    requires
        is_address_text(a, text),
        is_address_text(b, text),
    ensures
        a == b,
{
    assert forall|j: int| 0 <= j < a.len() implies a[j] == b[j] by {
        let high = 2 * j;
        let low = 2 * j + 1;
        assert(writes_nibble(text[2 + high], nibble(a, high)));
        assert(writes_nibble(text[2 + high], nibble(b, high)));
        assert(writes_nibble(text[2 + low], nibble(a, low)));
        assert(writes_nibble(text[2 + low], nibble(b, low)));
        assert(high / 2 == j && low / 2 == j);
    }
    assert(a =~= b);
}

} // verus!
