//! Lowercase hexadecimal text for byte strings.

use vstd::prelude::*;
use vstd::string::*;

verus! {

/// The digit that stands for `nibble`, which is meant to lie in `0..16`.
pub open spec fn hex_digit(nibble: int) -> char {
    "0123456789abcdef"@[nibble]
}

/// Whether `c` is one of `0`-`9` or `a`-`f`.
pub open spec fn is_lower_hex(c: char) -> bool {
    ('0' <= c && c <= '9') || ('a' <= c && c <= 'f')
}

/// Two digits per byte, the high half first.
pub open spec fn lower_hex(bytes: Seq<u8>) -> Seq<char> {
    Seq::new(
        2 * bytes.len(),
        |i: int| hex_digit(if i % 2 == 0 { bytes[i / 2] as int / 16 } else { bytes[i / 2] as int % 16 }),
    )
}

/// Every digit is lowercase, and distinct nibbles have distinct digits.
pub proof fn lemma_hex_digit(nibble: int)
    requires
        0 <= nibble < 16,
    ensures
        is_lower_hex(hex_digit(nibble)),
        forall|other: int| 0 <= other < 16 && hex_digit(other) == hex_digit(nibble) ==> other == nibble,
{
    reveal_strlit("0123456789abcdef");
}

/// The text of `n` bytes has `2 * n` characters, each a lowercase digit.
pub proof fn lemma_lower_hex_shape(bytes: Seq<u8>)
    ensures
        lower_hex(bytes).len() == 2 * bytes.len(),
        forall|i: int| 0 <= i < lower_hex(bytes).len() ==> is_lower_hex(#[trigger] lower_hex(bytes)[i]),
{
    assert forall|i: int| 0 <= i < lower_hex(bytes).len() implies is_lower_hex(
        #[trigger] lower_hex(bytes)[i],
    ) by {
        let b = bytes[i / 2] as int;
        lemma_hex_digit(b / 16);
        lemma_hex_digit(b % 16);
    }
}

/// Distinct byte strings have distinct texts.
pub proof fn lemma_lower_hex_injective(a: Seq<u8>, b: Seq<u8>)
    requires
        lower_hex(a) == lower_hex(b),
    ensures
        a == b,
{
    assert(lower_hex(a).len() == 2 * a.len());
    assert(lower_hex(b).len() == 2 * b.len());
    assert forall|k: int| 0 <= k < a.len() implies a[k] == b[k] by {
        let x = a[k] as int;
        let y = b[k] as int;
        assert(lower_hex(a)[2 * k] == hex_digit(x / 16));
        assert(lower_hex(b)[2 * k] == hex_digit(y / 16));
        assert(lower_hex(a)[2 * k + 1] == hex_digit(x % 16));
        assert(lower_hex(b)[2 * k + 1] == hex_digit(y % 16));
        lemma_hex_digit(x / 16);
        lemma_hex_digit(x % 16);
    }
    assert(a =~= b);
}

/// Renders `bytes` as lowercase hexadecimal text.
pub fn to_lower_hex(bytes: &[u8]) -> (text: String)
    ensures
        text@ == lower_hex(bytes@),
{
    let digits = "0123456789abcdef";
    proof {
        reveal_strlit("0123456789abcdef");
    }
    let mut text = String::new();
    let mut i: usize = 0;
    while i < bytes.len()
        invariant
            i <= bytes.len(),
            digits@ == "0123456789abcdef"@,
            digits.is_ascii(),
            digits@.len() == 16,
            text@ == lower_hex(bytes@.take(i as int)),
        decreases bytes.len() - i,
    {
        let byte: u8 = bytes[i];
        let high: usize = (byte / 16) as usize;
        let low: usize = (byte % 16) as usize;
        text.append(digits.substring_ascii(high, high + 1));
        text.append(digits.substring_ascii(low, low + 1));
        i += 1;
    }
    text
}

} // verus!
