//! Lower-case base16 text of bytes, and its reading back.

use vstd::prelude::*;

verus! {

/// The character that stands for a nibble (`0..16`) in lower-case base16.
pub open spec fn hex_digit(n: int) -> char {
    if n < 10 {
        ((n + 48) as u32) as char
    } else {
        ((n + 87) as u32) as char
    }
}

/// Whether `c` is a base16 digit, in either case.
pub open spec fn is_hex_char(c: char) -> bool {
    ('0' <= c && c <= '9') || ('a' <= c && c <= 'f') || ('A' <= c && c <= 'F')
}

/// The nibble that a base16 digit stands for.
pub open spec fn hex_value(c: char) -> int {
    if '0' <= c && c <= '9' {
        c as int - 48
    } else if 'a' <= c && c <= 'f' {
        c as int - 87
    } else {
        c as int - 55
    }
}

/// The lower-case form of a base16 digit.
pub open spec fn hex_lower_char(c: char) -> char {
    if 'A' <= c && c <= 'F' {
        ((c as int + 32) as u32) as char
    } else {
        c
    }
}

/// Lower-case base16 text of `bytes`: two digits per byte, high nibble first.
pub open spec fn hex_lower(bytes: Seq<u8>) -> Seq<char> {
    Seq::new(
        (2 * bytes.len()) as nat,
        |i: int|
            if i % 2 == 0 {
                hex_digit(bytes[i / 2] as int / 16)
            } else {
                hex_digit(bytes[i / 2] as int % 16)
            },
    )
}

/// Whether every character of `s` is a base16 digit.
pub open spec fn all_hex(s: Seq<char>) -> bool {
    forall|i: int| 0 <= i < s.len() ==> #[trigger] is_hex_char(s[i])
}

/// The bytes that a base16 text of even length stands for.
pub open spec fn hex_bytes(s: Seq<char>) -> Seq<u8> {
    Seq::new(
        s.len() / 2,
        |i: int| (hex_value(s[2 * i]) * 16 + hex_value(s[2 * i + 1])) as u8,
    )
}

/// `s` with each upper-case base16 digit turned to lower case.
pub open spec fn hex_lowercase(s: Seq<char>) -> Seq<char> {
    s.map_values(|c: char| hex_lower_char(c))
}

/// A digit value written as a base16 digit is a lower-case digit that reads back as that value.
pub proof fn lemma_hex_digit_value(n: int)
    requires
        0 <= n < 16,
    ensures
        is_hex_char(hex_digit(n)),
        hex_value(hex_digit(n)) == n,
        'A' > hex_digit(n) || hex_digit(n) > 'F',
{
}

/// A base16 digit read as a value and written again is that digit in lower case.
pub proof fn lemma_hex_value_digit(c: char)
    requires
        is_hex_char(c),
    ensures
        0 <= hex_value(c) < 16,
        hex_digit(hex_value(c)) == hex_lower_char(c),
{
}

/// Reading back lower-case base16 text gives the bytes it was made from.
pub proof fn lemma_hex_roundtrip(bytes: Seq<u8>)
    ensures
        hex_lower(bytes).len() == 2 * bytes.len(),
        all_hex(hex_lower(bytes)),
        hex_bytes(hex_lower(bytes)) =~= bytes,
{
    let h = hex_lower(bytes);
    assert forall|i: int| 0 <= i < h.len() implies #[trigger] is_hex_char(h[i]) by {
        if i % 2 == 0 {
            lemma_hex_digit_value(bytes[i / 2] as int / 16);
        } else {
            lemma_hex_digit_value(bytes[i / 2] as int % 16);
        }
    }
    assert forall|i: int| 0 <= i < bytes.len() implies #[trigger] hex_bytes(h)[i] == bytes[i] by {
        lemma_hex_digit_value(bytes[i] as int / 16);
        lemma_hex_digit_value(bytes[i] as int % 16);
        assert(h[2 * i] == hex_digit(bytes[i] as int / 16));
        assert(h[2 * i + 1] == hex_digit(bytes[i] as int % 16));
    }
}

/// Lower-case base16 text is injective: different bytes give different text.
pub proof fn lemma_hex_lower_injective(a: Seq<u8>, b: Seq<u8>)
    ensures
        hex_lower(a) == hex_lower(b) <==> a == b,
{
    if hex_lower(a) == hex_lower(b) {
        lemma_hex_roundtrip(a);
        lemma_hex_roundtrip(b);
    }
}

/// Writing back the bytes that a base16 text stands for gives that text in lower case.
pub proof fn lemma_hex_bytes_relower(s: Seq<char>)
    requires
        s.len() % 2 == 0,
        all_hex(s),
    ensures
        hex_lower(hex_bytes(s)) =~= hex_lowercase(s),
{
    let b = hex_bytes(s);
    assert forall|i: int| 0 <= i < s.len() implies #[trigger] hex_lower(b)[i] == hex_lowercase(s)[i] by {
        let k = i / 2;
        assert(is_hex_char(s[2 * k]));
        assert(is_hex_char(s[2 * k + 1]));
        lemma_hex_value_digit(s[2 * k]);
        lemma_hex_value_digit(s[2 * k + 1]);
        let hi = hex_value(s[2 * k]);
        let lo = hex_value(s[2 * k + 1]);
        assert(b[k] as int == hi * 16 + lo);
        assert((hi * 16 + lo) / 16 == hi) by (nonlinear_arith)
            requires 0 <= hi < 16, 0 <= lo < 16;
        assert((hi * 16 + lo) % 16 == lo) by (nonlinear_arith)
            requires 0 <= hi < 16, 0 <= lo < 16;
    }
}

} // verus!
