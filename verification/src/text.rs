//! Text encodings shared by the predicate builder and the wire encoder:
//! lowercase hexadecimal, positional digits and big-endian bytes.

use vstd::prelude::*;

verus! {

/// The character for one digit value below sixteen, lowercase.
pub open spec fn digit_char(d: int) -> char {
    if d < 10 {
        ('0' as int + d) as char
    } else {
        ('a' as int + (d - 10)) as char
    }
}

/// Two lowercase hexadecimal characters per byte, high nibble first.
pub open spec fn hex_lower(bytes: Seq<u8>) -> Seq<char> {
    Seq::new(
        2 * bytes.len(),
        |i: int|
            if i % 2 == 0 {
                digit_char(bytes[i / 2] as int / 16)
            } else {
                digit_char(bytes[i / 2] as int % 16)
            },
    )
}

/// The hexadecimal form loses nothing: two byte strings with one form are
/// one byte string.
pub proof fn lemma_hex_lower_is_lossless(a: Seq<u8>, b: Seq<u8>)
    requires
        hex_lower(a) == hex_lower(b),
    ensures
        a == b,
{
    assert(hex_lower(a).len() == 2 * a.len());
    assert(hex_lower(b).len() == 2 * b.len());
    assert forall|i: int| 0 <= i < a.len() implies a[i] == b[i] by {
        let high = hex_lower(a)[2 * i];
        let low = hex_lower(a)[2 * i + 1];
        assert(high == hex_lower(b)[2 * i]);
        assert(low == hex_lower(b)[2 * i + 1]);
        assert(high == digit_char(a[i] as int / 16));
        assert(low == digit_char(a[i] as int % 16));
        assert(high == digit_char(b[i] as int / 16));
        assert(low == digit_char(b[i] as int % 16));
    }
    assert(a =~= b);
}

/// `hex::encode`: every byte becomes two lowercase hexadecimal characters,
/// the high nibble first, in the order of the input.
#[verifier::external_body]
pub(crate) fn hex_encode(data: &[u8]) -> (s: String)
    ensures
        s@ == hex_lower(data@),
{
    hex::encode(data)
}

/// `"0x"` followed by the lowercase hexadecimal form of `data`.
pub fn prefixed_hex(data: &[u8]) -> (s: String)
    ensures
        s@ == seq!['0', 'x'] + hex_lower(data@),
{
    let digits = hex_encode(data);
    let mut s = String::from_str("0x");
    proof {
        reveal_strlit("0x");
        assert(s@ =~= seq!['0', 'x']);
    }
    s.append(digits.as_str());
    s
}

/// Decimal notation of `n`, most significant digit first, no leading zero.
pub open spec fn decimal_digits(n: nat) -> Seq<char>
    decreases n,
{
    if n < 10 {
        seq![digit_char(n as int)]
    } else {
        decimal_digits(n / 10).push(digit_char((n % 10) as int))
    }
}

/// Hexadecimal notation of `n`, lowercase, most significant digit first, no
/// leading zero.
pub open spec fn hex_digits(n: nat) -> Seq<char>
    decreases n,
{
    if n < 16 {
        seq![digit_char(n as int)]
    } else {
        hex_digits(n / 16).push(digit_char((n % 16) as int))
    }
}

/// Decimal notation of a signed integer: a minus sign before the digits of
/// the magnitude where `n` is negative.
pub open spec fn decimal(n: int) -> Seq<char> {
    if n < 0 {
        seq!['-'] + decimal_digits((-n) as nat)
    } else {
        decimal_digits(n as nat)
    }
}

/// The one-character string of a decimal digit.
fn decimal_digit_str(d: u64) -> (s: &'static str)
    requires
        d < 10,
    ensures
        s@ == seq![digit_char(d as int)],
{
    let s = if d == 0 {
        "0"
    } else if d == 1 {
        "1"
    } else if d == 2 {
        "2"
    } else if d == 3 {
        "3"
    } else if d == 4 {
        "4"
    } else if d == 5 {
        "5"
    } else if d == 6 {
        "6"
    } else if d == 7 {
        "7"
    } else if d == 8 {
        "8"
    } else {
        "9"
    };
    proof {
        reveal_strlit("0");
        reveal_strlit("1");
        reveal_strlit("2");
        reveal_strlit("3");
        reveal_strlit("4");
        reveal_strlit("5");
        reveal_strlit("6");
        reveal_strlit("7");
        reveal_strlit("8");
        reveal_strlit("9");
        assert(s@ =~= seq![digit_char(d as int)]);
    }
    s
}

/// Appends the decimal notation of `n` to `out`.
pub fn push_decimal(out: &mut String, n: u64)
    ensures
        final(out)@ == old(out)@ + decimal_digits(n as nat),
    decreases n,
{
    if n >= 10 {
        push_decimal(out, n / 10);
    }
    out.append(decimal_digit_str(n % 10));
    assert(out@ =~= old(out)@ + decimal_digits(n as nat));
}

/// The decimal notation of an unsigned integer.
pub fn u64_to_decimal(n: u64) -> (s: String)
    ensures
        s@ == decimal_digits(n as nat),
{
    let mut s = String::new();
    push_decimal(&mut s, n);
    assert(s@ =~= decimal_digits(n as nat));
    s
}

/// The decimal notation of a signed integer.
pub fn i64_to_decimal(n: i64) -> (s: String)
    ensures
        s@ == decimal(n as int),
{
    if n < 0 {
        let magnitude: u64 = (-(n + 1)) as u64 + 1;
        let mut s = String::from_str("-");
        proof {
            reveal_strlit("-");
            assert(s@ =~= seq!['-']);
        }
        push_decimal(&mut s, magnitude);
        s
    } else {
        u64_to_decimal(n as u64)
    }
}

/// The 64-bit two's complement pattern of `n`, read as an unsigned number.
pub open spec fn twos_complement(n: i64) -> nat {
    if n < 0 {
        (n + 0x1_0000_0000_0000_0000) as nat
    } else {
        n as nat
    }
}

/// The weight of the byte `k` places above the least significant one.
pub open spec fn byte_weight(k: int) -> nat {
    if k == 0 {
        0x1
    } else if k == 1 {
        0x100
    } else if k == 2 {
        0x1_0000
    } else if k == 3 {
        0x100_0000
    } else if k == 4 {
        0x1_0000_0000
    } else if k == 5 {
        0x100_0000_0000
    } else if k == 6 {
        0x1_0000_0000_0000
    } else {
        0x100_0000_0000_0000
    }
}

/// The eight bytes of `n` in two's complement, most significant first.
pub open spec fn be_bytes(n: i64) -> Seq<u8> {
    Seq::new(8, |i: int| ((twos_complement(n) / byte_weight(7 - i)) % 256) as u8)
}

/// The big-endian byte representation of `n`.
pub fn i64_to_be_bytes(n: i64) -> (bytes: Vec<u8>)
    ensures
        bytes@ == be_bytes(n),
{
    let u: u64 = if n < 0 {
        (n - i64::MIN) as u64 + 0x8000_0000_0000_0000
    } else {
        n as u64
    };
    assert(u == twos_complement(n));
    let bytes = vec![
        ((u / 0x100_0000_0000_0000) % 256) as u8,
        ((u / 0x1_0000_0000_0000) % 256) as u8,
        ((u / 0x100_0000_0000) % 256) as u8,
        ((u / 0x1_0000_0000) % 256) as u8,
        ((u / 0x100_0000) % 256) as u8,
        ((u / 0x1_0000) % 256) as u8,
        ((u / 0x100) % 256) as u8,
        (u % 256) as u8,
    ];
    assert(bytes@ =~= be_bytes(n));
    bytes
}

/// The sixteen lowercase hexadecimal characters of the big-endian bytes of `n`.
pub fn be_hex(n: i64) -> (s: String)
    ensures
        s@ == hex_lower(be_bytes(n)),
{
    let bytes = i64_to_be_bytes(n);
    hex_encode(bytes.as_slice())
}

/// A hexadecimal digit, in either case.
pub open spec fn is_hex_char(c: char) -> bool {
    ('0' <= c && c <= '9') || ('a' <= c && c <= 'f') || ('A' <= c && c <= 'F')
}

/// `"0x"` followed by hexadecimal digits only (possibly none).
pub open spec fn is_hex_text(s: Seq<char>) -> bool {
    &&& s.len() >= 2
    &&& s[0] == '0'
    &&& s[1] == 'x'
    &&& forall|i: int| 2 <= i < s.len() ==> is_hex_char(#[trigger] s[i])
}

/// The binary string literal that stands for the bytes which the hexadecimal
/// text `s` spells: `X'`, the digits of `s` behind its `0x`, and `'`.
pub open spec fn blob_literal_text(s: Seq<char>) -> Seq<char> {
    seq!['X', '\''] + s.skip(2) + seq!['\'']
}

/// The binary literal of a hexadecimal text is `X'`, then hexadecimal digits
/// only, then the closing quote: no character of the text can end the
/// literal early.
pub proof fn lemma_blob_literal_is_closed(s: Seq<char>)
    requires
        is_hex_text(s),
    ensures
        blob_literal_text(s).len() == s.len() + 1,
        blob_literal_text(s)[0] == 'X',
        blob_literal_text(s)[1] == '\'',
        blob_literal_text(s).last() == '\'',
        forall|i: int|
            2 <= i < blob_literal_text(s).len() - 1 ==> is_hex_char(
                #[trigger] blob_literal_text(s)[i],
            ),
{
    assert forall|i: int| 2 <= i < blob_literal_text(s).len() - 1 implies is_hex_char(
        #[trigger] blob_literal_text(s)[i],
    ) by {
        assert(blob_literal_text(s)[i] == s[i]);
    }
}

/// Tells whether `value` is `"0x"` followed by hexadecimal digits only.
pub fn check_hex_text(value: &str) -> (ok: bool)
    ensures
        ok == is_hex_text(value@),
{
    if !value.is_ascii() {
        proof {
            let i = choose|i: int|
                0 <= i < value@.len() && !('\0' <= #[trigger] value@[i] <= '\u{7f}');
            assert(!is_hex_char(value@[i]));
            assert(value@[i] != '0' && value@[i] != 'x');
        }
        return false;
    }
    let bytes = value.as_bytes();
    proof {
        vstd::string::is_ascii_spec_bytes(value);
    }
    let n = bytes.len();
    // In ASCII, `0` is 0x30 and `x` is 0x78.
    if n < 2 || bytes[0] != 0x30 || bytes[1] != 0x78 {
        return false;
    }
    let mut i: usize = 2;
    while i < n
        invariant
            2 <= i <= n,
            n == value@.len(),
            bytes@.len() == n,
            value.is_ascii(),
            forall|k: int| 0 <= k < n ==> bytes@[k] == value@[k] as u8,
            forall|k: int| 2 <= k < i ==> is_hex_char(#[trigger] value@[k]),
        decreases n - i,
    {
        let b = bytes[i];
        // `0` to `9`, `a` to `f`, `A` to `F`.
        let hex = (0x30 <= b && b <= 0x39) || (0x61 <= b && b <= 0x66) || (0x41 <= b && b <= 0x46);
        proof {
            assert('\0' <= value@[i as int] <= '\u{7f}');
            assert(hex == is_hex_char(value@[i as int]));
        }
        if !hex {
            return false;
        }
        i += 1;
    }
    true
}

/// The binary string literal for the hexadecimal text `value`, or `None`
/// where `value` is not `"0x"` followed by hexadecimal digits only.
pub fn blob_literal(value: &str) -> (r: Option<String>)
    ensures
        match r {
            Some(t) => is_hex_text(value@) && t@ == blob_literal_text(value@),
            None => !is_hex_text(value@),
        },
{
    if !check_hex_text(value) {
        return None;
    }
    proof {
        assert forall|i: int| 0 <= i < value@.len() implies '\0' <= #[trigger] value@[i]
            <= '\u{7f}' by {
            if i >= 2 {
                assert(is_hex_char(value@[i]));
            }
        }
        vstd::string::is_ascii_spec_bytes(value);
    }
    let n = value.as_bytes().len();
    let digits = value.substring_ascii(2, n);
    let mut t = String::from_str("X'");
    t.append(digits);
    t.append("'");
    proof {
        reveal_strlit("X'");
        reveal_strlit("'");
        assert(t@ =~= blob_literal_text(value@));
    }
    Some(t)
}

} // verus!
