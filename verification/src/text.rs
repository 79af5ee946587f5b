//! Text helpers shared by the wire formats: NUL terminated byte strings,
//! UTF-8 decoding, string comparison and decimal numbers.

use vstd::prelude::*;
use vstd::utf8::*;

verus! {

/// What `String::from_utf8_lossy` produces for `bytes`: the decoded text,
/// with every invalid sequence replaced by U+FFFD.
pub uninterp spec fn lossy_utf8(bytes: Seq<u8>) -> Seq<char>;

/// `String::from_utf8_lossy`, converted to an owned `String`.
///
/// Claims that the result is `lossy_utf8(bytes)`, that valid UTF-8 is
/// decoded exactly, and that bytes without a 0 give text without a NUL
/// character (a NUL character decodes only from a 0 byte, and invalid
/// sequences become U+FFFD). Which characters stand for invalid sequences is
/// left to the name.
#[verifier::external_body]
pub(crate) fn string_from_utf8_lossy(bytes: &[u8]) -> (r: String)
    ensures
        r@ == lossy_utf8(bytes@),
        valid_utf8(bytes@) ==> r@ == decode_utf8(bytes@),
        (forall|i: int| 0 <= i < bytes@.len() ==> bytes@[i] != 0u8) ==> (forall|j: int|
            0 <= j < r@.len() ==> r@[j] != '\0'),
{
    String::from_utf8_lossy(bytes).into_owned()
}

/// Number of bytes before the first NUL byte (the whole length when there is
/// none).
pub open spec fn c_len(s: Seq<u8>) -> nat
    decreases s.len(),
{
    if s.len() == 0 {
        0
    } else if s[0] == 0 {
        0
    } else {
        1 + c_len(s.drop_first())
    }
}

/// `c_len` is the index of the first NUL byte, or the length.
pub proof fn lemma_c_len(s: Seq<u8>)
    ensures
        c_len(s) <= s.len(),
        forall|i: int| 0 <= i < c_len(s) ==> s[i] != 0,
        c_len(s) < s.len() ==> s[c_len(s) as int] == 0,
    decreases s.len(),
{
    if s.len() > 0 && s[0] != 0 {
        lemma_c_len(s.drop_first());
        assert forall|i: int| 0 <= i < c_len(s) implies s[i] != 0 by {
            if i > 0 {
                assert(s[i] == s.drop_first()[i - 1]);
            }
        }
    }
}

/// A byte sequence whose first `n` bytes are not NUL and whose byte `n` (if
/// any) is NUL has `c_len` equal to `n`.
pub proof fn lemma_c_len_is(s: Seq<u8>, n: int)
    requires
        0 <= n <= s.len(),
        forall|i: int| 0 <= i < n ==> s[i] != 0,
        n < s.len() ==> s[n] == 0,
    ensures
        c_len(s) == n,
    decreases s.len(),
{
    if s.len() > 0 && s[0] != 0 {
        let t = s.drop_first();
        assert forall|i: int| 0 <= i < n - 1 implies t[i] != 0 by {
            assert(t[i] == s[i + 1]);
        }
        if n - 1 < t.len() {
            assert(t[n - 1] == s[n]);
        }
        lemma_c_len_is(t, n - 1);
    }
}

/// The text of a NUL terminated (or NUL padded) byte string: the bytes
/// before the first NUL, decoded as UTF-8, lossily when they are not valid
/// UTF-8.
pub open spec fn c_string_value(s: Seq<u8>) -> Seq<char> {
    let text = s.take(c_len(s) as int);
    if valid_utf8(text) {
        decode_utf8(text)
    } else {
        lossy_utf8(text)
    }
}

/// The bytes `encode_c_string` leaves in a buffer of `n` bytes for the text
/// bytes `bytes`: as many bytes as fit before a final NUL, then zeros.
pub open spec fn c_string_image(bytes: Seq<u8>, n: nat) -> Seq<u8> {
    Seq::new(n, |i: int| if i < bytes.len() && i < n - 1 { bytes[i] } else { 0 })
}

/// Text without NUL characters whose UTF-8 encoding fits in front of the
/// final NUL of an `n` byte buffer reads back unchanged from that buffer.
pub proof fn lemma_c_string_round_trip(s: Seq<char>, n: nat)
    requires
        !s.contains('\0'),
        encode_utf8(s).len() < n,
    ensures
        c_len(c_string_image(encode_utf8(s), n)) == encode_utf8(s).len(),
        c_string_image(encode_utf8(s), n).take(encode_utf8(s).len() as int) == encode_utf8(s),
        c_string_value(c_string_image(encode_utf8(s), n)) == s,
{
    let b = encode_utf8(s);
    let img = c_string_image(b, n);
    lemma_encode_utf8_no_nul(s);
    lemma_c_len_is(img, b.len() as int);
    assert(img.take(b.len() as int) =~= b);
    encode_utf8_valid_utf8(s);
    encode_utf8_decode_utf8(s);
}

/// The UTF-8 encoding of text without NUL characters holds no NUL byte.
pub proof fn lemma_encode_utf8_no_nul(chars: Seq<char>)
    requires
        !chars.contains('\0'),
    ensures
        forall|i: int| 0 <= i < encode_utf8(chars).len() ==> encode_utf8(chars)[i] != 0,
    decreases chars.len(),
{
    if chars.len() > 0 {
        let c = chars[0] as u32;
        assert(chars[0] != '\0');
        if c == 0 {
            char_u32_cast(chars[0], 0);
            char_u32_cast('\0', 0);
        }
        assert(c != 0);
        let first = encode_scalar(c);
        assert(forall|i: int| 0 <= i < first.len() ==> first[i] != 0) by {
            assert(has_width_1_encoding(c) && c != 0 ==> (c & 0x7F) as u8 != 0) by (bit_vector);
            assert(((0xC0u8 | ((c >> 6) & 0x1F) as u8) != 0)) by (bit_vector);
            assert(((0xE0u8 | ((c >> 12) & 0x0F) as u8) != 0)) by (bit_vector);
            assert(((0xF0u8 | ((c >> 18) & 0x7) as u8) != 0)) by (bit_vector);
            assert(((0x80u8 | (c & 0x3F) as u8) != 0)) by (bit_vector);
            assert(((0x80u8 | ((c >> 6) & 0x3F) as u8) != 0)) by (bit_vector);
            assert(((0x80u8 | ((c >> 12) & 0x3F) as u8) != 0)) by (bit_vector);
        }
        let rest = chars.drop_first();
        assert(!rest.contains('\0')) by {
            if rest.contains('\0') {
                let j = choose|j: int| 0 <= j < rest.len() && rest[j] == '\0';
                assert(chars[j + 1] == '\0');
            }
        }
        lemma_encode_utf8_no_nul(rest);
        let all = encode_utf8(chars);
        assert(all == first + encode_utf8(rest));
        assert forall|i: int| 0 <= i < all.len() implies all[i] != 0 by {
            if i >= first.len() {
                assert(all[i] == encode_utf8(rest)[i - first.len()]);
            }
        }
    }
}

/// UTF-8 encoding distributes over concatenation.
pub proof fn lemma_encode_utf8_concat(a: Seq<char>, b: Seq<char>)
    ensures
        encode_utf8(a + b) == encode_utf8(a) + encode_utf8(b),
    decreases a.len(),
{
    if a.len() == 0 {
        assert(a + b =~= b);
        assert(encode_utf8(a) + encode_utf8(b) =~= encode_utf8(b));
    } else {
        lemma_encode_utf8_concat(a.drop_first(), b);
        assert((a + b).drop_first() =~= a.drop_first() + b);
        assert((a + b)[0] == a[0]);
        assert(encode_utf8(a + b) =~= encode_scalar(a[0] as u32) + encode_utf8(a.drop_first()
            + b));
        assert(encode_utf8(a) =~= encode_scalar(a[0] as u32) + encode_utf8(a.drop_first()));
    }
}

/// The texts of a sequence of strings.
pub open spec fn texts(v: Seq<String>) -> Seq<Seq<char>> {
    v.map_values(|s: String| s@)
}

/// The texts of a sequence of string slices.
pub open spec fn str_texts(v: Seq<&str>) -> Seq<Seq<char>> {
    v.map_values(|s: &str| s@)
}

/// Whether two strings hold the same text.
pub fn str_eq(a: &str, b: &str) -> (r: bool)
    ensures
        r == (a@ == b@),
{
    let x = a.as_bytes();
    let y = b.as_bytes();
    proof {
        broadcast use encode_utf8_decode_utf8;

    }
    if x.len() != y.len() {
        return false;
    }
    let mut i: usize = 0;
    while i < x.len()
        invariant
            x@ == encode_utf8(a@),
            y@ == encode_utf8(b@),
            a@ == b@ ==> x@ == y@,
            x.len() == y.len(),
            i <= x.len(),
            forall|j: int| 0 <= j < i ==> x@[j] == y@[j],
        decreases x.len() - i,
    {
        if x[i] != y[i] {
            return false;
        }
        i = i + 1;
    }
    assert(x@ == y@);
    assert(decode_utf8(encode_utf8(a@)) == a@);
    assert(decode_utf8(encode_utf8(b@)) == b@);
    true
}

/// The decimal digit character for `d` (`0 <= d < 10`).
pub open spec fn digit_char(d: nat) -> char {
    if d == 0 {
        '0'
    } else if d == 1 {
        '1'
    } else if d == 2 {
        '2'
    } else if d == 3 {
        '3'
    } else if d == 4 {
        '4'
    } else if d == 5 {
        '5'
    } else if d == 6 {
        '6'
    } else if d == 7 {
        '7'
    } else if d == 8 {
        '8'
    } else {
        '9'
    }
}

/// The decimal representation of `n`, without leading zeros.
pub open spec fn decimal(n: nat) -> Seq<char>
    decreases n,
{
    if n < 10 {
        seq![digit_char(n)]
    } else {
        decimal(n / 10).push(digit_char(n % 10))
    }
}

/// Whether `c` is one of the ten decimal digit characters.
pub open spec fn is_digit_char(c: char) -> bool {
    '0' <= c <= '9'
}

/// The numeric value of a digit character.
pub open spec fn digit_value(c: char) -> nat {
    (c as u32 - '0' as u32) as nat
}

/// The number a sequence of digit characters stands for.
pub open spec fn decimal_value(s: Seq<char>) -> nat
    decreases s.len(),
{
    if s.len() == 0 {
        0
    } else {
        decimal_value(s.drop_last()) * 10 + digit_value(s.last())
    }
}

/// A digit character is a digit and reads back as its value.
proof fn lemma_digit_char(d: nat)
    requires
        d < 10,
    ensures
        is_digit_char(digit_char(d)),
        digit_value(digit_char(d)) == d,
{
}

/// `decimal(n)` is a non-empty run of digits that reads back as `n`; so two
/// different numbers have different representations.
pub proof fn lemma_decimal(n: nat)
    ensures
        decimal(n).len() >= 1,
        forall|i: int| 0 <= i < decimal(n).len() ==> is_digit_char(#[trigger] decimal(n)[i]),
        decimal_value(decimal(n)) == n,
    decreases n,
{
    if n < 10 {
        lemma_digit_char(n);
        let s = decimal(n);
        assert(s.drop_last() =~= Seq::<char>::empty());
        assert(s.last() == digit_char(n));
        assert(decimal_value(s.drop_last()) == 0);
    } else {
        lemma_decimal(n / 10);
        lemma_digit_char(n % 10);
        let s = decimal(n);
        assert(s.drop_last() == decimal(n / 10));
        assert(s.last() == digit_char(n % 10));
        assert(decimal_value(s) == decimal_value(decimal(n / 10)) * 10 + digit_value(s.last()));
        assert forall|i: int| 0 <= i < s.len() implies is_digit_char(#[trigger] s[i]) by {
            if i < s.len() - 1 {
                assert(s[i] == decimal(n / 10)[i]);
            }
        }
    }
}

/// A `u32` has at most ten decimal digits.
pub proof fn lemma_decimal_len(n: nat)
    requires
        n <= 0xffff_ffff,
    ensures
        decimal(n).len() <= 10,
{
    reveal_with_fuel(pow10, 11);
    assert(pow10(10) == 10_000_000_000);
    lemma_decimal_len_bound(n, 10, 10_000_000_000);
}

/// A number below `bound == 10^digits` has at most `digits` decimal digits.
proof fn lemma_decimal_len_bound(n: nat, digits: nat, bound: nat)
    requires
        n < bound,
        digits >= 1,
        bound <= pow10(digits),
    ensures
        decimal(n).len() <= digits,
    decreases digits,
{
    if n >= 10 {
        assert(pow10(digits) == 10 * pow10((digits - 1) as nat));
        if digits == 1 {
            assert(false);
        }
        assert(n / 10 < pow10((digits - 1) as nat));
        lemma_decimal_len_bound(n / 10, (digits - 1) as nat, pow10((digits - 1) as nat));
    }
}

/// `10^e`.
pub open spec fn pow10(e: nat) -> nat
    decreases e,
{
    if e == 0 {
        1
    } else {
        10 * pow10((e - 1) as nat)
    }
}

/// Different numbers have different decimal representations.
pub proof fn lemma_decimal_injective(a: nat, b: nat)
    requires
        decimal(a) == decimal(b),
    ensures
        a == b,
{
    lemma_decimal(a);
    lemma_decimal(b);
}

/// The string holding one decimal digit.
fn digit_str(d: u64) -> (r: &'static str)
    requires
        d < 10,
    ensures
        r@ == seq![digit_char(d as nat)],
{
    proof {
        reveal_strlit("0");
        reveal_strlit("1");
        reveal_strlit("2");
        reveal_strlit("3");
        reveal_strlit("4");
        reveal_strlit("5");
        reveal_strlit("6");
        reveal_strlit("7");
        reveal_strlit("8");
        reveal_strlit("9");
    }
    if d == 0 {
        "0"
    } else if d == 1 {
        "1"
    } else if d == 2 {
        "2"
    } else if d == 3 {
        "3"
    } else if d == 4 {
        "4"
    } else if d == 5 {
        "5"
    } else if d == 6 {
        "6"
    } else if d == 7 {
        "7"
    } else if d == 8 {
        "8"
    } else {
        "9"
    }
}

/// Append the decimal representation of `n` to `out`.
pub fn push_decimal(out: &mut String, n: u64)
    ensures
        final(out)@ == old(out)@ + decimal(n as nat),
    decreases n,
{
    if n >= 10 {
        push_decimal(out, n / 10);
    }
    out.append(digit_str(n % 10));
    assert(decimal(n as nat) == if n < 10 {
        seq![digit_char(n as nat)]
    } else {
        decimal((n / 10) as nat).push(digit_char((n % 10) as nat))
    });
}

/// The decimal representation of `n`, with a leading `-` when negative.
pub open spec fn signed_decimal(n: int) -> Seq<char> {
    if n < 0 {
        seq!['-'] + decimal((-n) as nat)
    } else {
        decimal(n as nat)
    }
}

/// Append the decimal representation of `n` (with its sign) to `out`.
pub fn push_signed_decimal(out: &mut String, n: i32)
    ensures
        final(out)@ == old(out)@ + signed_decimal(n as int),
{
    if n < 0 {
        let ghost before = out@;
        proof {
            reveal_strlit("-");
        }
        out.append("-");
        let magnitude: u64 = (0 - (n as i64)) as u64;
        push_decimal(out, magnitude);
        assert(out@ =~= before + (seq!['-'] + decimal((-n) as nat)));
    } else {
        push_decimal(out, n as u64);
    }
}

/// Whether an owned optional text and a borrowed one hold the same text
/// (or are both absent).
pub open spec fn same_optional_text(a: Option<String>, b: Option<&str>) -> bool {
    match (a, b) {
        (Some(t), Some(u)) => t@ == u@,
        (None, None) => true,
        _ => false,
    }
}

} // verus!
