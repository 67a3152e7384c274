//! Text encodings: lower-case hexadecimal, standard base64 and percent
//! encoding, stated as specifications over bytes and characters.

use vstd::prelude::*;
use vstd::string::StrSliceExecFns;

verus! {

/// The lower-case hexadecimal digit for a value below 16.
pub open spec fn hex_digit_lower(n: int) -> char {
    if n < 10 {
        (48 + n) as char
    } else {
        (87 + n) as char
    }
}

/// Two lower-case hexadecimal digits per byte, most significant nibble first.
pub open spec fn lower_hex(bytes: Seq<u8>) -> Seq<char>
    decreases bytes.len(),
{
    if bytes.len() == 0 {
        Seq::empty()
    } else {
        let b = bytes.last();
        lower_hex(bytes.drop_last()) + seq![hex_digit_lower(b as int / 16), hex_digit_lower(b as int % 16)]
    }
}

/// Appends one character to a string.
#[verifier::external_body]
pub(crate) fn push_char(s: &mut String, c: char)
    ensures
        final(s)@ == old(s)@.push(c),
{
    s.push(c)
}

fn hex_char_lower(n: u8) -> (c: char)
    requires
        n < 16,
    ensures
        c == hex_digit_lower(n as int),
{
    match n {
        0 => '0',
        1 => '1',
        2 => '2',
        3 => '3',
        4 => '4',
        5 => '5',
        6 => '6',
        7 => '7',
        8 => '8',
        9 => '9',
        10 => 'a',
        11 => 'b',
        12 => 'c',
        13 => 'd',
        14 => 'e',
        _ => 'f',
    }
}

/// Formats bytes as lower-case hexadecimal, two digits per byte.
pub fn to_hex_lower(bytes: &[u8]) -> (res: String)
    ensures
        res@ == lower_hex(bytes@),
{
    let mut res = String::new();
    let mut i: usize = 0;
    while i < bytes.len()
        invariant
            i <= bytes@.len(),
            res@ == lower_hex(bytes@.take(i as int)),
        decreases bytes@.len() - i,
    {
        let b = bytes[i];
        push_char(&mut res, hex_char_lower(b / 16));
        push_char(&mut res, hex_char_lower(b % 16));
        assert(bytes@.take(i + 1).drop_last() =~= bytes@.take(i as int));
        i = i + 1;
    }
    assert(bytes@.take(i as int) =~= bytes@);
    res
}

} // verus!

verus! {

/// The symbol of the standard base64 alphabet for a six-bit value.
pub open spec fn base64_symbol(n: int) -> char {
    if n < 26 {
        (65 + n) as char
    } else if n < 52 {
        (71 + n) as char
    } else if n < 62 {
        (n - 4) as char
    } else if n == 62 {
        '+'
    } else {
        '/'
    }
}

/// The four symbols of a group of three bytes.
pub open spec fn base64_quad(b0: int, b1: int, b2: int) -> Seq<char> {
    seq![
        base64_symbol(b0 / 4),
        base64_symbol((b0 % 4) * 16 + b1 / 16),
        base64_symbol((b1 % 16) * 4 + b2 / 64),
        base64_symbol(b2 % 64),
    ]
}

/// Standard base64 (RFC 4648, section 4) with `=` padding: every group of
/// three bytes becomes four symbols, and a final group of one or two bytes is
/// padded to four symbols.
pub open spec fn base64_encode(b: Seq<u8>) -> Seq<char>
    decreases b.len(),
{
    if b.len() == 0 {
        Seq::empty()
    } else if b.len() == 1 {
        seq![base64_symbol(b[0] as int / 4), base64_symbol((b[0] as int % 4) * 16), '=', '=']
    } else if b.len() == 2 {
        seq![
            base64_symbol(b[0] as int / 4),
            base64_symbol((b[0] as int % 4) * 16 + b[1] as int / 16),
            base64_symbol((b[1] as int % 16) * 4),
            '=',
        ]
    } else {
        base64_quad(b[0] as int, b[1] as int, b[2] as int) + base64_encode(b.skip(3))
    }
}

proof fn lemma_base64_symbol_injective(x: int, y: int)
    requires
        0 <= x < 64,
        0 <= y < 64,
        base64_symbol(x) == base64_symbol(y),
    ensures
        x == y,
{
}

proof fn lemma_base64_symbol_not_pad(x: int)
    requires
        0 <= x < 64,
    ensures
        base64_symbol(x) != '=',
{
}

proof fn lemma_base64_head(b: Seq<u8>)
    requires
        b.len() >= 1,
    ensures
        base64_encode(b).len() >= 4,
        base64_encode(b)[0] == base64_symbol(b[0] as int / 4),
        b.len() == 1 ==> base64_encode(b)[1] == base64_symbol((b[0] as int % 4) * 16)
            && base64_encode(b)[2] == '=' && base64_encode(b)[3] == '=' && base64_encode(b).len()
            == 4,
        b.len() == 2 ==> base64_encode(b)[1] == base64_symbol(
            (b[0] as int % 4) * 16 + b[1] as int / 16,
        ) && base64_encode(b)[2] == base64_symbol((b[1] as int % 16) * 4) && base64_encode(b)[3]
            == '=' && base64_encode(b).len() == 4,
        b.len() >= 3 ==> base64_encode(b)[1] == base64_symbol(
            (b[0] as int % 4) * 16 + b[1] as int / 16,
        ) && base64_encode(b)[2] == base64_symbol((b[1] as int % 16) * 4 + b[2] as int / 64)
            && base64_encode(b)[3] == base64_symbol(b[2] as int % 64) && base64_encode(b).skip(4)
            =~= base64_encode(b.skip(3)),
{
}

/// Distinct byte strings have distinct base64 encodings.
pub proof fn lemma_base64_encode_injective(a: Seq<u8>, b: Seq<u8>)
    requires
        base64_encode(a) == base64_encode(b),
    ensures
        a == b,
    decreases a.len(),
{
    if a.len() == 0 || b.len() == 0 {
        if a.len() != 0 {
            lemma_base64_head(a);
        }
        if b.len() != 0 {
            lemma_base64_head(b);
        }
        assert(a =~= b);
        return;
    }
    lemma_base64_head(a);
    lemma_base64_head(b);
    let a0 = a[0] as int;
    let b0 = b[0] as int;
    let a1 = if a.len() >= 2 { a[1] as int } else { 0 };
    let b1 = if b.len() >= 2 { b[1] as int } else { 0 };
    let a2 = if a.len() >= 3 { a[2] as int } else { 0 };
    let b2 = if b.len() >= 3 { b[2] as int } else { 0 };
    lemma_base64_symbol_injective(a0 / 4, b0 / 4);
    if a.len() == 1 {
        if b.len() >= 2 {
            lemma_base64_symbol_not_pad((b1 % 16) * 4 + b2 / 64);
        }
        lemma_base64_symbol_injective((a0 % 4) * 16, (b0 % 4) * 16 + b1 / 16);
        assert(a =~= b);
    } else if a.len() == 2 {
        if b.len() == 1 {
            lemma_base64_symbol_not_pad((a1 % 16) * 4);
        } else if b.len() >= 3 {
            lemma_base64_symbol_not_pad(b2 % 64);
        }
        lemma_base64_symbol_injective((a0 % 4) * 16 + a1 / 16, (b0 % 4) * 16 + b1 / 16);
        lemma_base64_symbol_injective((a1 % 16) * 4, (b1 % 16) * 4 + b2 / 64);
        assert(a =~= b);
    } else {
        if b.len() == 1 {
            lemma_base64_symbol_not_pad((a1 % 16) * 4 + a2 / 64);
        } else if b.len() == 2 {
            lemma_base64_symbol_not_pad(a2 % 64);
        }
        lemma_base64_symbol_injective((a0 % 4) * 16 + a1 / 16, (b0 % 4) * 16 + b1 / 16);
        lemma_base64_symbol_injective((a1 % 16) * 4 + a2 / 64, (b1 % 16) * 4 + b2 / 64);
        lemma_base64_symbol_injective(a2 % 64, b2 % 64);
        lemma_base64_encode_injective(a.skip(3), b.skip(3));
        assert(a =~= a.take(3) + a.skip(3));
        assert(b =~= b.take(3) + b.skip(3));
        assert(a.take(3) =~= b.take(3));
    }
}

} // verus!

verus! {

/// The upper-case hexadecimal digit for a value below 16.
pub open spec fn hex_digit_upper(n: int) -> char {
    if n < 10 {
        (48 + n) as char
    } else {
        (55 + n) as char
    }
}

/// Bytes that percent encoding leaves as they are: ASCII letters, digits and
/// `-`, `.`, `_`, `~`.
pub open spec fn is_url_unreserved(b: u8) -> bool {
    (48 <= b <= 57) || (65 <= b <= 90) || (97 <= b <= 122) || b == 45 || b == 46 || b == 95
        || b == 126
}

/// Percent encoding of a byte string: unreserved bytes stay, every other byte
/// becomes `%` and two upper-case hexadecimal digits.
pub open spec fn percent_encode(b: Seq<u8>) -> Seq<char>
    decreases b.len(),
{
    if b.len() == 0 {
        Seq::empty()
    } else {
        let head = if is_url_unreserved(b[0]) {
            seq![b[0] as char]
        } else {
            seq!['%', hex_digit_upper(b[0] as int / 16), hex_digit_upper(b[0] as int % 16)]
        };
        head + percent_encode(b.skip(1))
    }
}

/// A byte that is a hexadecimal digit in either case.
pub open spec fn is_hex_digit_byte(b: u8) -> bool {
    (48 <= b <= 57) || (65 <= b <= 70) || (97 <= b <= 102)
}

/// The value of a hexadecimal digit byte.
pub open spec fn hex_digit_value(b: u8) -> int {
    if b <= 57 {
        b - 48
    } else if b <= 70 {
        b - 55
    } else {
        b - 87
    }
}

/// Lenient percent decoding: `%` with two hexadecimal digits becomes the byte
/// they denote; a `%` that is not followed by two such digits stays as it is,
/// and so do all other bytes.  `+` is not turned into a space.
pub open spec fn percent_decode(b: Seq<u8>) -> Seq<u8>
    decreases b.len(),
{
    if b.len() == 0 {
        b
    } else if b[0] != 37 {
        seq![b[0]] + percent_decode(b.skip(1))
    } else if b.len() < 3 {
        b
    } else if !is_hex_digit_byte(b[1]) {
        seq![37u8] + percent_decode(b.skip(1))
    } else if !is_hex_digit_byte(b[2]) {
        seq![37u8, b[1]] + percent_decode(b.skip(2))
    } else {
        seq![(hex_digit_value(b[1]) * 16 + hex_digit_value(b[2])) as u8] + percent_decode(
            b.skip(3),
        )
    }
}

/// The bytes of a sequence of ASCII characters.
pub open spec fn ascii_bytes(cs: Seq<char>) -> Seq<u8> {
    Seq::new(cs.len(), |i: int| cs[i] as u8)
}

/// Percent encoding produces only ASCII characters.
pub proof fn lemma_percent_encode_ascii(b: Seq<u8>)
    ensures
        vstd::utf8::is_ascii_chars(percent_encode(b)),
    decreases b.len(),
{
    if b.len() > 0 {
        lemma_percent_encode_ascii(b.skip(1));
        let e = percent_encode(b);
        let rest = percent_encode(b.skip(1));
        assert forall|i: int| 0 <= i < e.len() implies (e[i] as u32) < 128 by {
            if is_url_unreserved(b[0]) {
                if i >= 1 {
                    assert(e[i] == rest[i - 1]);
                }
            } else {
                if i >= 3 {
                    assert(e[i] == rest[i - 3]);
                }
            }
        }
    }
}

/// Decoding the bytes of a percent encoding gives back the encoded bytes.
pub proof fn lemma_percent_decode_encode(b: Seq<u8>)
    ensures
        percent_decode(ascii_bytes(percent_encode(b))) == b,
    decreases b.len(),
{
    if b.len() == 0 {
        assert(ascii_bytes(percent_encode(b)) =~= Seq::<u8>::empty());
    } else {
        lemma_percent_decode_encode(b.skip(1));
        let rest = ascii_bytes(percent_encode(b.skip(1)));
        let e = ascii_bytes(percent_encode(b));
        let x = b[0];
        if is_url_unreserved(x) {
            assert(e =~= seq![x] + rest);
            assert(e.skip(1) =~= rest);
        } else {
            let hi = hex_digit_upper(x as int / 16) as u8;
            let lo = hex_digit_upper(x as int % 16) as u8;
            assert(e =~= seq![37u8, hi, lo] + rest);
            assert(e.skip(3) =~= rest);
            assert(is_hex_digit_byte(hi) && is_hex_digit_byte(lo));
            assert(hex_digit_value(hi) * 16 + hex_digit_value(lo) == x);
        }
        assert(b =~= seq![x] + b.skip(1));
    }
}

} // verus!

verus! {

/// The decimal digit character for a value below 10.
pub open spec fn decimal_digit(n: int) -> char {
    (48 + n) as char
}

/// The decimal digits of a natural number, without leading zeros.
pub open spec fn decimal_digits(n: nat) -> Seq<char>
    decreases n,
{
    if n < 10 {
        seq![decimal_digit(n as int)]
    } else {
        decimal_digits(n / 10).push(decimal_digit((n % 10) as int))
    }
}

/// The decimal text of an integer, with `-` before a negative one.
pub open spec fn decimal_text(n: int) -> Seq<char> {
    if n < 0 {
        seq!['-'] + decimal_digits((-n) as nat)
    } else {
        decimal_digits(n as nat)
    }
}

fn digit_char(n: u64) -> (c: char)
    requires
        n < 10,
    ensures
        c == decimal_digit(n as int),
{
    match n {
        0 => '0',
        1 => '1',
        2 => '2',
        3 => '3',
        4 => '4',
        5 => '5',
        6 => '6',
        7 => '7',
        8 => '8',
        _ => '9',
    }
}

fn push_decimal(s: &mut String, n: u64)
    ensures
        final(s)@ == old(s)@ + decimal_digits(n as nat),
    decreases n,
{
    if n >= 10 {
        push_decimal(s, n / 10);
    }
    push_char(s, digit_char(n % 10));
}

/// The decimal text of an unsigned number.
pub fn u64_to_text(n: u64) -> (res: String)
    ensures
        res@ == decimal_digits(n as nat),
{
    let mut res = String::new();
    push_decimal(&mut res, n);
    assert(res@ =~= decimal_digits(n as nat));
    res
}

/// The decimal text of a signed number.
pub fn i64_to_text(n: i64) -> (res: String)
    ensures
        res@ == decimal_text(n as int),
{
    let mut res = String::new();
    if n < 0 {
        push_char(&mut res, '-');
        let magnitude: u64 = (0i128 - n as i128) as u64;
        push_decimal(&mut res, magnitude);
    } else {
        push_decimal(&mut res, n as u64);
    }
    assert(res@ =~= decimal_text(n as int));
    res
}

/// Whether a character is an ASCII decimal digit.
pub open spec fn is_decimal_digit(c: char) -> bool {
    '0' <= c <= '9'
}

/// The value of a string of decimal digits.
pub open spec fn digits_value(s: Seq<char>) -> int
    decreases s.len(),
{
    if s.len() == 0 {
        0
    } else {
        digits_value(s.drop_last()) * 10 + (s.last() as int - 48)
    }
}

/// The part of an integer's text after an optional sign.
pub open spec fn integer_body(s: Seq<char>) -> Seq<char> {
    if s.len() > 0 && (s[0] == '-' || s[0] == '+') {
        s.skip(1)
    } else {
        s
    }
}

/// Whether every character is a decimal digit.
pub open spec fn all_decimal_digits(s: Seq<char>) -> bool {
    forall|i: int| 0 <= i < s.len() ==> is_decimal_digit(#[trigger] s[i])
}

/// The integer that a text denotes in Rust's syntax for integers: an
/// optional `+` or `-` and at least one decimal digit, nothing else.
pub open spec fn parse_integer(s: Seq<char>) -> Option<int> {
    let body = integer_body(s);
    if body.len() > 0 && all_decimal_digits(body) {
        Some(if s[0] == '-' { -digits_value(body) } else { digits_value(body) })
    } else {
        None
    }
}

/// What `str::parse::<i32>` makes of a text: the integer it denotes when it
/// is in range.
pub open spec fn parse_i32_spec(s: Seq<char>) -> Option<i32> {
    match parse_integer(s) {
        Some(v) => if i32::MIN <= v <= i32::MAX {
            Some(v as i32)
        } else {
            None
        },
        None => None,
    }
}

proof fn lemma_digits_value_nonneg(s: Seq<char>)
    requires
        forall|i: int| 0 <= i < s.len() ==> is_decimal_digit(#[trigger] s[i]),
    ensures
        digits_value(s) >= 0,
    decreases s.len(),
{
    if s.len() > 0 {
        lemma_digits_value_nonneg(s.drop_last());
    }
}

proof fn lemma_digits_value_grows(s: Seq<char>, k: int)
    requires
        0 <= k <= s.len(),
        forall|i: int| 0 <= i < s.len() ==> is_decimal_digit(#[trigger] s[i]),
    ensures
        digits_value(s) >= digits_value(s.take(k)),
    decreases s.len() - k,
{
    if k < s.len() {
        lemma_digits_value_grows(s, k + 1);
        assert(s.take(k + 1).drop_last() =~= s.take(k));
        assert(is_decimal_digit(s[k]));
        assert(s.take(k + 1).last() == s[k]);
        lemma_digits_value_nonneg(s.take(k));
    } else {
        assert(s.take(k) =~= s);
    }
}

/// Parses a text as an `i32` the way `str::parse::<i32>` does.
pub fn parse_i32(text: &str) -> (res: Option<i32>)
    ensures
        res == parse_i32_spec(text@),
{
    let n = text.unicode_len();
    let mut start: usize = 0;
    let mut negative = false;
    if n > 0 {
        let c = text.get_char(0);
        if c == '-' {
            negative = true;
            start = 1;
        } else if c == '+' {
            start = 1;
        }
    }
    let ghost body = text@.skip(start as int);
    assert(body =~= integer_body(text@));
    assert(negative == (text@.len() > 0 && text@[0] == '-'));
    if start >= n {
        assert(body.len() == 0);
        return None;
    }
    let limit: i64 = if negative { 2147483648 } else { 2147483647 };
    let mut value: i64 = 0;
    let mut i: usize = start;
    while i < n
        invariant
            start <= i <= n,
            n == text@.len(),
            body == text@.skip(start as int),
            body == integer_body(text@),
            negative == (text@.len() > 0 && text@[0] == '-'),
            limit == (if negative { 2147483648int } else { 2147483647int }),
            0 <= value <= limit,
            value == digits_value(body.take(i - start)),
            forall|j: int| 0 <= j < i - start ==> is_decimal_digit(#[trigger] body[j]),
        decreases n - i,
    {
        let c = text.get_char(i);
        assert(c == body[i - start]);
        if !('0' <= c && c <= '9') {
            assert(!is_decimal_digit(body[i - start]));
            assert(!all_decimal_digits(body));
            return None;
        }
        let d = (c as u32 - 48) as i64;
        assert(body.take(i + 1 - start).drop_last() =~= body.take(i - start));
        if value > (limit - d) / 10 {
            proof {
                assert(forall|j: int| 0 <= j < i + 1 - start ==> is_decimal_digit(#[trigger] body[j]));
                assert(digits_value(body.take(i + 1 - start)) > limit) by (nonlinear_arith)
                    requires
                        digits_value(body.take(i + 1 - start)) == value * 10 + d,
                        value > (limit - d) / 10,
                        0 <= d <= 9,
                        limit > 0,
                ;
                if all_decimal_digits(body) {
                    lemma_digits_value_grows(body, i + 1 - start);
                    assert(digits_value(body) > limit);
                    lemma_digits_value_nonneg(body);
                }
            }
            return None;
        }
        value = value * 10 + d;
        i = i + 1;
    }
    assert(body.take(i - start) =~= body);
    if negative {
        Some((0 - value) as i32)
    } else {
        Some(value as i32)
    }
}

} // verus!
