//! Text helpers: whitespace trimming, percent-encoding and decimal digits.

use vstd::prelude::*;
use vstd::string::*;

verus! {

/// Whether a character has the Unicode `White_Space` property, which is
/// what `char::is_whitespace` tests: the 25 code points U+0009 to U+000D,
/// U+0020, U+0085, U+00A0, U+1680, U+2000 to U+200A, U+2028, U+2029, U+202F,
/// U+205F and U+3000.
pub open spec fn char_is_whitespace(c: char) -> bool {
    let v = c as u32;
    (0x9 <= v <= 0xd) || v == 0x20 || v == 0x85 || v == 0xa0 || v == 0x1680 || (0x2000 <= v
        <= 0x200a) || v == 0x2028 || v == 0x2029 || v == 0x202f || v == 0x205f || v == 0x3000
}

/// Whether `char::is_alphabetic` holds of a character (the Unicode
/// `Alphabetic` property).
pub uninterp spec fn char_is_alphabetic(c: char) -> bool;

/// Whether a character is white space, as `char::is_whitespace` decides.
pub fn is_whitespace(c: char) -> (r: bool)
    ensures
        r == char_is_whitespace(c),
{
    let v = c as u32;
    (0x9 <= v && v <= 0xd) || v == 0x20 || v == 0x85 || v == 0xa0 || v == 0x1680 || (0x2000 <= v
        && v <= 0x200a) || v == 0x2028 || v == 0x2029 || v == 0x202f || v == 0x205f || v == 0x3000
}

/// Calls `char::is_alphabetic`; its result is named `char_is_alphabetic`.
#[verifier::external_body]
fn is_alphabetic(c: char) -> (r: bool)
    ensures
        r == char_is_alphabetic(c),
{
    c.is_alphabetic()
}

/// Calls `String::push`, which appends one character.
#[verifier::external_body]
pub(crate) fn push_char(s: &mut String, c: char)
    ensures
        final(s)@ == old(s)@.push(c),
{
    s.push(c)
}

/// `s` without the characters satisfying `p` at its start.
pub open spec fn strip_leading(s: Seq<char>, p: spec_fn(char) -> bool) -> Seq<char>
    decreases s.len(),
{
    if s.len() > 0 && p(s[0]) {
        strip_leading(s.drop_first(), p)
    } else {
        s
    }
}

/// `s` without the characters satisfying `p` at its end.
pub open spec fn strip_trailing(s: Seq<char>, p: spec_fn(char) -> bool) -> Seq<char>
    decreases s.len(),
{
    if s.len() > 0 && p(s.last()) {
        strip_trailing(s.drop_last(), p)
    } else {
        s
    }
}

pub open spec fn whitespace() -> spec_fn(char) -> bool {
    |c: char| char_is_whitespace(c)
}

pub open spec fn alphabetic() -> spec_fn(char) -> bool {
    |c: char| char_is_alphabetic(c)
}

/// What `str::trim` gives: the text without leading and trailing whitespace.
pub open spec fn trimmed(s: Seq<char>) -> Seq<char> {
    strip_trailing(strip_leading(s, whitespace()), whitespace())
}

proof fn lemma_strip_leading_step(s: Seq<char>, p: spec_fn(char) -> bool, i: int)
    requires
        0 <= i < s.len(),
        p(s[i]),
    ensures
        strip_leading(s.skip(i), p) == strip_leading(s.skip(i + 1), p),
{
    assert(s.skip(i).drop_first() =~= s.skip(i + 1));
}

proof fn lemma_strip_trailing_step(s: Seq<char>, p: spec_fn(char) -> bool, j: int)
    requires
        0 < j <= s.len(),
        p(s[j - 1]),
    ensures
        strip_trailing(s.take(j), p) == strip_trailing(s.take(j - 1), p),
{
    assert(s.take(j).drop_last() =~= s.take(j - 1));
}

/// The index of the first character of `s` that is not whitespace (when
/// `alpha` is false) or not alphabetic (when `alpha` is true).
fn leading_run(s: &str, alpha: bool) -> (i: usize)
    ensures
        i <= s@.len(),
        strip_leading(s@, if alpha { alphabetic() } else { whitespace() }) == s@.skip(i as int),
{
    let ghost p = if alpha { alphabetic() } else { whitespace() };
    let n = s.unicode_len();
    let mut i: usize = 0;
    assert(s@.skip(0) =~= s@);
    while i < n
        invariant
            n == s@.len(),
            i <= n,
            p == (if alpha { alphabetic() } else { whitespace() }),
            strip_leading(s@, p) == strip_leading(s@.skip(i as int), p),
        decreases n - i,
    {
        let c = s.get_char(i);
        let hit = if alpha { is_alphabetic(c) } else { is_whitespace(c) };
        if !hit {
            assert(s@.skip(i as int)[0] == c);
            return i;
        }
        proof {
            lemma_strip_leading_step(s@, p, i as int);
        }
        i = i + 1;
    }
    assert(s@.skip(n as int).len() == 0);
    i
}

/// Removes leading and trailing whitespace, as `str::trim` does.
pub fn trim(s: &str) -> (r: String)
    ensures
        r@ == trimmed(s@),
{
    let ghost w = whitespace();
    let start = leading_run(s, false);
    let rest = s.substring_char(start, s.unicode_len());
    assert(rest@ =~= s@.skip(start as int));
    let n = rest.unicode_len();
    let mut j: usize = n;
    assert(rest@.take(n as int) =~= rest@);
    while j > 0
        invariant
            n == rest@.len(),
            j <= n,
            strip_trailing(rest@, w) == strip_trailing(rest@.take(j as int), w),
            w == whitespace(),
        ensures
            j <= n,
            strip_trailing(rest@, w) == strip_trailing(rest@.take(j as int), w),
            j == 0 || !char_is_whitespace(rest@[j - 1]),
        decreases j,
    {
        let c = rest.get_char(j - 1);
        if !is_whitespace(c) {
            break;
        }
        proof {
            lemma_strip_trailing_step(rest@, w, j as int);
        }
        j = j - 1;
    }
    let out = rest.substring_char(0, j);
    assert(out@ =~= rest@.take(j as int));
    assert(j > 0 ==> rest@.take(j as int).last() == rest@[j - 1]);
    assert(strip_trailing(rest@.take(j as int), w) == rest@.take(j as int));
    String::from_str(out)
}

/// Removes the alphabetic characters at the start of `s`, as
/// `str::trim_start_matches(char::is_alphabetic)` does.
pub fn trim_start_alphabetic(s: &str) -> (r: String)
    ensures
        r@ == strip_leading(s@, alphabetic()),
{
    let start = leading_run(s, true);
    let rest = s.substring_char(start, s.unicode_len());
    assert(rest@ =~= s@.skip(start as int));
    String::from_str(rest)
}

/// The upper-case hexadecimal digit of a value below 16.
pub open spec fn hex_digit(v: int) -> char {
    if v < 10 {
        (48 + v) as char
    } else {
        (55 + v) as char
    }
}

/// Bytes that percent-encoding leaves as they are: ASCII letters, digits
/// and `-`, `_`, `.`, `~`.
pub open spec fn is_unreserved(b: u8) -> bool {
    (65 <= b <= 90) || (97 <= b <= 122) || (48 <= b <= 57) || b == 45 || b == 95 || b == 46
        || b == 126
}

/// The encoding of one byte: unreserved bytes stand for themselves, a space
/// becomes "%20", every other byte "%XY" with two upper-case hex digits.
pub open spec fn encode_byte(b: u8) -> Seq<char> {
    if is_unreserved(b) {
        seq![b as char]
    } else if b == 32 {
        "%20"@
    } else {
        seq!['%', hex_digit((b / 16) as int), hex_digit((b % 16) as int)]
    }
}

/// The percent-encoding of a byte sequence.
pub open spec fn percent_encoded(bytes: Seq<u8>) -> Seq<char>
    decreases bytes.len(),
{
    if bytes.len() == 0 {
        Seq::empty()
    } else {
        percent_encoded(bytes.drop_last()) + encode_byte(bytes.last())
    }
}

fn hex_char(v: u8) -> (c: char)
    requires
        v < 16,
    ensures
        c == hex_digit(v as int),
{
    if v < 10 {
        (48 + v) as char
    } else {
        (55 + v) as char
    }
}

/// Percent-encodes the UTF-8 bytes of `s` for use in a URL query.
pub fn url_encode(s: &str) -> (r: String)
    ensures
        r@ == percent_encoded(s.spec_bytes()),
{
    let bytes = s.as_bytes();
    let mut result = String::new();
    let n = bytes.len();
    let mut i: usize = 0;
    while i < n
        invariant
            n == bytes@.len(),
            bytes@ == s.spec_bytes(),
            i <= n,
            result@ == percent_encoded(bytes@.take(i as int)),
        decreases n - i,
    {
        let b = bytes[i];
        if (65 <= b && b <= 90) || (97 <= b && b <= 122) || (48 <= b && b <= 57) || b == 45
            || b == 95 || b == 46 || b == 126 {
            push_char(&mut result, b as char);
        } else if b == 32 {
            result.append("%20");
            proof {
                reveal_strlit("%20");
            }
        } else {
            push_char(&mut result, '%');
            push_char(&mut result, hex_char(b / 16));
            push_char(&mut result, hex_char(b % 16));
        }
        assert(bytes@.take(i + 1).drop_last() =~= bytes@.take(i as int));
        assert(result@ =~= percent_encoded(bytes@.take(i as int)) + encode_byte(b));
        i = i + 1;
    }
    assert(bytes@.take(n as int) =~= bytes@);
    result
}

/// The value of an upper-case hexadecimal digit.
pub open spec fn hex_value(c: char) -> int {
    if '0' <= c <= '9' {
        c as int - 48
    } else {
        c as int - 55
    }
}

/// Percent-decoding: "%XY" stands for the byte with hexadecimal value XY,
/// any other character for its own code.
pub open spec fn percent_decoded(s: Seq<char>) -> Seq<u8>
    decreases s.len(),
{
    if s.len() == 0 {
        Seq::empty()
    } else if s[0] == '%' && s.len() >= 3 {
        seq![(hex_value(s[1]) * 16 + hex_value(s[2])) as u8] + percent_decoded(s.skip(3))
    } else {
        seq![s[0] as u8] + percent_decoded(s.skip(1))
    }
}

/// The characters that a percent-encoded text is made of: ASCII letters and
/// digits, `-`, `_`, `.`, `~` and `%`.
pub open spec fn is_url_char(c: char) -> bool {
    ('A' <= c <= 'Z') || ('a' <= c <= 'z') || ('0' <= c <= '9') || c == '-' || c == '_' || c
        == '.' || c == '~' || c == '%'
}

/// The length of an encoding: one character for each unreserved byte, three
/// for every other byte.
pub open spec fn encoded_len(bytes: Seq<u8>) -> nat
    decreases bytes.len(),
{
    if bytes.len() == 0 {
        0
    } else {
        encoded_len(bytes.drop_last()) + if is_unreserved(bytes.last()) {
            1nat
        } else {
            3nat
        }
    }
}

proof fn lemma_encoded_concat(a: Seq<u8>, b: Seq<u8>)
    ensures
        percent_encoded(a + b) == percent_encoded(a) + percent_encoded(b),
    decreases b.len(),
{
    if b.len() == 0 {
        assert(a + b =~= a);
        assert(percent_encoded(a) + percent_encoded(b) =~= percent_encoded(a));
    } else {
        assert((a + b).drop_last() =~= a + b.drop_last());
        assert((a + b).last() == b.last());
        lemma_encoded_concat(a, b.drop_last());
        assert(percent_encoded(a + b) =~= percent_encoded(a) + percent_encoded(b));
    }
}

proof fn lemma_hex_round_trip(v: int)
    requires
        0 <= v < 16,
    ensures
        hex_value(hex_digit(v)) == v,
        '0' <= hex_digit(v) <= '9' || 'A' <= hex_digit(v) <= 'F',
        hex_digit(v) != '%',
{
}

proof fn lemma_decode_byte(x: u8, t: Seq<char>)
    ensures
        percent_decoded(encode_byte(x) + t) == seq![x] + percent_decoded(t),
{
    let e = encode_byte(x);
    let s = e + t;
    reveal_strlit("%20");
    if is_unreserved(x) {
        assert(s[0] == x as char);
        assert(s.skip(1) =~= t);
    } else if x == 32 {
        assert(s[0] == '%' && s[1] == '2' && s[2] == '0');
        assert(s.skip(3) =~= t);
    } else {
        lemma_hex_round_trip((x / 16) as int);
        lemma_hex_round_trip((x % 16) as int);
        assert(s[0] == '%');
        assert(s.skip(3) =~= t);
        assert((x / 16) * 16 + x % 16 == x);
    }
}

proof fn lemma_decode_encoded(bytes: Seq<u8>)
    ensures
        percent_decoded(percent_encoded(bytes)) == bytes,
    decreases bytes.len(),
{
    if bytes.len() > 0 {
        let first = seq![bytes[0]];
        let rest = bytes.skip(1);
        assert(bytes =~= first + rest);
        lemma_encoded_concat(first, rest);
        assert(first.drop_last() =~= Seq::<u8>::empty());
        assert(percent_encoded(first.drop_last()) =~= Seq::<char>::empty());
        assert(first.last() == bytes[0]);
        assert(percent_encoded(first) =~= encode_byte(bytes[0]));
        lemma_decode_byte(bytes[0], percent_encoded(rest));
        lemma_decode_encoded(rest);
        assert(seq![bytes[0]] + rest =~= bytes);
    }
}

/// An upper-case hexadecimal digit.
pub open spec fn is_upper_hex(c: char) -> bool {
    ('0' <= c <= '9') || ('A' <= c <= 'F')
}

/// Every `%` of `s` is followed by two upper-case hexadecimal digits.
pub open spec fn escapes_upper_hex(s: Seq<char>) -> bool {
    forall|i: int|
        0 <= i < s.len() && #[trigger] s[i] == '%' ==> i + 2 < s.len() && is_upper_hex(s[i + 1])
            && is_upper_hex(s[i + 2])
}

proof fn lemma_encoded_shape(bytes: Seq<u8>)
    ensures
        percent_encoded(bytes).len() == encoded_len(bytes),
        forall|i: int| 0 <= i < percent_encoded(bytes).len() ==> is_url_char(#[trigger] percent_encoded(bytes)[i]),
        escapes_upper_hex(percent_encoded(bytes)),
    decreases bytes.len(),
{
    reveal_strlit("%20");
    if bytes.len() > 0 {
        let b = bytes.last();
        let front = percent_encoded(bytes.drop_last());
        lemma_encoded_shape(bytes.drop_last());
        lemma_hex_round_trip((b / 16) as int);
        lemma_hex_round_trip((b % 16) as int);
        let e = encode_byte(b);
        assert forall|i: int| 0 <= i < e.len() implies is_url_char(#[trigger] e[i]) by {}
        assert forall|i: int| 0 <= i < percent_encoded(bytes).len() implies is_url_char(
            #[trigger] percent_encoded(bytes)[i],
        ) by {
            if i < front.len() {
                assert(percent_encoded(bytes)[i] == front[i]);
            } else {
                assert(percent_encoded(bytes)[i] == e[i - front.len()]);
            }
        }
        let all = percent_encoded(bytes);
        assert(all == front + e);
        assert forall|i: int| 0 <= i < all.len() && #[trigger] all[i] == '%' implies i + 2 < all.len()
            && is_upper_hex(all[i + 1]) && is_upper_hex(all[i + 2]) by {
            if i < front.len() {
                assert(front[i] == '%');
                assert(all[i + 1] == front[i + 1]);
                assert(all[i + 2] == front[i + 2]);
            } else {
                let k = i - front.len();
                assert(e[k] == '%');
                assert(k == 0);
                assert(all[i + 1] == e[1]);
                assert(all[i + 2] == e[2]);
            }
        }
    } else {
        assert(percent_encoded(bytes).len() == 0);
    }
}

/// Percent-encoding loses nothing and yields plain URL text: decoding gives
/// the bytes back; the text has one character for each unreserved byte and
/// three for any other; it holds only ASCII letters and digits, `-`, `_`,
/// `.`, `~` and `%`; every `%` is followed by two upper-case hex digits.
pub proof fn lemma_percent_encoding_laws(bytes: Seq<u8>)
    ensures
        percent_decoded(percent_encoded(bytes)) == bytes,
        percent_encoded(bytes).len() == encoded_len(bytes),
        forall|i: int| 0 <= i < percent_encoded(bytes).len() ==> is_url_char(#[trigger] percent_encoded(bytes)[i]),
        escapes_upper_hex(percent_encoded(bytes)),
{
    lemma_decode_encoded(bytes);
    lemma_encoded_shape(bytes);
}

/// The decimal digits of a number, without leading zeros.
pub open spec fn decimal(n: nat) -> Seq<char>
    decreases n,
{
    if n < 10 {
        seq![(48 + n) as char]
    } else {
        decimal(n / 10).push((48 + n % 10) as char)
    }
}

/// Writes a number in decimal.
pub fn decimal_string(n: u64) -> (r: String)
    ensures
        r@ == decimal(n as nat),
    decreases n,
{
    if n < 10 {
        let mut r = String::new();
        push_char(&mut r, ((48 + n) as u8) as char);
        assert(r@ =~= decimal(n as nat));
        r
    } else {
        let mut r = decimal_string(n / 10);
        push_char(&mut r, ((48 + n % 10) as u8) as char);
        r
    }
}

} // verus!
