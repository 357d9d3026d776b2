//! Classification of the topbar's search input.
//!
//! When the user presses Enter in the search field, the overlay trims the
//! text and decides: an empty submission is ignored; text that holds a
//! dot and no space is treated as an address (prefixed with `https://`
//! when it names no scheme); anything else becomes a query against the
//! search engine, percent-encoded.

use vstd::prelude::*;
use vstd::utf8::char_is_scalar;
use crate::text::{str_chars, chars_to_string, contains_char, starts_with, push_all, has_prefix};

verus! {

/// The characters that trimming strips: ASCII whitespace as the page's
/// script engine treats it in `trim()`.
pub open spec fn is_space(c: char) -> bool {
    c == ' ' || c == '\t' || c == '\n' || c == '\r' || c == '\u{b}' || c == '\u{c}'
}

/// Index of the first non-space character at or after `i`.
pub open spec fn trim_start_idx(s: Seq<char>, i: int) -> int
    decreases s.len() - i when 0 <= i <= s.len()
{
    if i < s.len() && is_space(s[i]) {
        trim_start_idx(s, i + 1)
    } else {
        i
    }
}

/// Index just past the last non-space character at or before `j`.
pub open spec fn trim_end_idx(s: Seq<char>, j: int) -> int
    decreases j when 0 <= j <= s.len()
{
    if j > 0 && is_space(s[j - 1]) {
        trim_end_idx(s, j - 1)
    } else {
        j
    }
}

/// `s` with leading and trailing spaces removed.
pub open spec fn trim_spec(s: Seq<char>) -> Seq<char> {
    let a = trim_start_idx(s, 0);
    let b = trim_end_idx(s, s.len() as int);
    if a <= b {
        s.subrange(a, b)
    } else {
        Seq::empty()
    }
}

/// A trimmed submission is taken as an address when it holds a dot and
/// no space.
pub open spec fn is_address(q: Seq<char>) -> bool {
    q.contains('.') && !q.contains(' ')
}

/// The submission already names a scheme the overlay passes through.
pub open spec fn has_scheme(q: Seq<char>) -> bool {
    has_prefix(q, "http://"@) || has_prefix(q, "https://"@)
}

/// The characters that percent-encoding leaves as they are.
pub open spec fn is_unreserved(c: char) -> bool {
    ||| 'A' <= c <= 'Z'
    ||| 'a' <= c <= 'z'
    ||| '0' <= c <= '9'
    ||| c == '-' || c == '_' || c == '.' || c == '!'
    ||| c == '~' || c == '*' || c == '\'' || c == '(' || c == ')'
}

/// Uppercase hexadecimal digit for `n` below 16.
pub open spec fn hex_char(n: u8) -> char {
    if n < 10 {
        (0x30 + n) as char
    } else {
        (0x37 + n) as char
    }
}

/// The UTF-8 encoding of the scalar value `u`.
pub open spec fn utf8_of(u: u32) -> Seq<u8> {
    if u < 0x80 {
        seq![u as u8]
    } else if u < 0x800 {
        seq![(0xC0 + u / 0x40) as u8, (0x80 + u % 0x40) as u8]
    } else if u < 0x10000 {
        seq![
            (0xE0 + u / 0x1000) as u8,
            (0x80 + (u / 0x40) % 0x40) as u8,
            (0x80 + u % 0x40) as u8,
        ]
    } else {
        seq![
            (0xF0 + u / 0x40000) as u8,
            (0x80 + (u / 0x1000) % 0x40) as u8,
            (0x80 + (u / 0x40) % 0x40) as u8,
            (0x80 + u % 0x40) as u8,
        ]
    }
}

/// `%XY` escapes, one per byte.
pub open spec fn pct_of_bytes(bs: Seq<u8>) -> Seq<char>
    decreases bs.len()
{
    if bs.len() == 0 {
        Seq::empty()
    } else {
        seq!['%', hex_char(bs[0] / 16), hex_char(bs[0] % 16)] + pct_of_bytes(bs.drop_first())
    }
}

/// How one character comes out of percent-encoding: unreserved
/// characters stand as they are, every other character as the escapes
/// of its UTF-8 bytes.
pub open spec fn encoded_char(c: char) -> Seq<char> {
    if is_unreserved(c) {
        seq![c]
    } else {
        pct_of_bytes(utf8_of(c as u32))
    }
}

/// Percent-encoding of a whole query.
pub open spec fn percent_encode_spec(s: Seq<char>) -> Seq<char>
    decreases s.len()
{
    if s.len() == 0 {
        Seq::empty()
    } else {
        percent_encode_spec(s.drop_last()) + encoded_char(s.last())
    }
}

/// The fixed query template of the search engine the overlay falls
/// back to.
pub open spec fn search_base() -> Seq<char> {
    "https://duckduckgo.com/?q="@
}

/// Where a submission sends the view: nowhere when it trims to
/// nothing; to itself, or under `https://`, when it reads as an
/// address; otherwise to the search engine with the query encoded.
pub open spec fn nav_target_spec(s: Seq<char>) -> Option<Seq<char>> {
    let q = trim_spec(s);
    if q.len() == 0 {
        None
    } else if is_address(q) {
        if has_scheme(q) {
            Some(q)
        } else {
            Some("https://"@ + q)
        }
    } else {
        Some(search_base() + percent_encode_spec(q))
    }
}

/// Trims leading and trailing spaces from `v`.
pub fn trim_chars(v: &Vec<char>) -> (r: Vec<char>)
    ensures
        r@ == trim_spec(v@),
{
    let n = v.len();
    let mut a: usize = 0;
    while a < n && is_space_exec(v[a])
        invariant
            n == v@.len(),
            0 <= a <= n,
            trim_start_idx(v@, 0) == trim_start_idx(v@, a as int),
        decreases n - a,
    {
        a = a + 1;
    }
    assert(trim_start_idx(v@, a as int) == a as int);
    let mut b: usize = n;
    while b > 0 && is_space_exec(v[b - 1])
        invariant
            n == v@.len(),
            0 <= b <= n,
            trim_end_idx(v@, n as int) == trim_end_idx(v@, b as int),
        decreases b,
    {
        b = b - 1;
    }
    assert(trim_end_idx(v@, b as int) == b as int);
    let mut r: Vec<char> = Vec::new();
    if a >= b {
        assert(r@ =~= trim_spec(v@));
        return r;
    }
    let mut i: usize = a;
    while i < b
        invariant
            a <= i <= b <= v@.len(),
            r@ == v@.subrange(a as int, i as int),
        decreases b - i,
    {
        r.push(v[i]);
        i = i + 1;
        assert(r@ =~= v@.subrange(a as int, i as int));
    }
    assert(r@ =~= trim_spec(v@));
    r
}

/// Executable twin of `is_space`.
pub fn is_space_exec(c: char) -> (r: bool)
    ensures
        r == is_space(c),
{
    c == ' ' || c == '\t' || c == '\n' || c == '\r' || c == '\u{b}' || c == '\u{c}'
}

/// Pushes the `%XY` escape of one byte.
fn push_pct_byte(out: &mut Vec<char>, b: u8)
    ensures
        final(out)@ == old(out)@ + seq!['%', hex_char(b / 16), hex_char(b % 16)],
{
    out.push('%');
    out.push(hex_char_exec(b / 16));
    out.push(hex_char_exec(b % 16));
    assert(out@ =~= old(out)@ + seq!['%', hex_char(b / 16), hex_char(b % 16)]);
}

/// Executable twin of `hex_char`.
fn hex_char_exec(n: u8) -> (r: char)
    requires
        n < 16,
    ensures
        r == hex_char(n),
{
    if n < 10 {
        (0x30 + n) as char
    } else {
        (0x37 + n) as char
    }
}

/// Pushes the percent-escapes of the UTF-8 bytes of scalar `u`.
fn push_encoded_scalar(out: &mut Vec<char>, u: u32)
    requires
        u <= 0x10FFFF,
    ensures
        final(out)@ == old(out)@ + pct_of_bytes(utf8_of(u)),
{
    if u < 0x80 {
        push_pct_byte(out, u as u8);
        proof {
            reveal_with_fuel(pct_of_bytes, 6);
            let bs = utf8_of(u);
            assert(bs.drop_first() =~= Seq::<u8>::empty());
            assert(out@ =~= old(out)@ + pct_of_bytes(bs));
        }
    } else if u < 0x800 {
        let b0 = (0xC0 + u / 0x40) as u8;
        let b1 = (0x80 + u % 0x40) as u8;
        push_pct_byte(out, b0);
        push_pct_byte(out, b1);
        proof {
            reveal_with_fuel(pct_of_bytes, 6);
            let bs = utf8_of(u);
            assert(bs.drop_first() =~= seq![b1]);
            assert(seq![b1].drop_first() =~= Seq::<u8>::empty());
            assert(out@ =~= old(out)@ + pct_of_bytes(bs));
        }
    } else if u < 0x10000 {
        let b0 = (0xE0 + u / 0x1000) as u8;
        let b1 = (0x80 + (u / 0x40) % 0x40) as u8;
        let b2 = (0x80 + u % 0x40) as u8;
        push_pct_byte(out, b0);
        push_pct_byte(out, b1);
        push_pct_byte(out, b2);
        proof {
            reveal_with_fuel(pct_of_bytes, 6);
            let bs = utf8_of(u);
            assert(bs.drop_first() =~= seq![b1, b2]);
            assert(seq![b1, b2].drop_first() =~= seq![b2]);
            assert(seq![b2].drop_first() =~= Seq::<u8>::empty());
            assert(out@ =~= old(out)@ + pct_of_bytes(bs));
        }
    } else {
        let b0 = (0xF0 + u / 0x40000) as u8;
        let b1 = (0x80 + (u / 0x1000) % 0x40) as u8;
        let b2 = (0x80 + (u / 0x40) % 0x40) as u8;
        let b3 = (0x80 + u % 0x40) as u8;
        push_pct_byte(out, b0);
        push_pct_byte(out, b1);
        push_pct_byte(out, b2);
        push_pct_byte(out, b3);
        proof {
            reveal_with_fuel(pct_of_bytes, 6);
            let bs = utf8_of(u);
            assert(bs.drop_first() =~= seq![b1, b2, b3]);
            assert(seq![b1, b2, b3].drop_first() =~= seq![b2, b3]);
            assert(seq![b2, b3].drop_first() =~= seq![b3]);
            assert(seq![b3].drop_first() =~= Seq::<u8>::empty());
            assert(out@ =~= old(out)@ + pct_of_bytes(bs));
        }
    }
}

/// Executable twin of `is_unreserved`.
pub fn is_unreserved_exec(c: char) -> (r: bool)
    ensures
        r == is_unreserved(c),
{
    ('A' <= c && c <= 'Z') || ('a' <= c && c <= 'z') || ('0' <= c && c <= '9') || c == '-'
        || c == '_' || c == '.' || c == '!' || c == '~' || c == '*' || c == '\'' || c == '('
        || c == ')'
}

/// Percent-encodes `q`, character by character.
pub fn percent_encode(q: &Vec<char>) -> (r: Vec<char>)
    ensures
        r@ == percent_encode_spec(q@),
{
    let mut out: Vec<char> = Vec::new();
    let mut i: usize = 0;
    while i < q.len()
        invariant
            i <= q@.len(),
            out@ == percent_encode_spec(q@.subrange(0, i as int)),
        decreases q@.len() - i,
    {
        let c = q[i];
        if is_unreserved_exec(c) {
            out.push(c);
        } else {
            proof {
                char_is_scalar(c);
            }
            push_encoded_scalar(&mut out, c as u32);
        }
        i = i + 1;
        proof {
            let pre = q@.subrange(0, i as int);
            assert(pre.drop_last() =~= q@.subrange(0, i - 1));
            assert(pre.last() == q@[i - 1]);
            assert(out@ =~= percent_encode_spec(pre));
        }
    }
    assert(q@.subrange(0, q@.len() as int) =~= q@);
    out
}

/// Decides where a search submission sends the view, if anywhere.
///
/// `None` means the submission trimmed to nothing and is ignored.
pub fn navigation_target(input: &str) -> (r: Option<String>)
    ensures
        match r {
            Some(u) => nav_target_spec(input@) == Some(u@),
            None => nav_target_spec(input@) is None,
        },
{
    let chars = str_chars(input);
    let q = trim_chars(&chars);
    if q.len() == 0 {
        return None;
    }
    let dot = contains_char(&q, '.');
    let space = contains_char(&q, ' ');
    if dot && !space {
        let http = str_chars("http://");
        let https = str_chars("https://");
        if starts_with(&q, &http) || starts_with(&q, &https) {
            Some(chars_to_string(&q))
        } else {
            let mut full = str_chars("https://");
            push_all(&mut full, &q);
            Some(chars_to_string(&full))
        }
    } else {
        let mut full = str_chars("https://duckduckgo.com/?q=");
        let enc = percent_encode(&q);
        push_all(&mut full, &enc);
        Some(chars_to_string(&full))
    }
}

} // verus!
