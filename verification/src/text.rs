//! Verified text building blocks: decimal formatting, JSON string escaping,
//! and helpers that assemble output character by character.

use vstd::prelude::*;

verus! {

/// The character for a single decimal digit.
pub open spec fn spec_digit_char(d: int) -> char
    recommends
        0 <= d < 10,
{
    ((d + 0x30) as u8) as char
}

/// The character for a single hexadecimal digit, in lower case.
pub open spec fn spec_hex_char(d: int) -> char
    recommends
        0 <= d < 16,
{
    if d < 10 {
        ((d + 0x30) as u8) as char
    } else {
        ((d + 0x57) as u8) as char
    }
}

/// The character for a single hexadecimal digit, in upper case.
pub open spec fn spec_hex_upper_char(d: int) -> char
    recommends
        0 <= d < 16,
{
    if d < 10 {
        ((d + 0x30) as u8) as char
    } else {
        ((d + 0x37) as u8) as char
    }
}

/// The canonical decimal text of a nonnegative integer: no sign, no leading
/// zeros (a single `0` for zero).
pub open spec fn spec_dec_text(n: int) -> Seq<char>
    recommends
        n >= 0,
    decreases n,
{
    if n < 10 {
        seq![spec_digit_char(n)]
    } else {
        spec_dec_text(n / 10).push(spec_digit_char(n % 10))
    }
}

/// Two different nonnegative integers never share their decimal text.
pub proof fn lemma_dec_text_injective(a: int, b: int)
    requires
        a >= 0,
        b >= 0,
        spec_dec_text(a) == spec_dec_text(b),
    ensures
        a == b,
    decreases a,
{
    lemma_digit_char_codes();
    if a < 10 && b < 10 {
        assert(spec_dec_text(a)[0] == spec_digit_char(a));
        assert(spec_dec_text(b)[0] == spec_digit_char(b));
    } else if a < 10 && b >= 10 {
        assert(spec_dec_text(a).len() == 1);
        assert(spec_dec_text(b).len() == spec_dec_text(b / 10).len() + 1);
        assert(spec_dec_text(b / 10).len() >= 1) by {
            lemma_dec_text_len(b / 10);
        }
    } else if a >= 10 && b < 10 {
        assert(spec_dec_text(b).len() == 1);
        assert(spec_dec_text(a).len() == spec_dec_text(a / 10).len() + 1);
        assert(spec_dec_text(a / 10).len() >= 1) by {
            lemma_dec_text_len(a / 10);
        }
    } else {
        let pa = spec_dec_text(a / 10);
        let pb = spec_dec_text(b / 10);
        assert(spec_dec_text(a) == pa.push(spec_digit_char(a % 10)));
        assert(spec_dec_text(b) == pb.push(spec_digit_char(b % 10)));
        assert(pa.push(spec_digit_char(a % 10)).last() == spec_digit_char(a % 10));
        assert(pb.push(spec_digit_char(b % 10)).last() == spec_digit_char(b % 10));
        assert(a % 10 == b % 10);
        assert(pa =~= pb) by {
            assert(pa.len() + 1 == pb.len() + 1);
            assert(forall|i: int|
                0 <= i < pa.len() ==> #[trigger] pa[i] == pa.push(spec_digit_char(a % 10))[i]);
            assert(forall|i: int|
                0 <= i < pb.len() ==> #[trigger] pb[i] == pb.push(spec_digit_char(b % 10))[i]);
        }
        lemma_dec_text_injective(a / 10, b / 10);
    }
}

/// The decimal text of a nonnegative integer is never empty.
proof fn lemma_dec_text_len(n: int)
    requires
        n >= 0,
    ensures
        spec_dec_text(n).len() >= 1,
    decreases n,
{
    if n >= 10 {
        lemma_dec_text_len(n / 10);
    }
}

/// Distinct digits have distinct characters: the character of a digit `d`
/// has code `d + 0x30`.
proof fn lemma_digit_char_codes()
    ensures
        forall|d: int| 0 <= d < 10 ==> (#[trigger] spec_digit_char(d)) as u32 == d + 0x30,
{
}

fn digit_char(d: u64) -> (c: char)
    requires
        d < 10,
    ensures
        c == spec_digit_char(d as int),
{
    ((d + 0x30) as u8) as char
}

fn hex_char(d: u32) -> (c: char)
    requires
        d < 16,
    ensures
        c == spec_hex_char(d as int),
{
    if d < 10 {
        ((d + 0x30) as u8) as char
    } else {
        ((d + 0x57) as u8) as char
    }
}

/// Append the decimal text of `n` to `out`.
pub(crate) fn push_dec_text(out: &mut Vec<char>, n: u64)
    ensures
        final(out)@ == old(out)@ + spec_dec_text(n as int),
    decreases n,
{
    if n < 10 {
        out.push(digit_char(n));
    } else {
        push_dec_text(out, n / 10);
        out.push(digit_char(n % 10));
    }
}

/// Append every character of `s` to `out`.
pub(crate) fn push_str_chars(out: &mut Vec<char>, s: &str)
    ensures
        final(out)@ == old(out)@ + s@,
{
    let n = s.unicode_len();
    let mut i: usize = 0;
    while i < n
        invariant
            i <= n,
            n == s@.len(),
            out@ == old(out)@ + s@.subrange(0, i as int),
        decreases n - i,
    {
        let c = s.get_char(i);
        out.push(c);
        proof {
            assert(s@.subrange(0, i as int + 1) =~= s@.subrange(0, i as int).push(s@[i as int]));
        }
        i = i + 1;
    }
    proof {
        assert(s@.subrange(0, n as int) =~= s@);
    }
}

/// How one character is written inside a JSON string literal: `"` and `\`
/// get a backslash, the common control characters use their short escapes,
/// the remaining control characters use `\u00..` with lower-case hex, and
/// every other character stands for itself.
pub open spec fn spec_escape_char(c: char) -> Seq<char> {
    if c == '"' {
        seq!['\\', '"']
    } else if c == '\\' {
        seq!['\\', '\\']
    } else if c == '\u{8}' {
        seq!['\\', 'b']
    } else if c == '\t' {
        seq!['\\', 't']
    } else if c == '\n' {
        seq!['\\', 'n']
    } else if c == '\u{c}' {
        seq!['\\', 'f']
    } else if c == '\r' {
        seq!['\\', 'r']
    } else if (c as u32) < 0x20 {
        seq!['\\', 'u', '0', '0', spec_hex_char((c as u32 / 16) as int), spec_hex_char((c as u32 % 16) as int)]
    } else {
        seq![c]
    }
}

/// A JSON string literal: quotes around `s`.
pub open spec fn spec_quoted(s: Seq<char>) -> Seq<char> {
    seq!['"'] + s + seq!['"']
}

/// The body of a JSON string literal for `s`: each character escaped as
/// [`spec_escape_char`] says.
pub open spec fn spec_escape(s: Seq<char>) -> Seq<char>
    decreases s.len(),
{
    if s.len() == 0 {
        Seq::empty()
    } else {
        spec_escape_char(s[0]) + spec_escape(s.drop_first())
    }
}

proof fn lemma_escape_push(s: Seq<char>, c: char)
    ensures
        spec_escape(s.push(c)) == spec_escape(s) + spec_escape_char(c),
    decreases s.len(),
{
    let e = s.push(c);
    if s.len() == 0 {
        assert(e[0] == c);
        assert(e.drop_first() =~= Seq::<char>::empty());
        assert(spec_escape(e) == spec_escape_char(c) + spec_escape(Seq::<char>::empty()));
        assert(spec_escape_char(c) + Seq::<char>::empty() =~= Seq::<char>::empty()
            + spec_escape_char(c));
    } else {
        assert(e[0] == s[0]);
        assert(e.drop_first() =~= s.drop_first().push(c));
        lemma_escape_push(s.drop_first(), c);
        assert(spec_escape(e) == spec_escape_char(s[0]) + (spec_escape(s.drop_first())
            + spec_escape_char(c)));
        assert(spec_escape_char(s[0]) + (spec_escape(s.drop_first()) + spec_escape_char(c)) =~= (
        spec_escape_char(s[0]) + spec_escape(s.drop_first())) + spec_escape_char(c));
    }
}

fn push_escaped_char(out: &mut Vec<char>, c: char)
    ensures
        final(out)@ == old(out)@ + spec_escape_char(c),
{
    let code = c as u32;
    if c == '"' {
        out.push('\\');
        out.push('"');
    } else if c == '\\' {
        out.push('\\');
        out.push('\\');
    } else if code == 0x8 {
        out.push('\\');
        out.push('b');
    } else if code == 0x9 {
        out.push('\\');
        out.push('t');
    } else if code == 0xa {
        out.push('\\');
        out.push('n');
    } else if code == 0xc {
        out.push('\\');
        out.push('f');
    } else if code == 0xd {
        out.push('\\');
        out.push('r');
    } else if code < 0x20 {
        out.push('\\');
        out.push('u');
        out.push('0');
        out.push('0');
        out.push(hex_char(code / 16));
        out.push(hex_char(code % 16));
    } else {
        out.push(c);
    }
    proof {
        assert(out@ =~= old(out)@ + spec_escape_char(c));
    }
}

/// Append a JSON string literal for `s` to `out`: an opening quote, the
/// escaped characters of `s`, and a closing quote.
pub(crate) fn push_json_string(out: &mut Vec<char>, s: &str)
    ensures
        final(out)@ == old(out)@ + spec_quoted(spec_escape(s@)),
{
    out.push('"');
    let ghost quoted = out@;
    let n = s.unicode_len();
    let mut i: usize = 0;
    while i < n
        invariant
            i <= n,
            n == s@.len(),
            out@ == quoted + spec_escape(s@.subrange(0, i as int)),
        decreases n - i,
    {
        let c = s.get_char(i);
        push_escaped_char(out, c);
        proof {
            assert(s@.subrange(0, i as int + 1) =~= s@.subrange(0, i as int).push(s@[i as int]));
            lemma_escape_push(s@.subrange(0, i as int), s@[i as int]);
        }
        i = i + 1;
    }
    out.push('"');
    proof {
        assert(s@.subrange(0, n as int) =~= s@);
        assert(out@ =~= old(out)@ + spec_quoted(spec_escape(s@)));
    }
}

/// Compare two string slices character by character.
pub(crate) fn str_eq(a: &str, b: &str) -> (r: bool)
    ensures
        r == (a@ == b@),
{
    let an = a.unicode_len();
    let bn = b.unicode_len();
    if an != bn {
        proof {
            assert(a@ != b@);
        }
        return false;
    }
    let mut i: usize = 0;
    while i < an
        invariant
            i <= an,
            an == a@.len(),
            an == b@.len(),
            a@.subrange(0, i as int) == b@.subrange(0, i as int),
        decreases an - i,
    {
        if a.get_char(i) != b.get_char(i) {
            proof {
                assert(a@[i as int] != b@[i as int]);
            }
            return false;
        }
        proof {
            assert(a@.subrange(0, i as int + 1) =~= a@.subrange(0, i as int).push(a@[i as int]));
            assert(b@.subrange(0, i as int + 1) =~= b@.subrange(0, i as int).push(b@[i as int]));
        }
        i = i + 1;
    }
    proof {
        assert(a@.subrange(0, an as int) =~= a@);
        assert(b@.subrange(0, an as int) =~= b@);
    }
    true
}

/// Relies on `String::from_iter`: collecting characters builds the string
/// of exactly those characters.
#[verifier::external_body]
pub(crate) fn chars_to_string(v: Vec<char>) -> (r: String)
    ensures
        r@ == v@,
{
    String::from_iter(v)
}

} // verus!
