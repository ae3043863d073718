//! Verified text utilities: whitespace tokenisation, decimal rendering,
//! comma escaping and small concatenation helpers.

use vstd::prelude::*;

use crate::outside::push_char;

verus! {

/// The view of an optional string.
pub open spec fn opt_view(o: Option<String>) -> Option<Seq<char>> {
    match o {
        Some(s) => Some(s@),
        None => None,
    }
}

/// The views of a sequence of strings.
pub open spec fn strs_view(v: Seq<String>) -> Seq<Seq<char>> {
    v.map_values(|s: String| s@)
}

/// ASCII whitespace, the delimiters recognised when a token is read off a
/// query result.
pub open spec fn is_space_char(c: char) -> bool {
    c == ' ' || c == '\t' || c == '\n' || c == '\r' || c == '\x0b' || c == '\x0c'
}

/// The first index at or after `i` holding a non-space character, or the
/// length of `s` if spaces run to the end.
pub open spec fn skip_spaces(s: Seq<char>, i: int) -> int
    decreases s.len() - i,
{
    if i < 0 || i >= s.len() {
        s.len() as int
    } else if is_space_char(s[i]) {
        skip_spaces(s, i + 1)
    } else {
        i
    }
}

/// The first index at or after `i` holding a space character, or the length
/// of `s` if non-spaces run to the end.
pub open spec fn token_end(s: Seq<char>, i: int) -> int
    decreases s.len() - i,
{
    if i < 0 || i >= s.len() {
        s.len() as int
    } else if !is_space_char(s[i]) {
        token_end(s, i + 1)
    } else {
        i
    }
}

/// The first whitespace-delimited token of `s`, or `None` if `s` holds only
/// whitespace (or nothing).
pub open spec fn spec_first_token(s: Seq<char>) -> Option<Seq<char>> {
    let b = skip_spaces(s, 0);
    if b >= s.len() {
        None
    } else {
        Some(s.subrange(b, token_end(s, b)))
    }
}

/// Whether `c` is ASCII whitespace.
pub fn is_space(c: char) -> (r: bool)
    ensures
        r == is_space_char(c),
{
    c == ' ' || c == '\t' || c == '\n' || c == '\r' || c == '\x0b' || c == '\x0c'
}

/// The first whitespace-delimited token of `s`, or `None` if there is none.
pub fn first_token(s: &str) -> (r: Option<String>)
    ensures
        opt_view(r) == spec_first_token(s@),
{
    let len = s.unicode_len();
    let mut b: usize = 0;
    while b < len && is_space(s.get_char(b))
        invariant
            b <= len,
            len == s@.len(),
            skip_spaces(s@, 0) == skip_spaces(s@, b as int),
        decreases len - b,
    {
        b = b + 1;
    }
    assert(skip_spaces(s@, 0) == b as int);
    if b >= len {
        return None;
    }
    let mut e: usize = b;
    while e < len && !is_space(s.get_char(e))
        invariant
            b <= e <= len,
            len == s@.len(),
            token_end(s@, b as int) == token_end(s@, e as int),
        decreases len - e,
    {
        e = e + 1;
    }
    assert(token_end(s@, b as int) == e as int);
    let token = s.substring_char(b, e);
    Some(token.to_owned())
}

/// The character that writes the decimal digit `d`.
pub open spec fn dec_digit(d: nat) -> char {
    if d == 0 {
        '0'
    } else if d == 1 {
        '1'
    } else if d == 2 {
        '2'
    } else if d == 3 {
        '3'
    } else if d == 4 {
        '4'
    } else if d == 5 {
        '5'
    } else if d == 6 {
        '6'
    } else if d == 7 {
        '7'
    } else if d == 8 {
        '8'
    } else {
        '9'
    }
}

/// The decimal writing of `n`, most significant digit first, no leading
/// zeros (a single `'0'` for zero).
pub open spec fn dec_rep(n: nat) -> Seq<char>
    decreases n,
{
    if n < 10 {
        seq![dec_digit(n)]
    } else {
        dec_rep(n / 10).push(dec_digit(n % 10))
    }
}

/// Appends the digit character of `d` to `out`.
fn push_digit(out: &mut String, d: u8)
    requires
        d < 10,
    ensures
        final(out)@ == old(out)@.push(dec_digit(d as nat)),
{
    let c: char = match d {
        0 => '0',
        1 => '1',
        2 => '2',
        3 => '3',
        4 => '4',
        5 => '5',
        6 => '6',
        7 => '7',
        8 => '8',
        _ => '9',
    };
    assert(c == dec_digit(d as nat));
    push_char(out, c);
}

/// Appends the decimal writing of `n` to `out`.
pub fn append_decimal(out: &mut String, n: u64)
    ensures
        final(out)@ == old(out)@ + dec_rep(n as nat),
    decreases n,
{
    if n >= 10 {
        assert(n / 10 < n) by (nonlinear_arith)
            requires
                n >= 10,
        ;
        append_decimal(out, n / 10);
        push_digit(out, (n % 10) as u8);
        assert(old(out)@ + dec_rep((n / 10) as nat).push(dec_digit((n % 10) as nat)) =~= (old(out)@
            + dec_rep((n / 10) as nat)).push(dec_digit((n % 10) as nat)));
    } else {
        push_digit(out, n as u8);
        assert(old(out)@ + seq![dec_digit(n as nat)] =~= old(out)@.push(dec_digit(n as nat)));
    }
}

/// The decimal writing of `n` as a fresh string.
pub fn u64_to_string(n: u64) -> (r: String)
    ensures
        r@ == dec_rep(n as nat),
{
    let mut out = String::new();
    append_decimal(&mut out, n);
    assert(Seq::<char>::empty() + dec_rep(n as nat) =~= dec_rep(n as nat));
    out
}

/// `s` with every comma preceded by a backslash, so that the release manager
/// does not read the comma as a list separator.
pub open spec fn spec_escape_commas(s: Seq<char>) -> Seq<char>
    decreases s.len(),
{
    if s.len() == 0 {
        seq![]
    } else {
        spec_escape_commas(s.drop_last()) + (if s.last() == ',' {
            seq!['\\', ',']
        } else {
            seq![s.last()]
        })
    }
}

/// Escapes every comma of `s` with a backslash.
pub fn escape_commas(s: &str) -> (r: String)
    ensures
        r@ == spec_escape_commas(s@),
{
    let len = s.unicode_len();
    let mut out = String::new();
    let mut i: usize = 0;
    while i < len
        invariant
            i <= len,
            len == s@.len(),
            out@ == spec_escape_commas(s@.take(i as int)),
        decreases len - i,
    {
        let c = s.get_char(i);
        if c == ',' {
            out.append("\\,");
            proof {
                reveal_strlit("\\,");
                assert("\\,"@ =~= seq!['\\', ',']);
            }
        } else {
            push_char(&mut out, c);
        }
        proof {
            assert(s@.take(i as int + 1).drop_last() =~= s@.take(i as int));
            assert(s@.take(i as int + 1).last() == s@[i as int]);
            assert(out@ =~= spec_escape_commas(s@.take(i as int + 1)));
        }
        i = i + 1;
    }
    proof {
        assert(s@.take(len as int) =~= s@);
    }
    out
}

/// The concatenation of two strings.
pub fn concat2(a: &str, b: &str) -> (r: String)
    ensures
        r@ == a@ + b@,
{
    let mut out = a.to_owned();
    out.append(b);
    out
}

/// The concatenation of three strings.
pub fn concat3(a: &str, b: &str, c: &str) -> (r: String)
    ensures
        r@ == a@ + b@ + c@,
{
    let mut out = a.to_owned();
    out.append(b);
    out.append(c);
    out
}

} // verus!
