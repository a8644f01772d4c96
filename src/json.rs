//! The JSON text that goes to the executor, and the serde_json calls that
//! produce and read its scalar pieces.
use vstd::prelude::*;

verus! {

/// The ASCII character of a decimal digit.
pub open spec fn digit_char(d: nat) -> char {
    if d == 0 {
        '0'
    } else if d == 1 {
        '1'
    } else if d == 2 {
        '2'
    } else if d == 3 {
        '3'
    } else if d == 4 {
        '4'
    } else if d == 5 {
        '5'
    } else if d == 6 {
        '6'
    } else if d == 7 {
        '7'
    } else if d == 8 {
        '8'
    } else {
        '9'
    }
}

/// The lower-case hexadecimal character of a value below sixteen.
pub open spec fn hex_char(d: nat) -> char {
    if d < 10 {
        digit_char(d)
    } else if d == 10 {
        'a'
    } else if d == 11 {
        'b'
    } else if d == 12 {
        'c'
    } else if d == 13 {
        'd'
    } else if d == 14 {
        'e'
    } else {
        'f'
    }
}

/// A natural number in decimal, without leading zeros.
pub open spec fn nat_text(n: nat) -> Seq<char>
    decreases n,
{
    if n < 10 {
        seq![digit_char(n)]
    } else {
        nat_text(n / 10).push(digit_char(n % 10))
    }
}

/// Decimal text is never empty and opens with a digit, never with a quote
/// or a bracket.
pub proof fn lemma_nat_text_first(n: nat)
    ensures
        nat_text(n).len() >= 1,
        nat_text(n)[0] != '"',
        nat_text(n)[0] != '[',
    decreases n,
{
    if n >= 10 {
        lemma_nat_text_first(n / 10);
    }
}

/// An integer in decimal, with a minus sign when negative.
pub open spec fn int_text(i: int) -> Seq<char> {
    if i < 0 {
        seq!['-'] + nat_text((-i) as nat)
    } else {
        nat_text(i as nat)
    }
}

/// How one character stands inside a JSON string literal: quote, backslash
/// and control characters are escaped, everything else stands as it is.
pub open spec fn escaped_char(c: char) -> Seq<char> {
    if c == '"' {
        seq!['\\', '"']
    } else if c == '\\' {
        seq!['\\', '\\']
    } else if c == '\n' {
        seq!['\\', 'n']
    } else if c == '\r' {
        seq!['\\', 'r']
    } else if c == '\t' {
        seq!['\\', 't']
    } else if c == '\x08' {
        seq!['\\', 'b']
    } else if c == '\x0c' {
        seq!['\\', 'f']
    } else if (c as u32) < 32 {
        seq!['\\', 'u', '0', '0', hex_char((c as u32 / 16) as nat), hex_char((c as u32 % 16) as nat)]
    } else {
        seq![c]
    }
}

/// The characters of `s`, each escaped.
pub open spec fn escaped(s: Seq<char>) -> Seq<char>
    decreases s.len(),
{
    if s.len() == 0 {
        seq![]
    } else {
        escaped(s.drop_last()) + escaped_char(s.last())
    }
}

/// `s` as a JSON string literal.
pub open spec fn quoted(s: Seq<char>) -> Seq<char> {
    seq!['"'] + escaped(s) + seq!['"']
}

/// The numbers of `v` in decimal, separated by commas.
pub open spec fn u32_items_text(v: Seq<u32>) -> Seq<char>
    decreases v.len(),
{
    if v.len() == 0 {
        seq![]
    } else if v.len() == 1 {
        nat_text(v[0] as nat)
    } else {
        u32_items_text(v.drop_last()) + ","@ + nat_text(v.last() as nat)
    }
}

/// `v` as a JSON array of numbers.
pub open spec fn u32_list_text(v: Seq<u32>) -> Seq<char> {
    "["@ + u32_items_text(v) + "]"@
}

/// An optional integer: the number, or `null`.
pub open spec fn opt_int_text(v: Option<i32>) -> Seq<char> {
    match v {
        Some(n) => int_text(n as int),
        None => "null"@,
    }
}

/// A boolean as JSON.
pub open spec fn bool_text(b: bool) -> Seq<char> {
    if b {
        "true"@
    } else {
        "false"@
    }
}

/// Relies on serde_json::to_string for an `i64`: the number in decimal, with a
/// minus sign when negative (serde_json writes integers with itoa).
#[verifier::external_body]
fn int_json(n: i64) -> (r: String)
    ensures
        r@ == int_text(n as int),
{
    serde_json::to_string(&n).unwrap_or_default()
}

/// Relies on serde_json::to_string for a `str`: the text in double quotes,
/// with `"`, `\` and the control characters escaped as `escaped_char` says.
#[verifier::external_body]
fn str_json(s: &str) -> (r: String)
    ensures
        r@ == quoted(s@),
{
    serde_json::to_string(s).unwrap_or_default()
}

/// Relies on serde_json::from_str for a `u32`: the decimal text of a `u32`
/// reads back as that number.
#[verifier::external_body]
pub(crate) fn parse_u32(s: &str) -> (r: Option<u32>)
    ensures
        forall|n: u32| #[trigger] nat_text(n as nat) == s@ ==> r == Some(n),
{
    serde_json::from_str::<u32>(s).ok()
}

/// Relies on serde_json::from_str for a `String`: a string literal as
/// serde_json writes it reads back as the text it was written from.
#[verifier::external_body]
pub(crate) fn parse_string(s: &str) -> (r: Option<String>)
    ensures
        forall|t: Seq<char>| #[trigger] quoted(t) == s@ ==> r is Some && r.unwrap()@ == t,
{
    serde_json::from_str::<String>(s).ok()
}

/// Relies on serde_json::from_str for a `Vec<u32>`: an array of decimal
/// numbers, comma separated without spaces, reads back as those numbers.
#[verifier::external_body]
pub(crate) fn parse_u32_list(s: &str) -> (r: Option<Vec<u32>>)
    ensures
        forall|v: Seq<u32>| #[trigger] u32_list_text(v) == s@ ==> r is Some && r.unwrap()@ == v,
{
    serde_json::from_str::<Vec<u32>>(s).ok()
}

/// Appends `n` in decimal.
pub fn push_int(out: &mut String, n: i64)
    ensures
        final(out)@ == old(out)@ + int_text(n as int),
{
    let t = int_json(n);
    out.append(t.as_str());
}

/// Appends `s` as a JSON string literal.
pub fn push_str_literal(out: &mut String, s: &str)
    ensures
        final(out)@ == old(out)@ + quoted(s@),
{
    let t = str_json(s);
    out.append(t.as_str());
}

/// Appends an optional integer, `null` when absent.
pub fn push_opt_int(out: &mut String, v: Option<i32>)
    ensures
        final(out)@ == old(out)@ + opt_int_text(v),
{
    match v {
        Some(n) => push_int(out, n as i64),
        None => out.append("null"),
    }
}

/// Appends `true` or `false`.
pub fn push_bool(out: &mut String, b: bool)
    ensures
        final(out)@ == old(out)@ + bool_text(b),
{
    if b {
        out.append("true");
    } else {
        out.append("false");
    }
}

/// Appends `v` as a JSON array of numbers.
pub fn push_u32_list(out: &mut String, v: &Vec<u32>)
    ensures
        final(out)@ == old(out)@ + u32_list_text(v@),
{
    let ghost start = out@;
    out.append("[");
    assert(v@.take(0) =~= Seq::<u32>::empty());
    assert(out@ =~= start + "["@ + u32_items_text(v@.take(0)));
    let mut i: usize = 0;
    while i < v.len()
        invariant
            i <= v.len(),
            out@ == start + "["@ + u32_items_text(v@.take(i as int)),
        decreases v.len() - i,
    {
        let ghost before = out@;
        if i > 0 {
            out.append(",");
        }
        push_int(out, v[i] as i64);
        proof {
            let t = v@.take(i + 1);
            assert(t.drop_last() =~= v@.take(i as int));
            assert(t.last() == v@[i as int]);
            assert(out@ =~= start + "["@ + u32_items_text(t));
        }
        i = i + 1;
    }
    assert(v@.take(v.len() as int) =~= v@);
    out.append("]");
    assert(out@ =~= start + u32_list_text(v@));
}

} // verus!
