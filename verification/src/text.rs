//! Building blocks for text: decimal numerals, concatenation around a value,
//! and joining lines with a separator.
use vstd::prelude::*;
use vstd::string::StringExecFns;
use vstd::utf8::{decode_utf8, valid_utf8};

verus! {

/// The character that writes the digit `d`.
pub open spec fn digit(d: nat) -> char {
    if d == 0 {
        '0'
    } else if d == 1 {
        '1'
    } else if d == 2 {
        '2'
    } else if d == 3 {
        '3'
    } else if d == 4 {
        '4'
    } else if d == 5 {
        '5'
    } else if d == 6 {
        '6'
    } else if d == 7 {
        '7'
    } else if d == 8 {
        '8'
    } else {
        '9'
    }
}

/// The decimal numeral of `n`: no sign, no leading zero, `"0"` for zero.
pub open spec fn decimal(n: nat) -> Seq<char>
    decreases n,
{
    if n < 10 {
        seq![digit(n)]
    } else {
        decimal(n / 10).push(digit(n % 10))
    }
}

/// The number that a digit character writes.
pub open spec fn digit_value(c: char) -> nat {
    if c == '1' {
        1
    } else if c == '2' {
        2
    } else if c == '3' {
        3
    } else if c == '4' {
        4
    } else if c == '5' {
        5
    } else if c == '6' {
        6
    } else if c == '7' {
        7
    } else if c == '8' {
        8
    } else if c == '9' {
        9
    } else {
        0
    }
}

/// The number that a sequence of digits writes in base ten.
pub open spec fn numeral_value(s: Seq<char>) -> nat
    decreases s.len(),
{
    if s.len() == 0 {
        0
    } else {
        numeral_value(s.drop_last()) * 10 + digit_value(s.last())
    }
}

/// The decimal numeral of a number writes that number, has at least one
/// digit, and begins with a zero only where the number is zero.
pub proof fn lemma_decimal_writes_the_number(n: nat)
    ensures
        numeral_value(decimal(n)) == n,
        decimal(n).len() >= 1,
        n > 0 ==> decimal(n)[0] != '0',
    decreases n,
{
    if n < 10 {
        assert(decimal(n).drop_last() =~= Seq::<char>::empty());
        assert(numeral_value(decimal(n).drop_last()) == 0);
    } else {
        lemma_decimal_writes_the_number(n / 10);
        assert(decimal(n).drop_last() =~= decimal(n / 10));
        assert(decimal(n)[0] == decimal(n / 10)[0]);
    }
}

/// The lines of `lines` with `sep` between each two neighbours, and nothing
/// before the first or after the last.
pub open spec fn join(lines: Seq<Seq<char>>, sep: Seq<char>) -> Seq<char>
    decreases lines.len(),
{
    if lines.len() == 0 {
        Seq::empty()
    } else if lines.len() == 1 {
        lines[0]
    } else {
        join(lines.drop_last(), sep) + sep + lines.last()
    }
}

/// The character sequences held by a vector of strings.
pub open spec fn views(lines: Seq<String>) -> Seq<Seq<char>> {
    lines.map_values(|l: String| l@)
}

/// The one-character string for a digit.
fn digit_str(d: u64) -> (s: &'static str)
    requires
        d < 10,
    ensures
        s@ == seq![digit(d as nat)],
{
    proof {
        reveal_strlit("0");
        reveal_strlit("1");
        reveal_strlit("2");
        reveal_strlit("3");
        reveal_strlit("4");
        reveal_strlit("5");
        reveal_strlit("6");
        reveal_strlit("7");
        reveal_strlit("8");
        reveal_strlit("9");
    }
    let s = if d == 0 {
        "0"
    } else if d == 1 {
        "1"
    } else if d == 2 {
        "2"
    } else if d == 3 {
        "3"
    } else if d == 4 {
        "4"
    } else if d == 5 {
        "5"
    } else if d == 6 {
        "6"
    } else if d == 7 {
        "7"
    } else if d == 8 {
        "8"
    } else {
        "9"
    };
    assert(s@ =~= seq![digit(d as nat)]);
    s
}

/// Writes an unsigned integer as its decimal numeral.
pub fn decimal_string(n: u64) -> (s: String)
    ensures
        s@ == decimal(n as nat),
    decreases n,
{
    if n < 10 {
        String::from_str(digit_str(n))
    } else {
        let mut s = decimal_string(n / 10);
        s.append(digit_str(n % 10));
        assert(s@ =~= decimal((n / 10) as nat).push(digit((n % 10) as nat)));
        s
    }
}

/// Writes a length as its decimal numeral.
pub fn count_string(n: usize) -> (s: String)
    ensures
        s@ == decimal(n as nat),
{
    decimal_string(n as u64)
}

/// `body` between a fixed opening and a fixed closing.
pub fn wrap(open: &str, body: &str, close: &str) -> (s: String)
    ensures
        s@ == open@ + body@ + close@,
{
    let mut s = String::from_str(open);
    s.append(body);
    s.append(close);
    s
}

/// `body` behind a fixed opening.
pub fn prefixed(open: &str, body: &str) -> (s: String)
    ensures
        s@ == open@ + body@,
{
    let mut s = String::from_str(open);
    s.append(body);
    s
}

/// Three fields with one blank between each two.
pub open spec fn spaced3(a: Seq<char>, b: Seq<char>, c: Seq<char>) -> Seq<char> {
    a + " "@ + b + " "@ + c
}

/// Four fields with one blank between each two.
pub open spec fn spaced4(a: Seq<char>, b: Seq<char>, c: Seq<char>, d: Seq<char>) -> Seq<char> {
    a + " "@ + b + " "@ + c + " "@ + d
}

/// Writes three fields with one blank between each two.
pub fn spaced3_string(a: &str, b: &str, c: &str) -> (s: String)
    ensures
        s@ == spaced3(a@, b@, c@),
{
    let mut s = String::from_str(a);
    s.append(" ");
    s.append(b);
    s.append(" ");
    s.append(c);
    s
}

/// Writes four fields with one blank between each two.
pub fn spaced4_string(a: &str, b: &str, c: &str, d: &str) -> (s: String)
    ensures
        s@ == spaced4(a@, b@, c@, d@),
{
    let mut s = spaced3_string(a, b, c);
    s.append(" ");
    s.append(d);
    s
}

/// The text that a sequence of bytes encodes, where it is valid UTF-8.
///
/// This is `std::str::from_utf8`, which is not verified here. The contract
/// says what its documentation says: it succeeds exactly on the byte
/// sequences that are valid UTF-8, and the string it then returns is the
/// given bytes read as UTF-8.
#[verifier::external_body]
pub(crate) fn utf8_text(bytes: &Vec<u8>) -> (r: Option<&str>)
    ensures
        r is Some <==> valid_utf8(bytes@),
        r matches Some(s) ==> s@ == decode_utf8(bytes@),
{
    std::str::from_utf8(bytes.as_slice()).ok()
}

/// A list of lines that holds the single line `first`.
pub fn first_line(first: &str) -> (lines: Vec<String>)
    ensures
        views(lines@) == seq![first@],
{
    let mut lines: Vec<String> = Vec::new();
    lines.push(String::from_str(first));
    assert(views(lines@) =~= seq![first@]);
    lines
}

/// Appends one line to a list of lines.
pub fn push_line(lines: &mut Vec<String>, line: String)
    ensures
        views(final(lines)@) == views(old(lines)@).push(line@),
{
    lines.push(line);
    assert(views(lines@) =~= views(old(lines)@).push(line@));
}

/// Joins lines with a separator.
pub fn join_lines(lines: &Vec<String>, sep: &str) -> (s: String)
    ensures
        s@ == join(views(lines@), sep@),
{
    let mut s = String::new();
    let n = lines.len();
    let mut i: usize = 0;
    while i < n
        invariant
            n == lines@.len(),
            i <= n,
            s@ == join(views(lines@).take(i as int), sep@),
        decreases n - i,
    {
        if i > 0 {
            s.append(sep);
        }
        s.append(lines[i].as_str());
        proof {
            let prev = views(lines@).take(i as int);
            let next = views(lines@).take(i + 1);
            assert(next.drop_last() =~= prev);
            assert(next.last() == lines@[i as int]@);
            if i == 0 {
                assert(s@ =~= next[0]);
            }
        }
        i = i + 1;
    }
    assert(views(lines@).take(n as int) =~= views(lines@));
    s
}

} // verus!
