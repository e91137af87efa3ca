//! Verified text building: JSON string escaping, decimal rendering of
//! integers, and newline joining of transaction logs.  The request bodies and
//! transaction snapshots the library hands out are built through these
//! functions, so their contracts pin the exact character sequences produced.

use vstd::prelude::*;
use crate::trusted::push_char;

verus! {

/// The escape of one character inside a JSON string literal.
pub open spec fn escape_char(c: char) -> Seq<char> {
    if c == '"' {
        seq!['\\', '"']
    } else if c == '\\' {
        seq!['\\', '\\']
    } else if c == '\n' {
        seq!['\\', 'n']
    } else if c == '\r' {
        seq!['\\', 'r']
    } else if c == '\t' {
        seq!['\\', 't']
    } else {
        seq![c]
    }
}

/// The escape of a whole text inside a JSON string literal.
pub open spec fn escape_text(s: Seq<char>) -> Seq<char>
    decreases s.len(),
{
    if s.len() == 0 {
        Seq::empty()
    } else {
        escape_char(s[0]) + escape_text(s.drop_first())
    }
}

pub proof fn lemma_escape_text_push(s: Seq<char>, c: char)
    ensures
        escape_text(s.push(c)) == escape_text(s) + escape_char(c),
    decreases s.len(),
{
    if s.len() == 0 {
        assert(s.push(c)[0] == c);
        assert(s.push(c).drop_first() =~= Seq::<char>::empty());
        assert(escape_text(Seq::<char>::empty()) =~= Seq::<char>::empty());
        assert(escape_text(s.push(c)) == escape_char(c) + escape_text(Seq::<char>::empty()));
        assert(escape_text(s.push(c)) =~= escape_text(s) + escape_char(c));
    } else {
        assert(s.push(c)[0] == s[0]);
        assert(s.push(c).drop_first() =~= s.drop_first().push(c));
        lemma_escape_text_push(s.drop_first(), c);
        assert(escape_text(s.push(c)) == escape_char(s[0]) + escape_text(s.drop_first().push(c)));
        assert(escape_text(s.push(c)) =~= escape_text(s) + escape_char(c));
    }
}

/// Appends the JSON-escaped form of `s` to `out`.
pub fn escape_into(out: &mut String, s: &str)
    ensures
        final(out)@ == old(out)@ + escape_text(s@),
{
    let n = s.unicode_len();
    let mut i: usize = 0;
    while i < n
        invariant
            n == s@.len(),
            i <= n,
            out@ == old(out)@ + escape_text(s@.subrange(0, i as int)),
        decreases n - i,
    {
        let c = s.get_char(i);
        if c == '"' {
            out.append("\\\"");
        } else if c == '\\' {
            out.append("\\\\");
        } else if c == '\n' {
            out.append("\\n");
        } else if c == '\r' {
            out.append("\\r");
        } else if c == '\t' {
            out.append("\\t");
        } else {
            push_char(out, c);
        }
        proof {
            reveal_strlit("\\\"");
            reveal_strlit("\\\\");
            reveal_strlit("\\n");
            reveal_strlit("\\r");
            reveal_strlit("\\t");
            assert(s@.subrange(0, i + 1) =~= s@.subrange(0, i as int).push(s@[i as int]));
            lemma_escape_text_push(s@.subrange(0, i as int), s@[i as int]);
        }
        i += 1;
    }
    proof {
        assert(s@.subrange(0, n as int) =~= s@);
    }
}

/// The character of one decimal digit.
pub open spec fn dec_digit(d: nat) -> char {
    if d == 0 {
        '0'
    } else if d == 1 {
        '1'
    } else if d == 2 {
        '2'
    } else if d == 3 {
        '3'
    } else if d == 4 {
        '4'
    } else if d == 5 {
        '5'
    } else if d == 6 {
        '6'
    } else if d == 7 {
        '7'
    } else if d == 8 {
        '8'
    } else {
        '9'
    }
}

/// The decimal rendering of a natural number, without leading zeroes.
pub open spec fn dec_text(n: nat) -> Seq<char>
    decreases n,
{
    if n < 10 {
        seq![dec_digit(n)]
    } else {
        dec_text(n / 10) + seq![dec_digit(n % 10)]
    }
}

/// The decimal rendering of an integer: a minus sign for negative values.
pub open spec fn int_text(n: int) -> Seq<char> {
    if n < 0 {
        seq!['-'] + dec_text((-n) as nat)
    } else {
        dec_text(n as nat)
    }
}

fn dec_digit_char(d: u64) -> (r: char)
    requires
        d < 10,
    ensures
        r == dec_digit(d as nat),
{
    if d == 0 {
        '0'
    } else if d == 1 {
        '1'
    } else if d == 2 {
        '2'
    } else if d == 3 {
        '3'
    } else if d == 4 {
        '4'
    } else if d == 5 {
        '5'
    } else if d == 6 {
        '6'
    } else if d == 7 {
        '7'
    } else if d == 8 {
        '8'
    } else {
        '9'
    }
}

/// Appends the decimal rendering of `n` to `out`.
pub fn append_u64(out: &mut String, n: u64)
    ensures
        final(out)@ == old(out)@ + dec_text(n as nat),
{
    let mut digits: Vec<char> = Vec::new();
    let mut m: u64 = n;
    loop
        invariant_except_break
            digits@.len() == 0 ==> m == n,
            digits@.len() > 0 ==> m > 0 && dec_text(n as nat) == dec_text(m as nat)
                + digits@.reverse(),
        ensures
            dec_text(n as nat) == digits@.reverse(),
        decreases m,
    {
        let ghost prev = digits@;
        let ghost m0 = m as nat;
        digits.push(dec_digit_char(m % 10));
        m = m / 10;
        proof {
            let ghost d0 = dec_digit(m0 % 10);
            assert(digits@ =~= prev.push(d0));
            assert(prev.push(d0).reverse() =~= seq![d0] + prev.reverse());
            if m0 >= 10 {
                assert(dec_text(m0) == dec_text(m0 / 10) + seq![d0]);
                if prev.len() == 0 {
                    assert(dec_text(n as nat) =~= dec_text(m as nat) + digits@.reverse());
                } else {
                    assert(dec_text(n as nat) =~= dec_text(m as nat) + digits@.reverse());
                }
            } else {
                assert(m0 % 10 == m0);
                assert(dec_text(m0) == seq![d0]);
                if prev.len() == 0 {
                    assert(dec_text(n as nat) =~= digits@.reverse());
                } else {
                    assert(dec_text(n as nat) =~= digits@.reverse());
                }
            }
        }
        if m == 0 {
            break;
        }
    }
    let mut i: usize = digits.len();
    while i > 0
        invariant
            i <= digits@.len(),
            out@ == old(out)@ + digits@.reverse().subrange(
                0,
                digits@.len() - i,
            ),
        decreases i,
    {
        let c = digits[i - 1];
        push_char(out, c);
        proof {
            let ghost rev = digits@.reverse();
            assert(rev[digits@.len() - i] == digits@[i - 1]);
            assert(rev.subrange(0, digits@.len() - (i - 1)) =~= rev.subrange(
                0,
                digits@.len() - i,
            ).push(rev[digits@.len() - i]));
        }
        i -= 1;
    }
    proof {
        assert(digits@.reverse().subrange(0, digits@.len() as int) =~= digits@.reverse());
        assert(out@ =~= old(out)@ + dec_text(n as nat));
    }
}

/// Appends the decimal rendering of a signed integer to `out`.
pub fn append_i64(out: &mut String, n: i64)
    ensures
        final(out)@ == old(out)@ + int_text(n as int),
{
    if n < 0 {
        out.append("-");
        proof {
            reveal_strlit("-");
            assert("-"@ =~= seq!['-']);
        }
        let wide: i128 = n as i128;
        let abs: u64 = (-wide) as u64;
        append_u64(out, abs);
        proof {
            assert(out@ =~= old(out)@ + int_text(n as int));
        }
    } else {
        append_u64(out, n as u64);
    }
}

/// The decimal rendering of a natural number as a fresh string.
pub fn u64_text(n: u64) -> (r: String)
    ensures
        r@ == dec_text(n as nat),
{
    let mut out = String::new();
    append_u64(&mut out, n);
    out
}

/// The views of a sequence of strings.
pub open spec fn view_lines(v: Seq<String>) -> Seq<Seq<char>> {
    v.map_values(|s: String| s@)
}

/// The newline-joined form of an ordered list of lines.
pub open spec fn joined(lines: Seq<Seq<char>>) -> Seq<char>
    decreases lines.len(),
{
    if lines.len() == 0 {
        Seq::empty()
    } else if lines.len() == 1 {
        lines[0]
    } else {
        lines[0] + seq!['\n'] + joined(lines.drop_first())
    }
}

pub proof fn lemma_joined_push(lines: Seq<Seq<char>>, x: Seq<char>)
    requires
        lines.len() > 0,
    ensures
        joined(lines.push(x)) == joined(lines) + seq!['\n'] + x,
    decreases lines.len(),
{
    if lines.len() == 1 {
        assert(lines.push(x)[0] == lines[0]);
        assert(lines.push(x).drop_first() =~= seq![x]);
        assert(joined(seq![x]) == x);
        assert(joined(lines.push(x)) == lines[0] + seq!['\n'] + joined(seq![x]));
        assert(joined(lines.push(x)) =~= joined(lines) + seq!['\n'] + x);
    } else {
        assert(lines.push(x)[0] == lines[0]);
        assert(lines.push(x).drop_first() =~= lines.drop_first().push(x));
        lemma_joined_push(lines.drop_first(), x);
        assert(joined(lines.push(x)) == lines[0] + seq!['\n'] + joined(lines.drop_first().push(x)));
        assert(joined(lines.push(x)) =~= joined(lines) + seq!['\n'] + x);
    }
}

/// Joins the given lines with single newlines, in order.
pub fn join_lines(lines: &Vec<String>) -> (r: String)
    ensures
        r@ == joined(view_lines(lines@)),
{
    let mut out = String::new();
    let mut i: usize = 0;
    while i < lines.len()
        invariant
            i <= lines@.len(),
            out@ == joined(view_lines(lines@.subrange(0, i as int))),
        decreases lines@.len() - i,
    {
        if i > 0 {
            out.append("\n");
        }
        out.append(lines[i].as_str());
        proof {
            reveal_strlit("\n");
            assert("\n"@ =~= seq!['\n']);
            let ghost pref = lines@.subrange(0, i as int);
            assert(lines@.subrange(0, i + 1) =~= pref.push(lines@[i as int]));
            assert(view_lines(pref.push(lines@[i as int])) =~= view_lines(pref).push(
                lines@[i as int]@,
            ));
            if i > 0 {
                assert(view_lines(pref).len() > 0);
                lemma_joined_push(view_lines(pref), lines@[i as int]@);
            }
            assert(out@ =~= joined(view_lines(lines@.subrange(0, i + 1))));
        }
        i += 1;
    }
    proof {
        assert(lines@.subrange(0, lines@.len() as int) =~= lines@);
    }
    out
}

/// The character of one hexadecimal digit, lower case.
pub open spec fn hex_digit(d: nat) -> char {
    if d < 10 {
        dec_digit(d)
    } else if d == 10 {
        'a'
    } else if d == 11 {
        'b'
    } else if d == 12 {
        'c'
    } else if d == 13 {
        'd'
    } else if d == 14 {
        'e'
    } else {
        'f'
    }
}

/// The lower-case hexadecimal rendering of a byte sequence, two digits per
/// byte.
pub open spec fn hex_text(bs: Seq<u8>) -> Seq<char>
    decreases bs.len(),
{
    if bs.len() == 0 {
        Seq::empty()
    } else {
        hex_text(bs.drop_last()) + seq![
            hex_digit((bs.last() / 16) as nat),
            hex_digit((bs.last() % 16) as nat),
        ]
    }
}

fn hex_digit_char(d: u8) -> (r: char)
    requires
        d < 16,
    ensures
        r == hex_digit(d as nat),
{
    if d == 0 {
        '0'
    } else if d == 1 {
        '1'
    } else if d == 2 {
        '2'
    } else if d == 3 {
        '3'
    } else if d == 4 {
        '4'
    } else if d == 5 {
        '5'
    } else if d == 6 {
        '6'
    } else if d == 7 {
        '7'
    } else if d == 8 {
        '8'
    } else if d == 9 {
        '9'
    } else if d == 10 {
        'a'
    } else if d == 11 {
        'b'
    } else if d == 12 {
        'c'
    } else if d == 13 {
        'd'
    } else if d == 14 {
        'e'
    } else {
        'f'
    }
}

/// The lower-case hexadecimal rendering of the given bytes.
pub fn hex_of_bytes(bs: &Vec<u8>) -> (r: String)
    ensures
        r@ == hex_text(bs@),
{
    let mut out = String::new();
    let mut i: usize = 0;
    while i < bs.len()
        invariant
            i <= bs@.len(),
            out@ == hex_text(bs@.subrange(0, i as int)),
        decreases bs@.len() - i,
    {
        let b = bs[i];
        push_char(&mut out, hex_digit_char(b / 16));
        push_char(&mut out, hex_digit_char(b % 16));
        proof {
            let ghost pref = bs@.subrange(0, i as int);
            assert(bs@.subrange(0, i + 1).drop_last() =~= pref);
            assert(bs@.subrange(0, i + 1).last() == bs@[i as int]);
            assert(out@ =~= hex_text(bs@.subrange(0, i + 1)));
        }
        i += 1;
    }
    proof {
        assert(bs@.subrange(0, bs@.len() as int) =~= bs@);
    }
    out
}


/// The numeric value of one decimal digit character.
pub open spec fn dec_char_val(c: char) -> nat {
    if c == '0' {
        0
    } else if c == '1' {
        1
    } else if c == '2' {
        2
    } else if c == '3' {
        3
    } else if c == '4' {
        4
    } else if c == '5' {
        5
    } else if c == '6' {
        6
    } else if c == '7' {
        7
    } else if c == '8' {
        8
    } else {
        9
    }
}

/// The numeric value of a digit string, most significant digit first.
pub open spec fn digits_value(s: Seq<char>) -> nat
    decreases s.len(),
{
    if s.len() == 0 {
        0
    } else {
        digits_value(s.drop_last()) * 10 + dec_char_val(s.last())
    }
}

/// The digits of a signed decimal literal: everything after a leading sign.
pub open spec fn int_literal_body(s: Seq<char>) -> Seq<char> {
    if s.len() > 0 && (s[0] == '+' || s[0] == '-') {
        s.drop_first()
    } else {
        s
    }
}

/// The literal carries a minus sign.
pub open spec fn is_negative_literal(s: Seq<char>) -> bool {
    s.len() > 0 && s[0] == '-'
}

/// The text is a decimal literal of a signed 32-bit integer: an optional
/// sign, one or more digits, and a value within the type's range.
pub open spec fn parses_as_i32(s: Seq<char>) -> bool {
    let body = int_literal_body(s);
    &&& body.len() > 0
    &&& (forall|i: int| 0 <= i < body.len() ==> ('0' <= #[trigger] body[i] && body[i] <= '9'))
    &&& if is_negative_literal(s) {
        digits_value(body) <= 0x8000_0000
    } else {
        digits_value(body) <= 0x7fff_ffff
    }
}

/// The signed value of a 32-bit decimal literal.
pub open spec fn i32_literal_value(s: Seq<char>) -> int {
    if is_negative_literal(s) {
        -(digits_value(int_literal_body(s)) as int)
    } else {
        digits_value(int_literal_body(s)) as int
    }
}

fn dec_char_value(c: char) -> (r: u64)
    requires
        '0' <= c && c <= '9',
    ensures
        r == dec_char_val(c),
{
    if c == '0' {
        0
    } else if c == '1' {
        1
    } else if c == '2' {
        2
    } else if c == '3' {
        3
    } else if c == '4' {
        4
    } else if c == '5' {
        5
    } else if c == '6' {
        6
    } else if c == '7' {
        7
    } else if c == '8' {
        8
    } else {
        9
    }
}

/// Parses a signed 32-bit decimal literal; returns its value exactly when
/// the text is one.
#[verifier::loop_isolation(false)]
pub fn parse_i32_literal(s: &str) -> (r: Option<i64>)
    ensures
        r is Some <==> parses_as_i32(s@),
        r matches Some(v) ==> v as int == i32_literal_value(s@),
{
    let n = s.unicode_len();
    if n == 0 {
        return None;
    }
    let c0 = s.get_char(0);
    let neg: bool = c0 == '-';
    let start: usize = if c0 == '-' || c0 == '+' {
        1
    } else {
        0
    };
    proof {
        if start == 1 {
            assert(int_literal_body(s@) =~= s@.subrange(1, n as int));
        } else {
            assert(int_literal_body(s@) =~= s@.subrange(0, n as int));
            assert(s@.subrange(0, n as int) =~= s@);
        }
    }
    if start == n {
        return None;
    }
    let bound: u64 = if neg {
        0x8000_0000
    } else {
        0x7fff_ffff
    };
    let ghost body = int_literal_body(s@);
    let mut acc: u64 = 0;
    let mut i: usize = start;
    while i < n
        invariant
            start <= i <= n,
            forall|j: int| start <= j < i ==> ('0' <= #[trigger] s@[j] && s@[j] <= '9'),
            acc <= bound ==> acc == digits_value(s@.subrange(start as int, i as int)),
            acc > bound ==> acc == bound + 1 && digits_value(s@.subrange(start as int, i as int))
                > bound,
        decreases n - i,
    {
        let c = s.get_char(i);
        if !('0' <= c && c <= '9') {
            proof {
                assert(body[i - start] == s@[i as int]);
            }
            return None;
        }
        let d = dec_char_value(c);
        proof {
            assert(s@.subrange(start as int, i + 1).drop_last() =~= s@.subrange(
                start as int,
                i as int,
            ));
            assert(s@.subrange(start as int, i + 1).last() == s@[i as int]);
        }
        if acc > bound {
            proof {
                let ghost prev = digits_value(s@.subrange(start as int, i as int));
                assert(digits_value(s@.subrange(start as int, i + 1)) == prev * 10 + dec_char_val(
                    s@[i as int],
                ));
                assert(prev * 10 >= prev);
            }
        } else {
            acc = acc * 10 + d;
            if acc > bound {
                acc = bound + 1;
            }
        }
        i += 1;
    }
    proof {
        assert(body =~= s@.subrange(start as int, n as int));
    }
    if acc > bound {
        return None;
    }
    if neg {
        Some(-(acc as i64))
    } else {
        Some(acc as i64)
    }
}

} // verus!
