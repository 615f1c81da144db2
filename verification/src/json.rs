//! The JSON texts the service produces.
//!
//! Every response body is pinned down to the character: string values are
//! escaped as JSON requires, numbers are written in decimal, and records
//! are written as objects with the fields in declaration order.

use vstd::prelude::*;
use crate::user::{User, UserV, users_view};

verus! {

/// Relies on `String::push`: appends the character to the end of the string.
pub assume_specification[ String::push ](s: &mut String, ch: char)
    ensures
        final(s)@ == old(s)@.push(ch),
;

/// The lower-case hexadecimal digit for a value below sixteen.
pub open spec fn hex_digit(d: int) -> char {
    if d < 10 {
        ((0x30 + d) as u8) as char
    } else {
        ((0x57 + d) as u8) as char
    }
}

fn hex_digit_char(d: u8) -> (c: char)
    requires
        d < 16,
    ensures
        c == hex_digit(d as int),
{
    if d < 10 {
        (0x30u8 + d) as char
    } else {
        (0x57u8 + d) as char
    }
}

/// The JSON escape of one character: the two-character short escapes for the
/// quote, the backslash and the common control characters, a `\u00..` escape
/// for the remaining control characters, and the character itself otherwise.
pub open spec fn escaped_char(c: char) -> Seq<char> {
    if c == '"' {
        "\\\""@
    } else if c == '\\' {
        "\\\\"@
    } else if c == '\u{8}' {
        "\\b"@
    } else if c == '\u{c}' {
        "\\f"@
    } else if c == '\n' {
        "\\n"@
    } else if c == '\r' {
        "\\r"@
    } else if c == '\t' {
        "\\t"@
    } else if (c as int) < 0x20 {
        "\\u00"@ + seq![hex_digit((c as int) / 16), hex_digit((c as int) % 16)]
    } else {
        seq![c]
    }
}

/// The JSON escape of a whole string, character by character.
pub open spec fn escaped(s: Seq<char>) -> Seq<char>
    decreases s.len(),
{
    if s.len() == 0 {
        Seq::empty()
    } else {
        escaped(s.drop_last()) + escaped_char(s.last())
    }
}

fn push_escaped_char(out: &mut String, c: char)
    ensures
        final(out)@ == old(out)@ + escaped_char(c),
{
    if c == '"' {
        out.append("\\\"");
    } else if c == '\\' {
        out.append("\\\\");
    } else if c == '\u{8}' {
        out.append("\\b");
    } else if c == '\u{c}' {
        out.append("\\f");
    } else if c == '\n' {
        out.append("\\n");
    } else if c == '\r' {
        out.append("\\r");
    } else if c == '\t' {
        out.append("\\t");
    } else if (c as u32) < 0x20 {
        out.append("\\u00");
        let d: u32 = c as u32;
        out.push(hex_digit_char((d / 16) as u8));
        out.push(hex_digit_char((d % 16) as u8));
        proof {
            assert(out@ =~= old(out)@ + escaped_char(c));
        }
    } else {
        out.push(c);
        proof {
            assert(out@ =~= old(out)@ + escaped_char(c));
        }
    }
}

fn push_escaped(out: &mut String, s: &str)
    ensures
        final(out)@ == old(out)@ + escaped(s@),
{
    let n = s.unicode_len();
    let mut i: usize = 0;
    while i < n
        invariant
            i <= n,
            n == s@.len(),
            out@ == old(out)@ + escaped(s@.take(i as int)),
        decreases n - i,
    {
        let c = s.get_char(i);
        push_escaped_char(out, c);
        proof {
            assert(s@.take(i as int + 1).drop_last() =~= s@.take(i as int));
            assert(s@.take(i as int + 1).last() == s@[i as int]);
            assert(old(out)@ + escaped(s@.take(i as int)) + escaped_char(s@[i as int]) =~= old(
                out,
            )@ + (escaped(s@.take(i as int)) + escaped_char(s@[i as int])));
        }
        i += 1;
    }
    proof {
        assert(s@.take(n as int) =~= s@);
    }
}

/// The decimal digits of a natural number, most significant first.
pub open spec fn dec_nat(n: nat) -> Seq<char>
    decreases n,
{
    if n < 10 {
        seq![hex_digit(n as int)]
    } else {
        dec_nat(n / 10).push(hex_digit((n % 10) as int))
    }
}

/// The decimal text of an integer: a minus sign before the digits when it is
/// negative.
pub open spec fn dec_int(v: int) -> Seq<char> {
    if v < 0 {
        "-"@ + dec_nat((-v) as nat)
    } else {
        dec_nat(v as nat)
    }
}

fn push_u64_dec(out: &mut String, n: u64)
    ensures
        final(out)@ == old(out)@ + dec_nat(n as nat),
    decreases n,
{
    if n < 10 {
        out.push(hex_digit_char(n as u8));
        proof {
            assert(out@ =~= old(out)@ + dec_nat(n as nat));
        }
    } else {
        push_u64_dec(out, n / 10);
        out.push(hex_digit_char((n % 10) as u8));
        proof {
            assert(out@ =~= old(out)@ + dec_nat(n as nat));
        }
    }
}

/// The decimal text of an affected-row count; it is the whole body of the
/// create and delete responses.
pub fn u64_to_json(n: u64) -> (r: String)
    ensures
        r@ == dec_nat(n as nat),
{
    let mut out = String::new();
    push_u64_dec(&mut out, n);
    proof {
        assert(Seq::<char>::empty() + dec_nat(n as nat) =~= dec_nat(n as nat));
    }
    out
}

fn push_i32_dec(out: &mut String, v: i32)
    ensures
        final(out)@ == old(out)@ + dec_int(v as int),
{
    if v < 0 {
        out.append("-");
        let m: u64 = (-(v as i64)) as u64;
        push_u64_dec(out, m);
        proof {
            assert(out@ =~= old(out)@ + dec_int(v as int));
        }
    } else {
        push_u64_dec(out, v as u64);
    }
}

/// The JSON text of one record: an object holding the id and the quoted,
/// escaped login, in that order.
pub open spec fn user_json(u: UserV) -> Seq<char> {
    "{\"id\":"@ + dec_int(u.id) + ",\"login\":\""@ + escaped(u.login) + "\"}"@
}

/// The JSON text of one record; it is the whole body of the update response.
pub fn user_to_json(u: &User) -> (r: String)
    ensures
        r@ == user_json(u@),
{
    let mut out = String::from_str("{\"id\":");
    push_i32_dec(&mut out, u.id);
    out.append(",\"login\":\"");
    push_escaped(&mut out, u.login.as_str());
    out.append("\"}");
    proof {
        assert(out@ =~= user_json(u@));
    }
    out
}

/// The JSON texts of the records, joined with commas.
pub open spec fn users_json_items(l: Seq<UserV>) -> Seq<char>
    decreases l.len(),
{
    if l.len() == 0 {
        Seq::empty()
    } else if l.len() == 1 {
        user_json(l[0])
    } else {
        users_json_items(l.drop_last()) + ","@ + user_json(l.last())
    }
}

/// The JSON text of a listing: the records between brackets, an empty array
/// when there are none.
pub open spec fn users_json(l: Seq<UserV>) -> Seq<char> {
    "["@ + users_json_items(l) + "]"@
}

/// The JSON text of a listing; it is the whole body of the list response.
pub fn users_to_json(users: &Vec<User>) -> (r: String)
    ensures
        r@ == users_json(users_view(users@)),
{
    let mut out = String::from_str("[");
    let mut i: usize = 0;
    while i < users.len()
        invariant
            i <= users@.len(),
            out@ == "["@ + users_json_items(users_view(users@).take(i as int)),
        decreases users@.len() - i,
    {
        if i > 0 {
            out.append(",");
        }
        let piece = user_to_json(&users[i]);
        out.append(piece.as_str());
        proof {
            let l = users_view(users@);
            assert(l.take(i as int + 1).drop_last() =~= l.take(i as int));
            assert(l.take(i as int + 1).last() == l[i as int]);
            assert(l[i as int] == users@[i as int]@);
            if i == 0 {
                assert(out@ =~= "["@ + users_json_items(l.take(i as int + 1)));
            } else {
                assert(out@ =~= "["@ + users_json_items(l.take(i as int + 1)));
            }
        }
        i += 1;
    }
    out.append("]");
    proof {
        assert(users_view(users@).take(users@.len() as int) =~= users_view(users@));
    }
    out
}

} // verus!
