//! Encoding of a `User` for the HTTP surface: a JSON object with the
//! identifier, the two text fields (escaped), the optional age, and the
//! two timestamps rendered as RFC 3339 date-time text in UTC.

use vstd::prelude::*;
use vstd::string::StringExecFns;

use crate::user::User;

verus! {

broadcast use vstd::string::axiom_spec_iter;

/// The latest instant the timestamp formatting supports: the last
/// second of year 9999, UTC, as seconds since the Unix epoch.
pub const MAX_ENCODABLE_TIMESTAMP: i64 = 253402300799;

/// The decimal digit character for a value between 0 and 9.
pub open spec fn dec_digit(d: int) -> char {
    ((48 + d) as u8) as char
}

/// The hexadecimal digit character (lower case) for a value between
/// 0 and 15.
pub open spec fn hex_digit(d: int) -> char {
    if d < 10 {
        dec_digit(d)
    } else {
        ((87 + d) as u8) as char
    }
}

/// The decimal digits of a non-negative integer, no sign, no leading
/// zeros (a single zero for 0).
pub open spec fn dec_rep(n: int) -> Seq<char>
    decreases n,
{
    if n < 10 {
        seq![dec_digit(n)]
    } else {
        dec_rep(n / 10).push(dec_digit(n % 10))
    }
}

/// The decimal text of an integer: a minus sign before the digits of
/// the magnitude when negative.
pub open spec fn dec_int(n: int) -> Seq<char> {
    if n < 0 {
        seq!['-'] + dec_rep(-n)
    } else {
        dec_rep(n)
    }
}

/// What a character contributes to a JSON string literal: itself,
/// unless JSON requires an escape — the quote, the backslash, and
/// every control character.
pub open spec fn esc_char(c: char) -> Seq<char> {
    if c == '"' {
        seq!['\\', '"']
    } else if c == '\\' {
        seq!['\\', '\\']
    } else if c == '\u{8}' {
        seq!['\\', 'b']
    } else if c == '\u{c}' {
        seq!['\\', 'f']
    } else if c == '\n' {
        seq!['\\', 'n']
    } else if c == '\r' {
        seq!['\\', 'r']
    } else if c == '\t' {
        seq!['\\', 't']
    } else if (c as u32) < 32 {
        seq!['\\', 'u', '0', '0', hex_digit(((c as u32) / 16) as int), hex_digit(
            ((c as u32) % 16) as int,
        )]
    } else {
        seq![c]
    }
}

/// A whole string escaped for use inside a JSON string literal.
pub open spec fn esc_seq(s: Seq<char>) -> Seq<char>
    decreases s.len(),
{
    if s.len() == 0 {
        Seq::empty()
    } else {
        esc_seq(s.drop_last()) + esc_char(s.last())
    }
}

/// The RFC 3339 date-time text of an instant given as non-leap seconds
/// since the Unix epoch, UTC.
pub uninterp spec fn rfc3339_utc(secs: int) -> Seq<char>;

/// The age field of the JSON encoding: a decimal number, or `null`
/// when absent.
pub open spec fn json_of_age(age: Option<i32>) -> Seq<char> {
    match age {
        Option::None => "null"@,
        Option::Some(v) => dec_int(v as int),
    }
}

/// The JSON encoding of a user row.
pub open spec fn json_of_user(u: User) -> Seq<char> {
    "{\"id\":"@ + dec_int(u.id as int) + ",\"name\":\""@ + esc_seq(u.name@) + "\",\"email\":\""@
        + esc_seq(u.email@) + "\",\"age\":"@ + json_of_age(u.age) + ",\"created_at\":\""@
        + rfc3339_utc(u.created_at as int) + "\",\"updated_at\":\""@ + rfc3339_utc(
        u.updated_at as int,
    ) + "\"}"@
}

/// Relies on `String::push`: appends the given character to the end of
/// the string.
#[verifier::external_body]
fn push_char(out: &mut String, c: char)
    ensures
        final(out)@ == old(out)@.push(c),
{
    out.push(c);
}

/// Relies on chrono's `DateTime::<Utc>::from_timestamp` and
/// `DateTime::to_rfc3339`: an in-range number of seconds yields a
/// date-time value, and its RFC 3339 text depends on that value alone.
#[verifier::external_body]
fn format_rfc3339(secs: i64) -> (r: String)
    requires
        0 <= secs <= MAX_ENCODABLE_TIMESTAMP,
    ensures
        r@ == rfc3339_utc(secs as int),
        r@.len() > 0,
{
    match chrono::DateTime::<chrono::Utc>::from_timestamp(secs, 0) {
        Some(dt) => dt.to_rfc3339(),
        None => String::new(),
    }
}

/// Append the decimal digits of `n`, most significant first.
fn append_dec(out: &mut String, n: u64)
    ensures
        final(out)@ == old(out)@ + dec_rep(n as int),
    decreases n,
{
    if n >= 10 {
        append_dec(out, n / 10);
    }
    let d: u8 = (n % 10) as u8 + 48;
    push_char(out, d as char);
    proof {
        assert(d as char == dec_digit(n as int % 10));
        if n < 10 {
            assert(old(out)@ + dec_rep(n as int) =~= old(out)@.push(dec_digit(n as int)));
        } else {
            assert(old(out)@ + dec_rep(n as int) =~= (old(out)@ + dec_rep(n as int / 10)).push(
                dec_digit(n as int % 10),
            ));
        }
    }
}

/// Append the decimal text of `n`, with a minus sign when negative.
pub fn append_i64(out: &mut String, n: i64)
    ensures
        final(out)@ == old(out)@ + dec_int(n as int),
{
    if n < 0 {
        push_char(out, '-');
        let m: u64 = (-(n as i128)) as u64;
        append_dec(out, m);
        proof {
            assert(old(out)@ + dec_int(n as int) =~= old(out)@.push('-') + dec_rep(m as int));
        }
    } else {
        append_dec(out, n as u64);
    }
}

/// Append `s` escaped for use inside a JSON string literal.
pub fn append_escaped(out: &mut String, s: &str)
    ensures
        final(out)@ == old(out)@ + esc_seq(s@),
{
    proof {
        assert(old(out)@ + esc_seq(s@.take(0)) =~= old(out)@);
    }
    for c in it: s.chars()
        invariant
            it.seq() == s@,
            out@ == old(out)@ + esc_seq(s@.take(it.index() as int)),
    {
        let ghost prefix = out@;
        if c == '"' {
            push_char(out, '\\');
            push_char(out, '"');
        } else if c == '\\' {
            push_char(out, '\\');
            push_char(out, '\\');
        } else if c == '\u{8}' {
            push_char(out, '\\');
            push_char(out, 'b');
        } else if c == '\u{c}' {
            push_char(out, '\\');
            push_char(out, 'f');
        } else if c == '\n' {
            push_char(out, '\\');
            push_char(out, 'n');
        } else if c == '\r' {
            push_char(out, '\\');
            push_char(out, 'r');
        } else if c == '\t' {
            push_char(out, '\\');
            push_char(out, 't');
        } else if (c as u32) < 32 {
            push_char(out, '\\');
            push_char(out, 'u');
            push_char(out, '0');
            push_char(out, '0');
            let v: u32 = c as u32;
            let hi: u8 = (v / 16) as u8;
            let lo: u8 = (v % 16) as u8;
            push_char(out, (if hi < 10 { hi + 48 } else { hi + 87 }) as char);
            push_char(out, (if lo < 10 { lo + 48 } else { lo + 87 }) as char);
            proof {
                assert((if hi < 10 { hi + 48 } else { hi + 87 }) as u8 as char == hex_digit(
                    ((c as u32) / 16) as int,
                ));
                assert((if lo < 10 { lo + 48 } else { lo + 87 }) as u8 as char == hex_digit(
                    ((c as u32) % 16) as int,
                ));
            }
        } else {
            push_char(out, c);
        }
        proof {
            assert(out@ =~= prefix + esc_char(c));
            let i: int = it.index() as int;
            assert(s@.take(i + 1).drop_last() =~= s@.take(i));
            assert(s@.take(i + 1).last() == s@[i]);
            assert(out@ =~= old(out)@ + esc_seq(s@.take(i + 1)));
        }
    }
    proof {
        assert(s@.take(s@.len() as int) =~= s@);
    }
}

/// Encode a user row as its JSON object. Timestamps must lie in the
/// range the RFC 3339 formatting supports (from the epoch through year
/// 9999).
pub fn encode_user(u: &User) -> (r: String)
    requires
        0 <= u.created_at <= MAX_ENCODABLE_TIMESTAMP,
        0 <= u.updated_at <= MAX_ENCODABLE_TIMESTAMP,
    ensures
        r@ == json_of_user(*u),
{
    let mut out = String::new();
    out.append("{\"id\":");
    append_i64(&mut out, u.id as i64);
    out.append(",\"name\":\"");
    append_escaped(&mut out, u.name.as_str());
    out.append("\",\"email\":\"");
    append_escaped(&mut out, u.email.as_str());
    out.append("\",\"age\":");
    match u.age {
        Option::None => out.append("null"),
        Option::Some(v) => append_i64(&mut out, v as i64),
    }
    out.append(",\"created_at\":\"");
    let created = format_rfc3339(u.created_at);
    out.append(created.as_str());
    out.append("\",\"updated_at\":\"");
    let updated = format_rfc3339(u.updated_at);
    out.append(updated.as_str());
    out.append("\"}");
    proof {
        assert(out@ =~= json_of_user(*u));
    }
    out
}

} // verus!
