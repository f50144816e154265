//! Canonical JSON form of a payload.
//!
//! The wire format is fixed here, character by character: an object with
//! the key set `timestamp, level, target, name, fields` and, only when a
//! `message` was hoisted, `message` — in that order. Strings are quoted
//! with `"` and `\` escaped and control characters written as `\u00XX`,
//! so the output is well-formed JSON for every input. Integers are
//! written in decimal, booleans as `true`/`false`.
//!
//! Every serializer here is total and proved equal to its specification
//! function, so encoding is deterministic: the same payload always
//! yields the same document.

use vstd::prelude::*;
use crate::event::{FieldValue, LogPayload};
use crate::level::Level;

verus! {

/// Hexadecimal digit for one value below sixteen, lower case.
pub open spec fn hex_digit(n: int) -> char {
    if n == 0 {
        '0'
    } else if n == 1 {
        '1'
    } else if n == 2 {
        '2'
    } else if n == 3 {
        '3'
    } else if n == 4 {
        '4'
    } else if n == 5 {
        '5'
    } else if n == 6 {
        '6'
    } else if n == 7 {
        '7'
    } else if n == 8 {
        '8'
    } else if n == 9 {
        '9'
    } else if n == 10 {
        'a'
    } else if n == 11 {
        'b'
    } else if n == 12 {
        'c'
    } else if n == 13 {
        'd'
    } else if n == 14 {
        'e'
    } else {
        'f'
    }
}

/// Escape of one character inside a JSON string literal: quote and
/// backslash get a backslash, control characters become `\u00XX`,
/// everything else stands for itself.
pub open spec fn escape_char(c: char) -> Seq<char> {
    if c == '"' {
        seq!['\\', '"']
    } else if c == '\\' {
        seq!['\\', '\\']
    } else if (c as u32) < 32 {
        seq!['\\', 'u', '0', '0', hex_digit((c as u32) as int / 16), hex_digit((c as u32) as int % 16)]
    } else {
        seq![c]
    }
}

/// Escape of a whole string body, character by character.
pub open spec fn escape_string(s: Seq<char>) -> Seq<char>
    decreases s.len(),
{
    if s.len() == 0 {
        Seq::empty()
    } else {
        escape_string(s.drop_last()) + escape_char(s.last())
    }
}

/// A JSON string literal: the escaped body between double quotes.
pub open spec fn quoted(s: Seq<char>) -> Seq<char> {
    seq!['"'] + escape_string(s) + seq!['"']
}

/// Decimal digits of a positive number, empty for zero.
pub open spec fn dec_rec(n: nat) -> Seq<char>
    decreases n,
{
    if n == 0 {
        Seq::empty()
    } else {
        dec_rec(n / 10) + seq![hex_digit((n % 10) as int)]
    }
}

/// Decimal form of an unsigned number.
pub open spec fn dec_nat(n: nat) -> Seq<char> {
    if n == 0 {
        seq!['0']
    } else {
        dec_rec(n)
    }
}

/// Decimal form of a signed number, with a leading minus when negative.
pub open spec fn dec_int(i: int) -> Seq<char> {
    if i < 0 {
        seq!['-'] + dec_nat((-i) as nat)
    } else {
        dec_nat(i as nat)
    }
}

/// The upper-case name of a level, as it appears on the wire.
pub open spec fn level_chars(l: Level) -> Seq<char> {
    match l {
        Level::Trace => "TRACE"@,
        Level::Debug => "DEBUG"@,
        Level::Info => "INFO"@,
        Level::Warn => "WARN"@,
        Level::Error => "ERROR"@,
    }
}

/// JSON form of one field value.
pub open spec fn field_value_json(v: FieldValue) -> Seq<char> {
    match v {
        FieldValue::Text(s) => quoted(s@),
        FieldValue::Signed(i) => dec_int(i as int),
        FieldValue::Unsigned(u) => dec_nat(u as nat),
        FieldValue::Flag(b) => if b {
            "true"@
        } else {
            "false"@
        },
    }
}

/// One `"key":value` member of an object.
pub open spec fn member_json(k: Seq<char>, v: Seq<char>) -> Seq<char> {
    quoted(k) + seq![':'] + v
}

/// The comma-separated members of the nested field object.
pub open spec fn entries_json(fs: Seq<(String, FieldValue)>) -> Seq<char>
    decreases fs.len(),
{
    if fs.len() == 0 {
        Seq::empty()
    } else if fs.len() == 1 {
        member_json(fs.last().0@, field_value_json(fs.last().1))
    } else {
        entries_json(fs.drop_last()) + seq![','] + member_json(
            fs.last().0@,
            field_value_json(fs.last().1),
        )
    }
}

/// The nested field object.
pub open spec fn fields_json(fs: Seq<(String, FieldValue)>) -> Seq<char> {
    seq!['{'] + entries_json(fs) + seq!['}']
}

/// The whole document for one payload. The key set is fixed; `message`
/// appears exactly when a message was hoisted.
pub open spec fn payload_json(p: LogPayload) -> Seq<char> {
    seq!['{'] + member_json("timestamp"@, quoted(p.timestamp@)) + seq![','] + member_json(
        "level"@,
        quoted(level_chars(p.level)),
    ) + seq![','] + member_json("target"@, quoted(p.target@)) + seq![','] + member_json(
        "name"@,
        quoted(p.name@),
    ) + seq![','] + member_json("fields"@, fields_json(p.fields@)) + (match p.message {
        Some(v) => seq![','] + member_json("message"@, field_value_json(v)),
        None => Seq::empty(),
    }) + seq!['}']
}

/// The synthetic health-check document: fixed level, target and name,
/// no fields and no message.
pub open spec fn probe_json(timestamp: Seq<char>) -> Seq<char> {
    seq!['{'] + member_json("timestamp"@, quoted(timestamp)) + seq![','] + member_json(
        "level"@,
        quoted("INFO"@),
    ) + seq![','] + member_json("target"@, quoted("health_check"@)) + seq![','] + member_json(
        "name"@,
        quoted("health_check"@),
    ) + seq!['}']
}

/// Appends every character of `s` to `out`.
fn push_str_chars(out: &mut Vec<char>, s: &str)
    ensures
        final(out)@ == old(out)@ + s@,
{
    let n = s.unicode_len();
    let mut i: usize = 0;
    while i < n
        invariant
            n == s@.len(),
            i <= n,
            out@ == old(out)@ + s@.take(i as int),
        decreases n - i,
    {
        let c = s.get_char(i);
        out.push(c);
        proof {
            assert(s@.take(i + 1) =~= s@.take(i as int).push(s@[i as int]));
        }
        i += 1;
    }
    proof {
        assert(s@.take(n as int) =~= s@);
    }
}

/// Hexadecimal digit of a value below sixteen, usable in executable code.
fn hex_digit_char(n: u32) -> (c: char)
    requires
        n < 16,
    ensures
        c == hex_digit(n as int),
{
    match n {
        0 => '0',
        1 => '1',
        2 => '2',
        3 => '3',
        4 => '4',
        5 => '5',
        6 => '6',
        7 => '7',
        8 => '8',
        9 => '9',
        10 => 'a',
        11 => 'b',
        12 => 'c',
        13 => 'd',
        14 => 'e',
        _ => 'f',
    }
}

/// Appends the escaped body of `s` to `out`.
fn push_escaped(out: &mut Vec<char>, s: &str)
    ensures
        final(out)@ == old(out)@ + escape_string(s@),
{
    let n = s.unicode_len();
    let mut i: usize = 0;
    while i < n
        invariant
            n == s@.len(),
            i <= n,
            out@ == old(out)@ + escape_string(s@.take(i as int)),
        decreases n - i,
    {
        let c = s.get_char(i);
        if c == '"' {
            out.push('\\');
            out.push('"');
        } else if c == '\\' {
            out.push('\\');
            out.push('\\');
        } else if (c as u32) < 32 {
            let code: u32 = c as u32;
            out.push('\\');
            out.push('u');
            out.push('0');
            out.push('0');
            out.push(hex_digit_char(code / 16));
            out.push(hex_digit_char(code % 16));
        } else {
            out.push(c);
        }
        proof {
            assert(s@.take(i + 1).drop_last() =~= s@.take(i as int));
            assert(s@.take(i + 1).last() == s@[i as int]);
            assert(escape_string(s@.take(i + 1)) == escape_string(s@.take(i as int))
                + escape_char(s@[i as int]));
        }
        i += 1;
    }
    proof {
        assert(s@.take(n as int) =~= s@);
    }
}

/// Appends a JSON string literal holding `s` to `out`.
fn push_quoted(out: &mut Vec<char>, s: &str)
    ensures
        final(out)@ == old(out)@ + quoted(s@),
{
    out.push('"');
    push_escaped(out, s);
    out.push('"');
}

/// Appends the decimal form of `n` to `out`.
fn push_dec_u64(out: &mut Vec<char>, n: u64)
    ensures
        final(out)@ == old(out)@ + dec_nat(n as nat),
{
    if n == 0 {
        out.push('0');
        proof {
            assert(old(out)@.push('0') =~= old(out)@ + dec_nat(0));
        }
        return ;
    }
    let mut rev: Vec<char> = Vec::new();
    let mut x: u64 = n;
    while x != 0
        invariant
            dec_rec(n as nat) == dec_rec(x as nat) + rev@.reverse(),
        decreases x,
    {
        let d: u64 = x % 10;
        proof {
            assert(dec_rec(x as nat) == dec_rec((x as nat) / 10) + seq![
                hex_digit(((x as nat) % 10) as int),
            ]);
            assert((rev@.push(hex_digit(d as int))).reverse() =~= seq![hex_digit(d as int)]
                + rev@.reverse());
            assert(dec_rec((x as nat) / 10) + (seq![hex_digit(d as int)] + rev@.reverse())
                =~= (dec_rec((x as nat) / 10) + seq![hex_digit(d as int)]) + rev@.reverse());
        }
        rev.push(hex_digit_char(d as u32));
        x = x / 10;
    }
    proof {
        assert(dec_rec(n as nat) =~= rev@.reverse());
    }
    let m = rev.len();
    let mut j: usize = 0;
    while j < m
        invariant
            m == rev@.len(),
            j <= m,
            out@ == old(out)@ + rev@.reverse().take(j as int),
        decreases m - j,
    {
        let c = rev[m - 1 - j];
        proof {
            assert(rev@.reverse()[j as int] == rev@[m - 1 - j]);
            assert(rev@.reverse().take(j + 1) =~= rev@.reverse().take(j as int).push(
                rev@.reverse()[j as int],
            ));
        }
        out.push(c);
        j += 1;
    }
    proof {
        assert(rev@.reverse().take(m as int) =~= rev@.reverse());
    }
}

/// Appends the decimal form of `i`, sign included, to `out`.
fn push_dec_i64(out: &mut Vec<char>, i: i64)
    ensures
        final(out)@ == old(out)@ + dec_int(i as int),
{
    if i < 0 {
        out.push('-');
        let m: u64 = ((-(i + 1)) as u64) + 1;
        proof {
            assert(m as nat == (-(i as int)) as nat);
        }
        push_dec_u64(out, m);
        proof {
            assert(old(out)@.push('-') + dec_nat(m as nat) =~= old(out)@ + (seq!['-'] + dec_nat(
                m as nat,
            )));
        }
    } else {
        push_dec_u64(out, i as u64);
    }
}

/// Appends the JSON form of one field value to `out`.
fn push_field_value(out: &mut Vec<char>, v: &FieldValue)
    ensures
        final(out)@ == old(out)@ + field_value_json(*v),
{
    match v {
        FieldValue::Text(s) => push_quoted(out, s.as_str()),
        FieldValue::Signed(i) => push_dec_i64(out, *i),
        FieldValue::Unsigned(u) => push_dec_u64(out, *u),
        FieldValue::Flag(b) => {
            if *b {
                push_str_chars(out, "true");
            } else {
                push_str_chars(out, "false");
            }
        },
    }
}

/// Appends one `"key":value` member to `out`.
fn push_member(out: &mut Vec<char>, k: &str, v: &FieldValue)
    ensures
        final(out)@ == old(out)@ + member_json(k@, field_value_json(*v)),
{
    push_quoted(out, k);
    out.push(':');
    push_field_value(out, v);
}

/// Appends the nested field object to `out`.
fn push_fields(out: &mut Vec<char>, fs: &Vec<(String, FieldValue)>)
    ensures
        final(out)@ == old(out)@ + fields_json(fs@),
{
    out.push('{');
    let ghost base = out@;
    let n = fs.len();
    let mut i: usize = 0;
    while i < n
        invariant
            n == fs@.len(),
            i <= n,
            out@ == base + entries_json(fs@.take(i as int)),
        decreases n - i,
    {
        if i > 0 {
            out.push(',');
        }
        let pair = &fs[i];
        push_member(out, pair.0.as_str(), &pair.1);
        proof {
            assert(fs@.take(i + 1).drop_last() =~= fs@.take(i as int));
            assert(fs@.take(i + 1).last() == fs@[i as int]);
            if i == 0 {
                assert(base + entries_json(fs@.take(1)) =~= base + (Seq::empty() + member_json(
                    fs@[0].0@,
                    field_value_json(fs@[0].1),
                )));
            } else {
                assert(base + entries_json(fs@.take(i + 1)) =~= base + entries_json(
                    fs@.take(i as int),
                ) + seq![','] + member_json(fs@[i as int].0@, field_value_json(fs@[i as int].1)));
            }
        }
        i += 1;
    }
    proof {
        assert(fs@.take(n as int) =~= fs@);
        assert(base + entries_json(fs@) + seq!['}'] =~= old(out)@ + fields_json(fs@));
    }
    out.push('}');
}

/// The wire name of a level.
pub fn level_str(l: Level) -> (s: &'static str)
    ensures
        s@ == level_chars(l),
{
    match l {
        Level::Trace => "TRACE",
        Level::Debug => "DEBUG",
        Level::Info => "INFO",
        Level::Warn => "WARN",
        Level::Error => "ERROR",
    }
}

impl LogPayload {
    /// The canonical JSON document for this payload, as a character
    /// sequence: exactly [`payload_json`] of it, for every payload.
    pub fn to_json(&self) -> (r: Vec<char>)
        ensures
            r@ == payload_json(*self),
    {
        let mut out: Vec<char> = Vec::new();
        out.push('{');
        push_quoted(&mut out, "timestamp");
        out.push(':');
        push_quoted(&mut out, self.timestamp.as_str());
        out.push(',');
        push_quoted(&mut out, "level");
        out.push(':');
        push_quoted(&mut out, level_str(self.level));
        out.push(',');
        push_quoted(&mut out, "target");
        out.push(':');
        push_quoted(&mut out, self.target.as_str());
        out.push(',');
        push_quoted(&mut out, "name");
        out.push(':');
        push_quoted(&mut out, self.name.as_str());
        out.push(',');
        push_quoted(&mut out, "fields");
        out.push(':');
        push_fields(&mut out, &self.fields);
        match &self.message {
            Some(v) => {
                out.push(',');
                push_quoted(&mut out, "message");
                out.push(':');
                push_field_value(&mut out, v);
            },
            None => {},
        }
        out.push('}');
        proof {
            assert(out@ =~= payload_json(*self));
        }
        out
    }
}

/// The synthetic health-check document for the given timestamp:
/// exactly [`probe_json`] of it.
pub fn probe_document(timestamp: &str) -> (r: Vec<char>)
    ensures
        r@ == probe_json(timestamp@),
{
    let mut out: Vec<char> = Vec::new();
    out.push('{');
    push_quoted(&mut out, "timestamp");
    out.push(':');
    push_quoted(&mut out, timestamp);
    out.push(',');
    push_quoted(&mut out, "level");
    out.push(':');
    push_quoted(&mut out, "INFO");
    out.push(',');
    push_quoted(&mut out, "target");
    out.push(':');
    push_quoted(&mut out, "health_check");
    out.push(',');
    push_quoted(&mut out, "name");
    out.push(':');
    push_quoted(&mut out, "health_check");
    out.push('}');
    proof {
        assert(out@ =~= probe_json(timestamp@));
    }
    out
}

} // verus!
