//! The per-instance metadata record, kept as the JSON object
//! `{"dbname":<string>,"port":<number>}` in exactly this compact layout: the
//! name is written and read as a JSON string literal by serde_json, the port
//! as plain decimal digits. A text in any other layout holds no record.

use vstd::prelude::*;
use vstd::string::*;

use crate::decimal::{
    all_decimal_digits, canonical_digits, decimal_text, digits_value, is_decimal_digit,
    lemma_decimal_text_shape, parse_decimal, render_decimal,
};
use crate::text::{chars_of, matches_at, occurs_at, string_of, substring};

verus! {

/// A lowercase hexadecimal digit.
pub open spec fn hex_digit(d: nat) -> char {
    seq!['0', '1', '2', '3', '4', '5', '6', '7', '8', '9', 'a', 'b', 'c', 'd', 'e', 'f'][d as int]
}

/// How serde_json writes one character inside a string literal: quote and
/// backslash escaped, the usual short escapes for backspace, tab, line feed,
/// form feed and carriage return, other control characters as `\u00XX`,
/// and everything else as it is.
pub open spec fn json_escape(c: char) -> Seq<char> {
    if c == '"' {
        seq!['\\', '"']
    } else if c == '\\' {
        seq!['\\', '\\']
    } else if c == '\u{8}' {
        seq!['\\', 'b']
    } else if c == '\t' {
        seq!['\\', 't']
    } else if c == '\n' {
        seq!['\\', 'n']
    } else if c == '\u{c}' {
        seq!['\\', 'f']
    } else if c == '\r' {
        seq!['\\', 'r']
    } else if (c as u32) < 0x20 {
        seq![
            '\\',
            'u',
            '0',
            '0',
            hex_digit((c as u32 / 16) as nat),
            hex_digit((c as u32 % 16) as nat),
        ]
    } else {
        seq![c]
    }
}

/// The characters of `s`, each escaped as in a JSON string literal.
pub open spec fn json_escaped(s: Seq<char>) -> Seq<char>
    decreases s.len(),
{
    if s.len() == 0 {
        s
    } else {
        json_escaped(s.drop_last()) + json_escape(s.last())
    }
}

/// What serde_json writes for a string value: the quoted, escaped literal.
pub open spec fn json_string_text(s: Seq<char>) -> Seq<char> {
    seq!['"'] + json_escaped(s) + seq!['"']
}

/// What serde_json reads as a string value from a text, if it reads one.
pub uninterp spec fn json_string_value(t: Seq<char>) -> Option<Seq<char>>;

/// Relies on `serde_json::to_string` on a string slice: the JSON string
/// literal of `s`. It never fails there: its only errors come from the
/// writer, and writing into a `Vec<u8>` cannot fail.
#[verifier::external_body]
fn quote_json(s: &str) -> (r: String)
    ensures
        r@ == json_string_text(s@),
{
    serde_json::to_string(s).unwrap_or_default()
}

/// Relies on `serde_json::from_str` reading a `String`: the value of one JSON
/// string literal, and, for a literal that `serde_json::to_string` wrote, the
/// string it was written from. Its error becomes `None`.
#[verifier::external_body]
fn unquote_json(t: &str) -> (r: Option<String>)
    ensures
        r is Some <==> json_string_value(t@) is Some,
        r is Some ==> r->0@ == json_string_value(t@)->0,
        forall|s: Seq<char>| t@ == json_string_text(s) ==> r is Some && r->0@ == s,
{
    serde_json::from_str::<String>(t).ok()
}

pub open spec fn record_prefix() -> Seq<char> {
    "{\"dbname\":"@
}

pub open spec fn record_separator() -> Seq<char> {
    ",\"port\":"@
}

/// The text of the record `{dbname, port}`.
pub open spec fn metadata_text(dbname: Seq<char>, port: u32) -> Seq<char> {
    record_prefix() + json_string_text(dbname) + record_separator() + decimal_text(port as nat)
        + seq!['}']
}

/// The number of decimal digits that `s` ends with.
pub open spec fn trailing_digits(s: Seq<char>) -> nat
    decreases s.len(),
{
    if s.len() > 0 && is_decimal_digit(s.last()) {
        trailing_digits(s.drop_last()) + 1
    } else {
        0
    }
}

/// Splits a record text into the literal that holds the name and the digits
/// of the port.
pub open spec fn record_parts(t: Seq<char>) -> Option<(Seq<char>, Seq<char>)> {
    if t.len() == 0 || t.last() != '}' {
        None
    } else {
        let body = t.drop_last();
        let k = body.len() - trailing_digits(body);
        let pre = record_prefix();
        let sep = record_separator();
        if k >= pre.len() + sep.len() && occurs_at(body, 0, pre) && occurs_at(
            body,
            k - sep.len(),
            sep,
        ) {
            Some((body.subrange(pre.len() as int, k - sep.len()), body.subrange(k, body.len() as int)))
        } else {
            None
        }
    }
}

/// The record that a text holds, if it holds one.
pub open spec fn record_fields(t: Seq<char>) -> Option<(Seq<char>, u32)> {
    match record_parts(t) {
        Some((quoted, digits)) => {
            if json_string_value(quoted) is Some && canonical_digits(digits) && digits_value(digits)
                <= u32::MAX {
                Some((json_string_value(quoted)->0, digits_value(digits) as u32))
            } else {
                None
            }
        },
        None => None,
    }
}

/// The durable record of one instance: its database name and port.
pub struct Metadata {
    pub dbname: String,
    pub port: u32,
}

proof fn lemma_trailing_digits(a: Seq<char>, d: Seq<char>)
    requires
        a.len() > 0,
        !is_decimal_digit(a.last()),
        all_decimal_digits(d),
    ensures
        trailing_digits(a + d) == d.len(),
    decreases d.len(),
{
    if d.len() == 0 {
        assert(a + d =~= a);
    } else {
        assert((a + d).drop_last() =~= a + d.drop_last());
        assert((a + d).last() == d.last());
        lemma_trailing_digits(a, d.drop_last());
    }
}

proof fn lemma_record_parts(dbname: Seq<char>, port: u32)
    ensures
        record_parts(metadata_text(dbname, port)) == Some(
            (json_string_text(dbname), decimal_text(port as nat)),
        ),
        canonical_digits(decimal_text(port as nat)),
        digits_value(decimal_text(port as nat)) == port,
{
    reveal_strlit("{\"dbname\":");
    reveal_strlit(",\"port\":");
    lemma_decimal_text_shape(port as nat);
    let pre = record_prefix();
    let q = json_string_text(dbname);
    let sep = record_separator();
    let d = decimal_text(port as nat);
    let t = metadata_text(dbname, port);
    let head = pre + q + sep;
    let body = head + d;
    assert(t =~= body.push('}'));
    assert(t.drop_last() =~= body);
    assert(head.last() == ':');
    lemma_trailing_digits(head, d);
    let k = body.len() - trailing_digits(body);
    assert(k == head.len());
    assert(body.subrange(0, pre.len() as int) =~= pre);
    assert(body.subrange(k - sep.len(), k) =~= sep);
    assert(body.subrange(pre.len() as int, k - sep.len()) =~= q);
    assert(body.subrange(k, body.len() as int) =~= d);
}

impl Metadata {
    /// The record's text, as the metadata file holds it.
    pub fn to_json(&self) -> (r: String)
        ensures
            r@ == metadata_text(self.dbname@, self.port),
    {
        let quoted = quote_json(self.dbname.as_str());
        let mut digits: Vec<char> = Vec::new();
        render_decimal(self.port, &mut digits);
        let digits = string_of(&digits);
        let mut out = String::from_str("{\"dbname\":");
        out.append(quoted.as_str());
        out.append(",\"port\":");
        out.append(digits.as_str());
        out.append("}");
        proof {
            reveal_strlit("}");
            assert("}"@ =~= seq!['}']);
        }
        out
    }

    /// Reads a record text. Gives `None` exactly when the text holds no
    /// record; a text that `to_json` wrote reads back as the record it was
    /// written from.
    pub fn from_json(text: &str) -> (r: Option<Metadata>)
        ensures
            match record_fields(text@) {
                Some((dbname, port)) => r is Some && r->0.dbname@ == dbname && r->0.port == port,
                None => r is None,
            },
            forall|dbname: Seq<char>, port: u32|
                #![trigger metadata_text(dbname, port)]
                text@ == metadata_text(dbname, port) ==> r is Some && r->0.dbname@ == dbname
                    && r->0.port == port && record_fields(text@) == Some((dbname, port)),
    {
        proof {
            reveal_strlit("{\"dbname\":");
            reveal_strlit(",\"port\":");
            assert forall|dbname: Seq<char>, port: u32|
                #![trigger metadata_text(dbname, port)]
                text@ == metadata_text(dbname, port) implies record_parts(text@) == Some(
                    (json_string_text(dbname), decimal_text(port as nat)),
                ) && canonical_digits(decimal_text(port as nat)) && digits_value(
                    decimal_text(port as nat),
                ) == port by {
                lemma_record_parts(dbname, port);
            }
        }
        let t = chars_of(text);
        let n = t.len();
        if n == 0 || t[n - 1] != '}' {
            return None;
        }
        let blen = n - 1;
        let ghost body = t@.drop_last();
        let mut k: usize = blen;
        assert(body.subrange(0, blen as int) =~= body);
        while k > 0 && '0' <= t[k - 1] && t[k - 1] <= '9'
            invariant
                k <= blen,
                blen + 1 == t@.len(),
                body == t@.drop_last(),
                trailing_digits(body) == trailing_digits(body.subrange(0, k as int)) + (blen - k),
            decreases k,
        {
            let ghost cur = body.subrange(0, k as int);
            assert(cur.drop_last() =~= body.subrange(0, k - 1));
            assert(cur.last() == t@[k - 1]);
            k = k - 1;
        }
        assert(trailing_digits(body.subrange(0, k as int)) == 0);
        let pre = chars_of("{\"dbname\":");
        let sep = chars_of(",\"port\":");
        if k < pre.len() + sep.len() || !matches_at(&t, 0, &pre) || !matches_at(
            &t,
            k - sep.len(),
            &sep,
        ) {
            proof {
                if k >= pre@.len() + sep@.len() {
                    assert(body.subrange(0, pre@.len() as int) =~= t@.subrange(0, pre@.len() as int));
                    assert(body.subrange(k - sep@.len(), k as int) =~= t@.subrange(k - sep@.len(), k as int));
                }
            }
            return None;
        }
        assert(body.subrange(0, pre@.len() as int) =~= t@.subrange(0, pre@.len() as int));
        assert(body.subrange(k - sep@.len(), k as int) =~= t@.subrange(k - sep@.len(), k as int));
        let port = parse_decimal(&t, k, blen);
        assert(body.subrange(k as int, body.len() as int) =~= t@.subrange(k as int, blen as int));
        let quoted = substring(&t, pre.len(), k - sep.len());
        assert(body.subrange(pre@.len() as int, k - sep@.len()) =~= quoted@);
        let dbname = match unquote_json(quoted.as_str()) {
            Some(d) => d,
            None => {
                return None;
            },
        };
        match port {
            Some(port) => Some(Metadata { dbname, port }),
            None => None,
        }
    }
}

} // verus!
