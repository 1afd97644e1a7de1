//! The request body spoken to the completion endpoint: a JSON object
//! `{"model": ..., "messages": [...]}` built and escaped by hand, so
//! that every byte of the request is pinned by the specification.

use vstd::prelude::*;
use crate::transcript::{Entry, EntryV, Role, entries_view};

verus! {

/// The lowercase hexadecimal digit for `n`.
pub open spec fn hex_digit(n: int) -> char {
    if n == 0 {
        '0'
    } else if n == 1 {
        '1'
    } else if n == 2 {
        '2'
    } else if n == 3 {
        '3'
    } else if n == 4 {
        '4'
    } else if n == 5 {
        '5'
    } else if n == 6 {
        '6'
    } else if n == 7 {
        '7'
    } else if n == 8 {
        '8'
    } else if n == 9 {
        '9'
    } else if n == 10 {
        'a'
    } else if n == 11 {
        'b'
    } else if n == 12 {
        'c'
    } else if n == 13 {
        'd'
    } else if n == 14 {
        'e'
    } else {
        'f'
    }
}

/// How one character appears inside a JSON string literal: quote and
/// backslash escaped, the common control characters short-escaped,
/// the remaining control characters in `\u00..` form, everything
/// else verbatim.
pub open spec fn escape_char(c: char) -> Seq<char> {
    if c == '"' {
        "\\\""@
    } else if c == '\\' {
        "\\\\"@
    } else if c == '\n' {
        "\\n"@
    } else if c == '\r' {
        "\\r"@
    } else if c == '\t' {
        "\\t"@
    } else if (c as u32) < 32 {
        "\\u00"@ + seq![hex_digit(c as int / 16), hex_digit(c as int % 16)]
    } else {
        seq![c]
    }
}

/// A whole text with every character escaped, in order.
pub open spec fn json_escaped(s: Seq<char>) -> Seq<char>
    decreases s.len(),
{
    if s.len() == 0 {
        Seq::empty()
    } else {
        json_escaped(s.drop_last()) + escape_char(s.last())
    }
}

/// A JSON string literal: the escaped text between double quotes.
pub open spec fn json_string(s: Seq<char>) -> Seq<char> {
    "\""@ + json_escaped(s) + "\""@
}

/// The wire name of each role.
pub open spec fn role_name(r: Role) -> Seq<char> {
    match r {
        Role::System => "system"@,
        Role::User => "user"@,
        Role::Assistant => "assistant"@,
    }
}

/// One transcript entry as a JSON object.
pub open spec fn json_entry(e: EntryV) -> Seq<char> {
    "{\"role\":"@ + json_string(role_name(e.role)) + ",\"content\":"@ + json_string(e.content)
        + "}"@
}

/// A transcript as a comma-separated JSON array body.
pub open spec fn json_entries(s: Seq<EntryV>) -> Seq<char>
    decreases s.len(),
{
    if s.len() == 0 {
        Seq::empty()
    } else if s.len() == 1 {
        json_entry(s[0])
    } else {
        json_entries(s.drop_last()) + ","@ + json_entry(s.last())
    }
}

/// The whole completion request body.
pub open spec fn json_request(model: Seq<char>, entries: Seq<EntryV>) -> Seq<char> {
    "{\"model\":"@ + json_string(model) + ",\"messages\":["@ + json_entries(entries) + "]}"@
}

/// Relies on String::push: appends exactly the one character.
#[verifier::external_body]
fn push_char(out: &mut String, c: char)
    ensures
        final(out)@ == old(out)@.push(c),
{
    out.push(c);
}

/// The lowercase hexadecimal digit for `n`.
fn hex_char(n: u32) -> (c: char)
    requires
        n < 16,
    ensures
        c == hex_digit(n as int),
{
    if n == 0 {
        '0'
    } else if n == 1 {
        '1'
    } else if n == 2 {
        '2'
    } else if n == 3 {
        '3'
    } else if n == 4 {
        '4'
    } else if n == 5 {
        '5'
    } else if n == 6 {
        '6'
    } else if n == 7 {
        '7'
    } else if n == 8 {
        '8'
    } else if n == 9 {
        '9'
    } else if n == 10 {
        'a'
    } else if n == 11 {
        'b'
    } else if n == 12 {
        'c'
    } else if n == 13 {
        'd'
    } else if n == 14 {
        'e'
    } else {
        'f'
    }
}

/// Appends the escaped form of one character.
fn append_escaped_char(out: &mut String, c: char)
    ensures
        final(out)@ == old(out)@ + escape_char(c),
{
    if c == '"' {
        out.append("\\\"");
    } else if c == '\\' {
        out.append("\\\\");
    } else if c == '\n' {
        out.append("\\n");
    } else if c == '\r' {
        out.append("\\r");
    } else if c == '\t' {
        out.append("\\t");
    } else if (c as u32) < 32 {
        out.append("\\u00");
        let v = c as u32;
        push_char(out, hex_char(v / 16));
        push_char(out, hex_char(v % 16));
        proof {
            assert(out@ =~= old(out)@ + escape_char(c));
        }
    } else {
        push_char(out, c);
        proof {
            assert(old(out)@.push(c) =~= old(out)@ + seq![c]);
        }
    }
}

/// Appends a whole JSON string literal for `s`.
fn append_json_string(out: &mut String, s: &str)
    ensures
        final(out)@ == old(out)@ + json_string(s@),
{
    let ghost start = out@;
    out.append("\"");
    proof {
        assert(s@.take(0) =~= Seq::<char>::empty());
    }
    let n = s.unicode_len();
    let mut i: usize = 0;
    while i < n
        invariant
            n == s@.len(),
            i <= n,
            out@ == start + "\""@ + json_escaped(s@.take(i as int)),
        decreases n - i,
    {
        let c = s.get_char(i);
        append_escaped_char(out, c);
        i = i + 1;
        proof {
            assert(s@.take(i as int).drop_last() =~= s@.take(i - 1));
            assert(s@.take(i as int).last() == s@[i - 1]);
            assert(out@ =~= start + "\""@ + json_escaped(s@.take(i as int)));
        }
    }
    proof {
        assert(s@.take(n as int) =~= s@);
    }
    out.append("\"");
    proof {
        assert(out@ =~= start + json_string(s@));
    }
}

/// Appends one transcript entry as a JSON object.
fn append_entry(out: &mut String, e: &Entry)
    ensures
        final(out)@ == old(out)@ + json_entry(e@),
{
    let ghost start = out@;
    out.append("{\"role\":");
    match e.role {
        Role::System => append_json_string(out, "system"),
        Role::User => append_json_string(out, "user"),
        Role::Assistant => append_json_string(out, "assistant"),
    }
    out.append(",\"content\":");
    append_json_string(out, e.content.as_str());
    out.append("}");
    proof {
        assert(out@ =~= start + json_entry(e@));
    }
}

/// Appends a whole transcript as a comma-separated array body.
fn append_entries(out: &mut String, entries: &Vec<Entry>)
    ensures
        final(out)@ == old(out)@ + json_entries(entries_view(entries@)),
{
    let ghost start = out@;
    let ghost ev = entries_view(entries@);
    proof {
        assert(ev.take(0) =~= Seq::<EntryV>::empty());
    }
    let mut i: usize = 0;
    while i < entries.len()
        invariant
            ev == entries_view(entries@),
            ev.len() == entries@.len(),
            i <= entries@.len(),
            out@ == start + json_entries(ev.take(i as int)),
        decreases entries@.len() - i,
    {
        if i > 0 {
            out.append(",");
        }
        append_entry(out, &entries[i]);
        i = i + 1;
        proof {
            assert(ev[i - 1] == entries@[i - 1]@);
            assert(ev.take(i as int).drop_last() =~= ev.take(i - 1));
            assert(ev.take(i as int).last() == ev[i - 1]);
            if i == 1 {
                assert(json_entries(ev.take(1)) == json_entry(ev[0]));
            }
            assert(out@ =~= start + json_entries(ev.take(i as int)));
        }
    }
    proof {
        assert(ev.take(entries@.len() as int) =~= ev);
    }
}

/// Builds the completion request body for one model name and one
/// transcript snapshot, exactly as `json_request` lays it out.
pub fn request_body(model: &str, transcript: &Vec<Entry>) -> (r: String)
    ensures
        r@ == json_request(model@, entries_view(transcript@)),
{
    let mut out = String::new();
    out.append("{\"model\":");
    append_json_string(&mut out, model);
    out.append(",\"messages\":[");
    append_entries(&mut out, transcript);
    out.append("]}");
    proof {
        assert(out@ =~= json_request(model@, entries_view(transcript@)));
    }
    out
}

/// The fixed model every completion request names.
pub fn model_name() -> (m: String)
    ensures
        m@ == "gpt-3.5-turbo"@,
{
    String::from_str("gpt-3.5-turbo")
}

} // verus!
