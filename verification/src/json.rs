//! The JSON text of objects and arrays, in the compact form: no white space,
//! members and items in the order given.
//!
//! Strings are encoded by serde_json, with the escapes that are written out
//! below. What is put together here are texts that are JSON values already.

use vstd::prelude::*;
use vstd::string::*;

verus! {

/// The digit for `n` in base 16, in lower case.
pub open spec fn hex_digit(n: int) -> char {
    seq!['0', '1', '2', '3', '4', '5', '6', '7', '8', '9', 'a', 'b', 'c', 'd', 'e', 'f'][n]
}

/// What stands for the character `c` inside a JSON string. The double quote
/// and the backslash get a backslash in front. The control characters below
/// the space get their short escape where JSON has one, and `\u00` with two
/// hex digits where it has none. Every other character stands for itself.
pub open spec fn escape(c: char) -> Seq<char> {
    if c == '"' {
        seq!['\\', '"']
    } else if c == '\\' {
        seq!['\\', '\\']
    } else if c == '\u{8}' {
        seq!['\\', 'b']
    } else if c == '\t' {
        seq!['\\', 't']
    } else if c == '\n' {
        seq!['\\', 'n']
    } else if c == '\u{c}' {
        seq!['\\', 'f']
    } else if c == '\r' {
        seq!['\\', 'r']
    } else if (c as u32) < 0x20 {
        seq!['\\', 'u', '0', '0', hex_digit((c as u32) as int / 16), hex_digit((c as u32) as int % 16)]
    } else {
        seq![c]
    }
}

/// The characters of `s`, each as it stands inside a JSON string.
pub open spec fn escaped(s: Seq<char>) -> Seq<char>
    decreases s.len(),
{
    if s.len() == 0 {
        Seq::empty()
    } else {
        escaped(s.drop_last()) + escape(s.last())
    }
}

/// The JSON string for the text `s`: its characters as they stand inside a
/// JSON string, between double quotes.
pub open spec fn json_string_text(s: Seq<char>) -> Seq<char> {
    seq!['"'] + escaped(s) + seq!['"']
}

/// `serde_json::to_string`, on a `str`. serde_json writes an opening quote,
/// then the text, in which it replaces the bytes that its escape table
/// marks, then a closing quote. The table marks the bytes below 0x20, the
/// double quote and the backslash, and no byte of a character beyond ASCII.
/// All goes into a byte vector, which takes every write, so the call does
/// not fail.
#[verifier::external_body]
pub(crate) fn encode_string(s: &str) -> (text: String)
    ensures
        text@ == json_string_text(s@),
{
    serde_json::to_string(s).unwrap_or_default()
}

/// The views of the strings of `v`, in order.
pub open spec fn texts(v: Seq<String>) -> Seq<Seq<char>> {
    Seq::new(v.len(), |i: int| v[i]@)
}

/// The texts `items`, one after the other, with a comma between neighbours.
pub open spec fn joined(items: Seq<Seq<char>>) -> Seq<char>
    decreases items.len(),
{
    if items.len() == 0 {
        Seq::empty()
    } else if items.len() == 1 {
        items[0]
    } else {
        joined(items.drop_last()) + seq![','] + items.last()
    }
}

/// A member of an object: the name between double quotes, a colon, and the
/// value. The name is written as it is, so it must need no escape.
pub open spec fn member(name: Seq<char>, value: Seq<char>) -> Seq<char> {
    seq!['"'] + name + seq!['"', ':'] + value
}

/// The object with the members `members`.
pub open spec fn object(members: Seq<Seq<char>>) -> Seq<char> {
    seq!['{'] + joined(members) + seq!['}']
}

/// The array with the items `items`.
pub open spec fn array(items: Seq<Seq<char>>) -> Seq<char> {
    seq!['['] + joined(items) + seq![']']
}

/// The member `name` with the JSON value `value`.
pub fn json_member(name: &str, value: &str) -> (text: String)
    ensures
        text@ == member(name@, value@),
{
    let mut text = String::from_str("\"");
    text.append(name);
    text.append("\":");
    text.append(value);
    proof {
        reveal_strlit("\"");
        reveal_strlit("\":");
        assert("\""@ == seq!['"']);
        assert("\":"@ == seq!['"', ':']);
    }
    text
}

fn join(items: &Vec<String>) -> (text: String)
    ensures
        text@ == joined(texts(items@)),
{
    let mut text = String::new();
    let n = items.len();
    let mut i: usize = 0;
    while i < n
        invariant
            i <= n,
            n == items@.len(),
            text@ == joined(texts(items@).take(i as int)),
        decreases n - i,
    {
        let ghost done = texts(items@).take(i as int);
        let ghost next = texts(items@).take(i + 1);
        if i > 0 {
            text.append(",");
        }
        text.append(items[i].as_str());
        proof {
            reveal_strlit(",");
            assert(","@ == seq![',']);
            assert(next.drop_last() == done);
            assert(next.last() == items@[i as int]@);
        }
        i = i + 1;
    }
    assert(texts(items@).take(n as int) == texts(items@));
    text
}

/// The object whose members are the texts `members`, each made by
/// `json_member`.
pub fn json_object(members: &Vec<String>) -> (text: String)
    ensures
        text@ == object(texts(members@)),
{
    let mut text = String::from_str("{");
    let inner = join(members);
    text.append(inner.as_str());
    text.append("}");
    proof {
        reveal_strlit("{");
        reveal_strlit("}");
        assert("{"@ == seq!['{']);
        assert("}"@ == seq!['}']);
    }
    text
}

/// The array whose items are the JSON values `items`.
pub fn json_array(items: &Vec<String>) -> (text: String)
    ensures
        text@ == array(texts(items@)),
{
    let mut text = String::from_str("[");
    let inner = join(items);
    text.append(inner.as_str());
    text.append("]");
    proof {
        reveal_strlit("[");
        reveal_strlit("]");
        assert("["@ == seq!['[']);
        assert("]"@ == seq![']']);
    }
    text
}

} // verus!
