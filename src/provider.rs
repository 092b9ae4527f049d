use vstd::prelude::*;

use crate::error::ProviderFailure;

verus! {

/// A hexadecimal digit, lower case.
pub open spec fn hex_digit(d: u32) -> char
    recommends
        d < 16,
{
    seq!['0', '1', '2', '3', '4', '5', '6', '7', '8', '9', 'a', 'b', 'c', 'd', 'e', 'f'][d as int]
}

/// How one character stands inside a JSON string literal: quote and
/// backslash are escaped, as are control characters, by a short escape where
/// one exists and by `\u00xx` otherwise; everything else stands for itself.
pub open spec fn escaped_char(c: char) -> Seq<char> {
    if c == '"' {
        seq!['\\', '"']
    } else if c == '\\' {
        seq!['\\', '\\']
    } else if c == '\u{8}' {
        seq!['\\', 'b']
    } else if c == '\t' {
        seq!['\\', 't']
    } else if c == '\n' {
        seq!['\\', 'n']
    } else if c == '\u{c}' {
        seq!['\\', 'f']
    } else if c == '\r' {
        seq!['\\', 'r']
    } else if (c as u32) < 0x20 {
        seq!['\\', 'u', '0', '0', hex_digit((c as u32) / 16), hex_digit((c as u32) % 16)]
    } else {
        seq![c]
    }
}

/// The characters of `s`, each as it stands inside a JSON string literal.
pub open spec fn escaped(s: Seq<char>) -> Seq<char>
    decreases s.len(),
{
    if s.len() == 0 {
        Seq::empty()
    } else {
        escaped(s.drop_last()) + escaped_char(s.last())
    }
}

/// The JSON string literal that stands for `s`.
pub open spec fn json_quoted(s: Seq<char>) -> Seq<char> {
    seq!['"'] + escaped(s) + seq!['"']
}

/// Relies on `serde_json::to_string` on a `str`: it writes a quote, the text
/// with quote, backslash and control characters escaped (serde_json's
/// `ESCAPE` table and `write_char_escape`), and a closing quote, into a
/// `Vec<u8>`, which cannot fail.
#[verifier::external_body]
fn json_string(s: &str) -> (r: Option<String>)
    ensures
        r is Some,
        r matches Some(q) ==> q@ == json_quoted(s@),
{
    serde_json::to_string(s).ok()
}

/// The body posted to the hosted embedding API for a text, given the JSON
/// string literal of that text.
pub open spec fn request_body(quoted: Seq<char>) -> Seq<char> {
    "{\"input\":"@ + quoted + ",\"model\":\"text-embedding-ada-002\"}"@
}

fn frame_request(quoted: &str) -> (r: String)
    ensures
        r@ == request_body(quoted@),
{
    proof {
        reveal_strlit("{\"input\":");
        reveal_strlit(",\"model\":\"text-embedding-ada-002\"}");
    }
    let head = String::from_str("{\"input\":");
    let with_text = head.concat(quoted);
    with_text.concat(",\"model\":\"text-embedding-ada-002\"}")
}

/// The request that asks the hosted embedding API for the vector of `text`.
pub fn embedding_request_body(text: &str) -> (r: String)
    ensures
        r@ == request_body(json_quoted(text@)),
{
    match json_string(text) {
        Some(q) => frame_request(q.as_str()),
        None => String::new(),
    }
}

/// The vector in a response of the hosted embedding API: that of its first
/// data item. A response without one cannot be decoded.
pub fn embedding_from_response(mut data: Vec<Vec<u32>>) -> (r: Result<Vec<u32>, ProviderFailure>)
    ensures
        data@.len() > 0 <==> r is Ok,
        r matches Ok(v) ==> v@ == data@[0]@,
        data@.len() == 0 ==> r == Err::<Vec<u32>, ProviderFailure>(ProviderFailure::Decode),
{
    if data.len() == 0 {
        return Err(ProviderFailure::Decode);
    }
    let first = data.swap_remove(0);
    Ok(first)
}

} // verus!
