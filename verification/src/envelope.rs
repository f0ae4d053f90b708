//! The reply payload envelope.
//!
//! The one wire contract this crate owns is the shape of the reply payload the
//! reference handlers produce: a JSON object with the string fields `message`,
//! `reply_for_key` and `topic` and the boolean field `status`, its keys in
//! alphabetical order and its strings quoted the way serde_json quotes them.
//! [`build_reply_envelope`] assembles that object around the quoted fields.

use vstd::prelude::*;
use vstd::string::StringExecFns;

verus! {

/// One lowercase hexadecimal digit.
pub open spec fn hex_digit(v: u32) -> char {
    seq!['0', '1', '2', '3', '4', '5', '6', '7', '8', '9', 'a', 'b', 'c', 'd', 'e', 'f'][v as int]
}

/// How JSON carries one character inside a string literal: the double quote,
/// the backslash and five control characters have two-character escapes, the
/// other control characters a `\u00..` escape with lowercase hex digits, and
/// every other character passes raw.
pub open spec fn json_escaped_char(c: char) -> Seq<char> {
    if c == '"' {
        seq!['\\', '"']
    } else if c == '\\' {
        seq!['\\', '\\']
    } else if c == '\u{8}' {
        seq!['\\', 'b']
    } else if c == '\t' {
        seq!['\\', 't']
    } else if c == '\n' {
        seq!['\\', 'n']
    } else if c == '\u{c}' {
        seq!['\\', 'f']
    } else if c == '\r' {
        seq!['\\', 'r']
    } else if (c as u32) < 32 {
        seq!['\\', 'u', '0', '0', hex_digit((c as u32) >> 4), hex_digit((c as u32) & 0xf)]
    } else {
        seq![c]
    }
}

/// The escaped body of the JSON string literal for `s`.
pub open spec fn json_escaped(s: Seq<char>) -> Seq<char>
    decreases s.len(),
{
    if s.len() == 0 {
        Seq::empty()
    } else {
        json_escaped_char(s[0]) + json_escaped(s.drop_first())
    }
}

/// The JSON string literal for `s`: the escaped body between double quotes.
pub open spec fn json_quoted(s: Seq<char>) -> Seq<char> {
    seq!['"'] + json_escaped(s) + seq!['"']
}

/// Whether JSON can carry every character of `s` raw inside a string literal:
/// no double quote, no backslash, no control character.
pub open spec fn json_plain(s: Seq<char>) -> bool {
    forall|i: int| 0 <= i < s.len() ==> s[i] != '"' && s[i] != '\\' && s[i] as u32 >= 32
}

/// Escaping leaves a plain string untouched.
proof fn lemma_json_plain_escaped(s: Seq<char>)
    requires
        json_plain(s),
    ensures
        json_escaped(s) == s,
    decreases s.len(),
{
    if s.len() == 0 {
        assert(json_escaped(s) =~= s);
    } else {
        assert(s[0] != '"' && s[0] != '\\' && s[0] as u32 >= 32);
        assert forall|i: int| 0 <= i < s.drop_first().len() implies s.drop_first()[i] != '"'
            && s.drop_first()[i] != '\\' && s.drop_first()[i] as u32 >= 32 by {
            assert(s.drop_first()[i] == s[i + 1]);
        }
        lemma_json_plain_escaped(s.drop_first());
        assert(json_escaped(s) =~= s);
    }
}

/// Law: JSON carries every character of a plain string raw, so its string
/// literal is the string itself between bare double quotes.
pub proof fn lemma_json_plain_quoted(s: Seq<char>)
    requires
        json_plain(s),
    ensures
        json_quoted(s) == seq!['"'] + s + seq!['"'],
{
    lemma_json_plain_escaped(s);
}

/// Relies on `serde_json::to_string` on a string slice: it returns the JSON
/// string literal for the slice, escaping exactly per its escape table — the
/// double quote, the backslash, the five short control escapes and `\u00..`
/// with lowercase hex for the other characters below `0x20`; everything else,
/// non-ASCII included, passes raw. It cannot fail on a string (serialization
/// fails only for a failing `Serialize` impl or a map with non-string keys).
#[verifier::external_body]
fn json_string(s: &str) -> (r: String)
    ensures
        r@ == json_quoted(s@),
{
    match serde_json::to_string(s) {
        Ok(quoted) => quoted,
        Err(_) => String::new(),
    }
}

/// The reply envelope: the inbound payload, the originating topic, the
/// correlation key, and a status flag, serialized as one JSON object.
pub open spec fn envelope_chars(topic: Seq<char>, key: Seq<char>, payload: Seq<char>) -> Seq<
    char,
> {
    "{\"message\":"@ + json_quoted(payload) + ",\"reply_for_key\":"@ + json_quoted(key)
        + ",\"status\":true,\"topic\":"@ + json_quoted(topic) + "}"@
}

/// The reply envelope for fields JSON carries raw: every field appears
/// verbatim between plain double quotes, so the wire text is fully concrete.
pub open spec fn plain_envelope_chars(
    topic: Seq<char>,
    key: Seq<char>,
    payload: Seq<char>,
) -> Seq<char> {
    "{\"message\":"@ + seq!['"'] + payload + seq!['"'] + ",\"reply_for_key\":"@ + seq!['"'] + key
        + seq!['"'] + ",\"status\":true,\"topic\":"@ + seq!['"'] + topic + seq!['"'] + "}"@
}

/// Serializes the reply envelope for one handled message. For fields without
/// characters that need escaping the result is the concrete text of
/// [`plain_envelope_chars`].
pub fn build_reply_envelope(topic: &str, key: &str, payload: &str) -> (r: String)
    ensures
        r@ == envelope_chars(topic@, key@, payload@),
        json_plain(topic@) && json_plain(key@) && json_plain(payload@) ==> r@
            == plain_envelope_chars(topic@, key@, payload@),
{
    let mut r = "{\"message\":".to_owned();
    let quoted_payload = json_string(payload);
    r.append(quoted_payload.as_str());
    r.append(",\"reply_for_key\":");
    let quoted_key = json_string(key);
    r.append(quoted_key.as_str());
    r.append(",\"status\":true,\"topic\":");
    let quoted_topic = json_string(topic);
    r.append(quoted_topic.as_str());
    r.append("}");
    proof {
        if json_plain(topic@) && json_plain(key@) && json_plain(payload@) {
            lemma_json_plain_quoted(topic@);
            lemma_json_plain_quoted(key@);
            lemma_json_plain_quoted(payload@);
        }
    }
    r
}

} // verus!
