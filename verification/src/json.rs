//! The few JSON operations the state file needs, done by `serde_json`.

use vstd::prelude::*;

verus! {

/// `serde_json::Value`, carried through verified code as an opaque value.
#[verifier::external_type_specification]
#[verifier::external_body]
pub struct ExJsonValue(serde_json::Value);

/// Names what a JSON value holds as far as this crate reads it: for an object,
/// each member whose value is a JSON string, mapped to that string; for any
/// other value, nothing.
pub uninterp spec fn json_str_members(v: serde_json::Value) -> Map<Seq<char>, Seq<char>>;

/// Names what `serde_json::from_str::<serde_json::Value>` makes of `text`: the
/// string members (as `json_str_members` reads them) of the value it parses, or
/// the text of the error it reports.
pub uninterp spec fn json_text(text: Seq<char>) -> Result<Map<Seq<char>, Seq<char>>, Seq<char>>;

/// The lower-case hexadecimal digit of `d` (0 to 15).
pub open spec fn hex_digit(d: u32) -> char {
    if d < 10 {
        ((48 + d) as u32) as char
    } else {
        ((87 + d) as u32) as char
    }
}

/// How serde_json writes one character inside a string literal: `"` and `\`
/// behind a backslash; backspace, tab, line feed, form feed and carriage
/// return as `\b`, `\t`, `\n`, `\f`, `\r`; any other character below
/// U+0020 as `\u00` and two lower-case hexadecimal digits; every other
/// character as itself.
pub open spec fn escaped_char(c: char) -> Seq<char> {
    let x = c as u32;
    if c == '"' {
        seq!['\\', '"']
    } else if c == '\\' {
        seq!['\\', '\\']
    } else if x == 8 {
        seq!['\\', 'b']
    } else if x == 9 {
        seq!['\\', 't']
    } else if x == 10 {
        seq!['\\', 'n']
    } else if x == 12 {
        seq!['\\', 'f']
    } else if x == 13 {
        seq!['\\', 'r']
    } else if x < 32 {
        seq!['\\', 'u', '0', '0', hex_digit(x / 16), hex_digit(x % 16)]
    } else {
        seq![c]
    }
}

/// The characters of `s`, each written as `escaped_char` writes it.
pub open spec fn escaped(s: Seq<char>) -> Seq<char>
    decreases s.len(),
{
    if s.len() == 0 {
        seq![]
    } else {
        escaped(s.drop_last()) + escaped_char(s.last())
    }
}

/// `s` holds no character that a JSON string literal escapes: no quote, no
/// backslash, nothing below U+0020.
pub open spec fn needs_no_escape(s: Seq<char>) -> bool {
    forall|i: int| 0 <= i < s.len() ==> {
        let c = #[trigger] s[i];
        &&& c != '"'
        &&& c != '\\'
        &&& c as u32 >= 32
    }
}

/// A string without such characters is written as it is.
pub proof fn escaping_keeps_plain_text(s: Seq<char>)
    requires
        needs_no_escape(s),
    ensures
        escaped(s) == s,
    decreases s.len(),
{
    if s.len() > 0 {
        escaping_keeps_plain_text(s.drop_last());
        assert(s.drop_last().push(s.last()) =~= s);
        assert(escaped_char(s.last()) == seq![s.last()]);
        assert(escaped(s) =~= s);
    }
}

/// The JSON string literal that `serde_json::to_string` writes for `s`: a
/// quote, the escaped characters, a quote.
pub open spec fn json_string_literal(s: Seq<char>) -> Seq<char> {
    seq!['"'] + escaped(s) + seq!['"']
}

/// The text of a JSON object with one member, given the literal of its key and
/// the JSON text of its value, written without whitespace.
pub open spec fn object_text(key_literal: Seq<char>, value_text: Seq<char>) -> Seq<char> {
    seq!['{'] + key_literal + seq![':'] + value_text + seq!['}']
}

/// Trusted: `serde_json::from_str::<serde_json::Value>(text)`, with the error
/// turned into its display text. The contract claims that the outcome (success,
/// the string members of the value, or the error text) is the one `json_text`
/// names for `text`; which texts are accepted is left to serde_json.
#[verifier::external_body]
pub(crate) fn json_from_str(text: &str) -> (r: Result<serde_json::Value, String>)
    ensures
        r is Ok <==> json_text(text@) is Ok,
        r matches Ok(v) ==> json_str_members(v) == json_text(text@)->Ok_0,
        r matches Err(m) ==> m@ == json_text(text@)->Err_0,
{
    match serde_json::from_str::<serde_json::Value>(text) {
        Ok(v) => Ok(v),
        Err(e) => Err(e.to_string()),
    }
}

/// Trusted: `serde_json::Value::get(v, key)`, keeping the member only where it
/// is a JSON string. `get` finds a member of an object and nothing in any other
/// value, so the contract claims that the result is the string member `key` of
/// `v` as `json_str_members` names it.
#[verifier::external_body]
pub(crate) fn json_str_member(v: &serde_json::Value, key: &str) -> (r: Option<String>)
    ensures
        r is Some <==> json_str_members(*v).contains_key(key@),
        r matches Some(s) ==> s@ == json_str_members(*v)[key@],
{
    match v.get(key) {
        Some(serde_json::Value::String(s)) => Some(s.clone()),
        _ => None,
    }
}

/// Trusted: `serde_json::to_string(s)` for a string `s`. The contract claims
/// that it succeeds (it writes into a `Vec<u8>`, which cannot fail, and a
/// string serialises without error), that the result is the literal that
/// `json_string_literal` states (serde_json's escape table), and that an object written as one key literal,
/// a colon and this literal reads back, through `serde_json::from_str`, as an
/// object whose one string member maps that key to `s`.
#[verifier::external_body]
pub(crate) fn json_encode_str(s: &str) -> (r: Result<String, String>)
    ensures
        r is Ok,
        r matches Ok(t) ==> t@ == json_string_literal(s@),
        r matches Ok(t) ==> forall|k: Seq<char>|
            #![trigger json_string_literal(k)]
            json_text(object_text(json_string_literal(k), t@)) is Ok && json_text(
                object_text(json_string_literal(k), t@),
            )->Ok_0 == map![k => s@],
{
    serde_json::to_string(s).map_err(|e| e.to_string())
}

} // verus!
