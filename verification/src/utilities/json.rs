use vstd::prelude::*;
use vstd::string::StringExecFns;
use crate::utilities::text::{owned, without_char, remove_char};

verus! {

/// A JSON value as the services' replies carry it. Numbers keep the text that
/// serde_json writes for them; object members keep the order of the parsed map.
#[derive(Debug, PartialEq)]
pub enum JsonValue {
    Null,
    Bool(bool),
    Number(String),
    Text(String),
    Array(Vec<JsonValue>),
    Object(Vec<(String, JsonValue)>),
}

/// The hexadecimal digit of `n` (0 to 15), in lower case.
pub open spec fn hex_digit(n: int) -> char {
    if n < 10 {
        (('0' as int) + n) as char
    } else {
        (('a' as int) + n - 10) as char
    }
}

/// How `serde_json` writes the character `c` inside a string literal: quotes and
/// backslashes behind a backslash, the control characters with a short escape where
/// JSON has one and as `\u00` and two hexadecimal digits otherwise, every other
/// character as it is.
pub open spec fn escaped_char(c: char) -> Seq<char> {
    if c == '"' {
        seq!['\\', '"']
    } else if c == '\\' {
        seq!['\\', '\\']
    } else if c == '\u{8}' {
        seq!['\\', 'b']
    } else if c == '\t' {
        seq!['\\', 't']
    } else if c == '\n' {
        seq!['\\', 'n']
    } else if c == '\u{c}' {
        seq!['\\', 'f']
    } else if c == '\r' {
        seq!['\\', 'r']
    } else if (c as int) < 0x20 {
        seq!['\\', 'u', '0', '0', hex_digit((c as int) / 16), hex_digit((c as int) % 16)]
    } else {
        seq![c]
    }
}

/// The characters of `s`, each written as `escaped_char` writes it.
pub open spec fn escaped_text(s: Seq<char>) -> Seq<char>
    decreases s.len(),
{
    if s.len() == 0 {
        Seq::empty()
    } else {
        escaped_text(s.drop_last()) + escaped_char(s.last())
    }
}

/// The text that `serde_json` writes for the string `s`: the string in double quotes,
/// with its quotes, backslashes and control characters escaped.
pub open spec fn json_quoted(s: Seq<char>) -> Seq<char> {
    seq!['"'] + escaped_text(s) + seq!['"']
}

/// Writes `s` as a JSON string literal with `serde_json::to_string`.
#[verifier::external_body]
pub(crate) fn json_quote(s: &str) -> (r: String)
    ensures
        r@ == json_quoted(s@),
{
    serde_json::to_string(s).unwrap()
}

/// The compact JSON text of `v` (what `serde_json::Value::to_string` writes).
pub open spec fn json_text(v: JsonValue) -> Seq<char>
    decreases v, 0int,
{
    match v {
        JsonValue::Null => "null"@,
        JsonValue::Bool(b) => if b { "true"@ } else { "false"@ },
        JsonValue::Number(t) => t@,
        JsonValue::Text(s) => json_quoted(s@),
        JsonValue::Array(items) => "["@ + items_text(items@) + "]"@,
        JsonValue::Object(members) => "{"@ + members_text(members@) + "}"@,
    }
}

/// The texts of `items` separated by commas.
pub open spec fn items_text(items: Seq<JsonValue>) -> Seq<char>
    decreases items, 1int,
{
    if items.len() == 0 {
        Seq::empty()
    } else if items.len() == 1 {
        json_text(items[0])
    } else {
        items_text(items.drop_last()) + ","@ + json_text(items.last())
    }
}

/// The texts of `members` (quoted key, colon, value) separated by commas.
pub open spec fn members_text(members: Seq<(String, JsonValue)>) -> Seq<char>
    decreases members, 1int,
{
    if members.len() == 0 {
        Seq::empty()
    } else if members.len() == 1 {
        json_quoted(members[0].0@) + ":"@ + json_text(members[0].1)
    } else {
        members_text(members.drop_last()) + ","@ + json_quoted(members.last().0@) + ":"@
            + json_text(members.last().1)
    }
}


/// Writes the compact JSON text of `v`, as `serde_json::Value::to_string` does.
pub fn json_value_text(v: &JsonValue) -> (r: String)
    ensures
        r@ == json_text(*v),
    decreases v,
{
    match v {
        JsonValue::Null => owned("null"),
        JsonValue::Bool(b) => if *b { owned("true") } else { owned("false") },
        JsonValue::Number(t) => t.clone(),
        JsonValue::Text(s) => json_quote(s.as_str()),
        JsonValue::Array(items) => {
            let mut r = owned("[");
            let n = items.len();
            let mut i: usize = 0;
            while i < n
                invariant
                    n == items@.len(),
                    i <= n,
                    r@ == "["@ + items_text(items@.take(i as int)),
                    *v == JsonValue::Array(*items),
                decreases n - i,
            {
                assert(decreases_to!(*v => (*v)->Array_0));
                assert(decreases_to!(*items => items@));
                assert(decreases_to!(items@ => items@[i as int]));
                assert(decreases_to!(*v => items@[i as int]));
                assert(items@.take(i as int + 1).drop_last() == items@.take(i as int));
                if i != 0 {
                    r.append(",");
                }
                let item_text = json_value_text(&items[i]);
                r.append(item_text.as_str());
                i = i + 1;
            }
            assert(items@.take(n as int) == items@);
            r.append("]");
            r
        },
        JsonValue::Object(members) => {
            let mut r = owned("{");
            let n = members.len();
            let mut i: usize = 0;
            while i < n
                invariant
                    n == members@.len(),
                    i <= n,
                    r@ == "{"@ + members_text(members@.take(i as int)),
                    *v == JsonValue::Object(*members),
                decreases n - i,
            {
                assert(decreases_to!(*v => (*v)->Object_0));
                assert(decreases_to!(*members => members@));
                assert(decreases_to!(members@ => members@[i as int]));
                assert(decreases_to!(members@[i as int] => members@[i as int].1));
                assert(decreases_to!(*v => members@[i as int].1));
                assert(members@.take(i as int + 1).drop_last() == members@.take(i as int));
                if i != 0 {
                    r.append(",");
                }
                let key_text = json_quote(members[i].0.as_str());
                r.append(key_text.as_str());
                r.append(":");
                let value_text = json_value_text(&members[i].1);
                r.append(value_text.as_str());
                i = i + 1;
            }
            assert(members@.take(n as int) == members@);
            r.append("}");
            r
        },
    }
}


/// The value of the first member of `members` whose key is `key`.
pub open spec fn member_value(members: Seq<(String, JsonValue)>, key: Seq<char>) -> Option<JsonValue>
    decreases members.len(),
{
    if members.len() == 0 {
        None
    } else if members[0].0@ == key {
        Some(members[0].1)
    } else {
        member_value(members.skip(1), key)
    }
}

/// What `v.get(key)` finds: the member `key` of an object, nothing for other values.
pub open spec fn value_at_key(v: JsonValue, key: Seq<char>) -> Option<JsonValue> {
    match v {
        JsonValue::Object(members) => member_value(members@, key),
        _ => None,
    }
}

/// What `v.get(i)` finds: the element `i` of an array, nothing for other values.
pub open spec fn value_at_index(v: JsonValue, i: int) -> Option<JsonValue> {
    match v {
        JsonValue::Array(items) => if 0 <= i < items@.len() { Some(items@[i]) } else { None },
        _ => None,
    }
}

/// The JSON text of `v` with its double quotes taken out (what
/// `v.to_string().replace('"', "")` gives).
pub open spec fn unquoted_text(v: JsonValue) -> Seq<char> {
    without_char(json_text(v), '"')
}

impl JsonValue {
    /// Whether this is JSON `null`.
    pub fn is_null(&self) -> (r: bool)
        ensures
            r == (*self is Null),
    {
        match self {
            JsonValue::Null => true,
            _ => false,
        }
    }

    /// The member `key` of an object (`Value::get` with a string index).
    pub fn get_key(&self, key: &str) -> (r: Option<&JsonValue>)
        ensures
            match r {
                Some(x) => value_at_key(*self, key@) == Some(*x),
                None => value_at_key(*self, key@) is None,
            },
    {
        match self {
            JsonValue::Object(members) => {
                let n = members.len();
                let mut i: usize = 0;
                assert(members@.skip(0) == members@);
                while i < n
                    invariant
                        n == members@.len(),
                        i <= n,
                        *self == JsonValue::Object(*members),
                        member_value(members@, key@) == member_value(members@.skip(i as int), key@),
                    decreases n - i,
                {
                    assert(members@.skip(i as int).skip(1) == members@.skip(i as int + 1));
                    assert(members@.skip(i as int)[0] == members@[i as int]);
                    if crate::utilities::text::same_text(members[i].0.as_str(), key) {
                        return Some(&members[i].1);
                    }
                    i = i + 1;
                }
                None
            },
            _ => None,
        }
    }

    /// The element `i` of an array (`Value::get` with a number index).
    pub fn get_index(&self, i: usize) -> (r: Option<&JsonValue>)
        ensures
            match r {
                Some(x) => value_at_index(*self, i as int) == Some(*x),
                None => value_at_index(*self, i as int) is None,
            },
    {
        match self {
            JsonValue::Array(items) => {
                if i < items.len() {
                    Some(&items[i])
                } else {
                    None
                }
            },
            _ => None,
        }
    }
}

/// The JSON text of `v` without its double quotes, as `v.to_string().replace('"', "")`
/// writes it.
pub fn json_unquoted_text(v: &JsonValue) -> (r: String)
    ensures
        r@ == unquoted_text(*v),
{
    let t = json_value_text(v);
    remove_char(t.as_str(), '"')
}

} // verus!
