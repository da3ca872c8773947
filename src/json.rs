//! A plain model of JSON values, with parsing and printing done by serde_json.
use vstd::prelude::*;
use crate::text::push_char;

verus! {

/// A JSON value. Numbers keep the decimal text that serde_json gives them;
/// object entries keep the order in which serde_json hands them out.
#[derive(Debug, PartialEq)]
pub enum JsonValue {
    Null,
    Bool(bool),
    Number(String),
    Str(String),
    Array(Vec<JsonValue>),
    Object(Vec<(String, JsonValue)>),
}

#[verifier::external_type_specification]
#[verifier::external_body]
pub struct ExSerdeValue(serde_json::Value);

/// What serde_json makes of a text: the value of the one JSON document it
/// holds, or `None` where the text is not such a document.
pub uninterp spec fn parsed_json(s: Seq<char>) -> Option<JsonValue>;

/// The compact JSON text that serde_json prints for a value.
pub uninterp spec fn json_text(v: JsonValue) -> Seq<char>;

/// A lowercase hexadecimal digit.
pub open spec fn hex_digit(d: u32) -> char {
    if d < 10 {
        crate::text::digit_char(d as int)
    } else if d == 10 {
        'a'
    } else if d == 11 {
        'b'
    } else if d == 12 {
        'c'
    } else if d == 13 {
        'd'
    } else if d == 14 {
        'e'
    } else {
        'f'
    }
}

/// How a character stands inside a JSON string, as serde_json writes it:
/// `"` and `\` are escaped, backspace, tab, line feed, form feed and carriage
/// return get their short escapes, the other control characters below
/// U+0020 are written `\u00XX`, and every other character stands as it is.
pub open spec fn escaped_char(c: char) -> Seq<char> {
    if c == '"' {
        seq!['\\', '"']
    } else if c == '\\' {
        seq!['\\', '\\']
    } else if c == '\u{8}' {
        seq!['\\', 'b']
    } else if c == '\t' {
        seq!['\\', 't']
    } else if c == '\n' {
        seq!['\\', 'n']
    } else if c == '\u{c}' {
        seq!['\\', 'f']
    } else if c == '\r' {
        seq!['\\', 'r']
    } else if (c as u32) < 0x20 {
        seq!['\\', 'u', '0', '0', hex_digit((c as u32) / 16), hex_digit((c as u32) % 16)]
    } else {
        seq![c]
    }
}

/// The characters of a text, each as it stands inside a JSON string.
pub open spec fn escaped(s: Seq<char>) -> Seq<char>
    decreases s.len(),
{
    if s.len() == 0 {
        Seq::empty()
    } else {
        escaped(s.drop_last()) + escaped_char(s.last())
    }
}

/// The JSON string literal that serde_json writes for a text.
pub open spec fn quoted_json(s: Seq<char>) -> Seq<char> {
    seq!['"'] + escaped(s) + seq!['"']
}

fn hex_digit_exec(d: u32) -> (r: char)
    requires
        d < 16,
    ensures
        r == hex_digit(d),
{
    if d < 10 {
        let ds = crate::text::decimal(d as u64);
        let cs = crate::text::chars_of(ds.as_str());
        assert(cs@ =~= seq![crate::text::digit_char(d as int)]);
        cs[0]
    } else if d == 10 {
        'a'
    } else if d == 11 {
        'b'
    } else if d == 12 {
        'c'
    } else if d == 13 {
        'd'
    } else if d == 14 {
        'e'
    } else {
        'f'
    }
}

/// Appends a character as it stands inside a JSON string.
fn push_escaped(out: &mut String, c: char)
    ensures
        final(out)@ == old(out)@ + escaped_char(c),
{
    let ghost before = out@;
    let n = c as u32;
    if c == '"' || c == '\\' {
        push_char(out, '\\');
        push_char(out, c);
    } else if c == '\u{8}' || c == '\t' || c == '\n' || c == '\u{c}' || c == '\r' {
        push_char(out, '\\');
        let short = if c == '\u{8}' {
            'b'
        } else if c == '\t' {
            't'
        } else if c == '\n' {
            'n'
        } else if c == '\u{c}' {
            'f'
        } else {
            'r'
        };
        push_char(out, short);
    } else if n < 0x20 {
        push_char(out, '\\');
        push_char(out, 'u');
        push_char(out, '0');
        push_char(out, '0');
        push_char(out, hex_digit_exec(n / 16));
        push_char(out, hex_digit_exec(n % 16));
    } else {
        push_char(out, c);
    }
    assert(out@ =~= before + escaped_char(c));
}

/// The JSON string literal of a text, quoted and escaped as serde_json
/// writes it.
pub fn quote_json(s: &str) -> (r: String)
    ensures
        r@ == quoted_json(s@),
{
    let cs = crate::text::chars_of(s);
    let mut r = String::new();
    push_char(&mut r, '"');
    let mut i: usize = 0;
    while i < cs.len()
        invariant
            i <= cs@.len(),
            cs@ == s@,
            r@ == seq!['"'] + escaped(cs@.take(i as int)),
        decreases cs.len() - i,
    {
        assert(cs@.take(i + 1).drop_last() =~= cs@.take(i as int));
        push_escaped(&mut r, cs[i]);
        assert(r@ =~= seq!['"'] + escaped(cs@.take(i + 1)));
        i = i + 1;
    }
    push_char(&mut r, '"');
    assert(cs@.take(cs@.len() as int) =~= cs@);
    r
}

/// The value of the entry under `key` in a list of object entries: the first
/// such entry.
pub open spec fn field_of(entries: Seq<(String, JsonValue)>, key: Seq<char>) -> Option<JsonValue>
    decreases entries.len(),
{
    if entries.len() == 0 {
        None
    } else if entries[0].0@ == key {
        Some(entries[0].1)
    } else {
        field_of(entries.drop_first(), key)
    }
}

/// The position of the first entry under `key`.
pub open spec fn field_index(entries: Seq<(String, JsonValue)>, key: Seq<char>) -> Option<int>
    decreases entries.len(),
{
    if entries.len() == 0 {
        None
    } else if entries[0].0@ == key {
        Some(0)
    } else {
        match field_index(entries.drop_first(), key) {
            Some(i) => Some(i + 1),
            None => None,
        }
    }
}

/// The first entry under `key` is where `field_index` points, and what
/// `field_of` gives.
pub proof fn lemma_field_index(entries: Seq<(String, JsonValue)>, key: Seq<char>)
    ensures
        match field_index(entries, key) {
            Some(i) => 0 <= i < entries.len() && entries[i].0@ == key && field_of(entries, key)
                == Some(entries[i].1) && forall|j: int| 0 <= j < i ==> entries[j].0@ != key,
            None => field_of(entries, key).is_none() && forall|j: int|
                0 <= j < entries.len() ==> entries[j].0@ != key,
        },
    decreases entries.len(),
{
    if entries.len() > 0 && entries[0].0@ != key {
        lemma_field_index(entries.drop_first(), key);
        match field_index(entries.drop_first(), key) {
            Some(i) => {
                assert forall|j: int| 0 <= j < i + 1 implies entries[j].0@ != key by {
                    if j > 0 {
                        assert(entries[j] == entries.drop_first()[j - 1]);
                    }
                }
            },
            None => {
                assert forall|j: int| 0 <= j < entries.len() implies entries[j].0@ != key by {
                    if j > 0 {
                        assert(entries[j] == entries.drop_first()[j - 1]);
                    }
                }
            },
        }
    }
}

/// Finds the position of the first entry under `key`.
pub fn find_field(entries: &Vec<(String, JsonValue)>, key: &str) -> (r: Option<usize>)
    ensures
        match r {
            Some(i) => field_index(entries@, key@) == Some(i as int),
            None => field_index(entries@, key@).is_none(),
        },
{
    proof {
        lemma_field_index(entries@, key@);
    }
    let mut i: usize = 0;
    while i < entries.len()
        invariant
            i <= entries.len(),
            forall|j: int| 0 <= j < i ==> entries@[j].0@ != key@,
            match field_index(entries@, key@) {
                Some(k) => 0 <= k < entries@.len() && entries@[k].0@ == key@ && forall|j: int|
                    0 <= j < k ==> entries@[j].0@ != key@,
                None => forall|j: int| 0 <= j < entries@.len() ==> entries@[j].0@ != key@,
            },
        decreases entries.len() - i,
    {
        if string_eq(&entries[i].0, key) {
            return Some(i);
        }
        i = i + 1;
    }
    None
}

/// The value under `key` in an object, as `serde_json::Value::get` gives it:
/// nothing where the value is not an object.
pub open spec fn member_of(v: JsonValue, key: Seq<char>) -> Option<JsonValue> {
    match v {
        JsonValue::Object(m) => field_of(m@, key),
        _ => None,
    }
}

impl JsonValue {
    /// The value under `key`, where this is an object that has one.
    pub fn get(&self, key: &str) -> (r: Option<&JsonValue>)
        ensures
            match r {
                Some(x) => member_of(*self, key@) == Some(*x),
                None => member_of(*self, key@).is_none(),
            },
    {
        match self {
            JsonValue::Object(m) => {
                proof {
                    lemma_field_index(m@, key@);
                }
                match find_field(m, key) {
                    Some(i) => Some(&m[i].1),
                    None => None,
                }
            },
            _ => None,
        }
    }
}

/// Tells whether a string holds exactly the characters of `key`.
pub fn string_eq(s: &String, key: &str) -> (r: bool)
    ensures
        r == (s@ == key@),
{
    let a = s.as_str();
    let n = a.unicode_len();
    if n != key.unicode_len() {
        return false;
    }
    let mut i: usize = 0;
    while i < n
        invariant
            n == a@.len(),
            n == key@.len(),
            a@ == s@,
            i <= n,
            forall|j: int| 0 <= j < i ==> a@[j] == key@[j],
        decreases n - i,
    {
        if a.get_char(i) != key.get_char(i) {
            return false;
        }
        i = i + 1;
    }
    assert(a@ =~= key@);
    true
}

/// Relies on serde_json::from_str::<serde_json::Value>: it parses one JSON
/// document and fails on anything else; the value is then moved into
/// `JsonValue` variant by variant.
#[verifier::external_body]
fn parse_serde(s: &str) -> (r: Option<JsonValue>)
    ensures
        r == parsed_json(s@),
{
    serde_json::from_str::<serde_json::Value>(s).ok().map(from_serde)
}

/// Relies on the Display of serde_json::Value, which prints compact JSON; the
/// value is first moved into serde_json's own variants.
#[verifier::external_body]
fn print_serde(v: &JsonValue) -> (r: String)
    ensures
        r@ == json_text(*v),
{
    to_serde(v).to_string()
}

/// Moves a serde_json value into the matching variant of `JsonValue`, one for
/// one (a number keeps the text that serde_json prints for it).
#[verifier::external_body]
pub(crate) fn from_serde(v: serde_json::Value) -> JsonValue {
    match v {
        serde_json::Value::Null => JsonValue::Null,
        serde_json::Value::Bool(b) => JsonValue::Bool(b),
        serde_json::Value::Number(n) => JsonValue::Number(n.to_string()),
        serde_json::Value::String(s) => JsonValue::Str(s),
        serde_json::Value::Array(a) => JsonValue::Array(a.into_iter().map(from_serde).collect()),
        serde_json::Value::Object(m) => JsonValue::Object(
            m.into_iter().map(|(k, x)| (k, from_serde(x))).collect(),
        ),
    }
}

/// Copies a `JsonValue` into the matching variant of serde_json's value, one
/// for one (a number is read back from its text).
#[verifier::external_body]
fn to_serde(v: &JsonValue) -> serde_json::Value {
    match v {
        JsonValue::Null => serde_json::Value::Null,
        JsonValue::Bool(b) => serde_json::Value::Bool(*b),
        JsonValue::Number(n) => n.parse::<serde_json::Number>().map_or(serde_json::Value::Null, serde_json::Value::Number),
        JsonValue::Str(s) => serde_json::Value::String(s.clone()),
        JsonValue::Array(a) => serde_json::Value::Array(a.iter().map(to_serde).collect()),
        JsonValue::Object(m) => serde_json::Value::Object(m.iter().map(|(k, x)| (k.clone(), to_serde(x))).collect()),
    }
}

impl JsonValue {
    /// Parses a JSON document.
    pub fn parse(text: &str) -> (r: Option<JsonValue>)
        ensures
            r == parsed_json(text@),
    {
        parse_serde(text)
    }

    /// The compact JSON text of this value.
    pub fn to_json_string(&self) -> (r: String)
        ensures
            r@ == json_text(*self),
    {
        print_serde(self)
    }
}

} // verus!
