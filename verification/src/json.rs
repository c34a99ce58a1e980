//! JSON objects, read and written by `serde_json`.
//!
//! An object is modelled as the map from its keys to its values, each value standing as the
//! compact JSON text that `serde_json` prints for it.
use vstd::prelude::*;

use crate::text;

verus! {

/// A map of `serde_json`: the keys of an object and their values.
#[verifier::external_type_specification]
#[verifier::external_body]
#[verifier::reject_recursive_types(K)]
#[verifier::reject_recursive_types(V)]
pub struct ExJsonMap<K, V>(serde_json::Map<K, V>);

/// A value of `serde_json`.
#[verifier::external_type_specification]
#[verifier::external_body]
pub struct ExJsonValue(serde_json::Value);

/// What a map of `serde_json` holds: each key with the compact text of its value.
pub uninterp spec fn map_entries(
    map: serde_json::Map<String, serde_json::Value>,
) -> Map<Seq<char>, Seq<char>>;

/// The entries of the object that `serde_json::from_str` reads from a text; nothing where it
/// reads no object.
pub uninterp spec fn json_object(text: Seq<char>) -> Option<Map<Seq<char>, Seq<char>>>;

/// The compact text that `serde_json::to_string` prints for an object with these entries.
pub uninterp spec fn object_text(entries: Map<Seq<char>, Seq<char>>) -> Seq<char>;

/// The IEEE 754 bits of what `serde_json::Value::as_f64` gives for the value with this compact
/// text; nothing where the value is no number.
pub uninterp spec fn json_number(value: Seq<char>) -> Option<u64>;

/// The lower-case hexadecimal digit of a number below sixteen.
pub open spec fn hex_digit(n: int) -> char {
    "0123456789abcdef"@[n]
}

/// A character as it stands in a JSON string: quotes, backslashes and control characters are
/// escaped, all others stand for themselves.
pub open spec fn escaped(c: char) -> Seq<char> {
    if c == '"' {
        "\\\""@
    } else if c == '\\' {
        "\\\\"@
    } else if c == '\u{8}' {
        "\\b"@
    } else if c == '\t' {
        "\\t"@
    } else if c == '\n' {
        "\\n"@
    } else if c == '\u{c}' {
        "\\f"@
    } else if c == '\r' {
        "\\r"@
    } else if 32 > c as int {
        "\\u00"@ + seq![hex_digit(c as int / 16), hex_digit(c as int % 16)]
    } else {
        seq![c]
    }
}

/// A text as it stands between the quotes of a JSON string.
pub open spec fn escaped_text(text: Seq<char>) -> Seq<char>
    decreases text.len(),
{
    if text.len() == 0 {
        text
    } else {
        escaped_text(text.drop_last()) + escaped(text.last())
    }
}

/// A text in quotes.
pub open spec fn quoted(text: Seq<char>) -> Seq<char> {
    "\""@ + text + "\""@
}

/// The compact JSON text of a string: quoted and escaped.
pub open spec fn json_string(text: Seq<char>) -> Seq<char> {
    quoted(escaped_text(text))
}

/// The text holds nothing to escape in JSON: no control character, no quote and no backslash.
pub open spec fn is_plain(text: Seq<char>) -> bool {
    forall|i: int|
        0 <= i < text.len() ==> ' ' <= #[trigger] text[i] && text[i] != '"' && text[i] != '\\'
}

/// A text with nothing to escape stands in JSON as it is, in quotes.
pub proof fn law_plain_text_is_quoted(text: Seq<char>)
    requires
        is_plain(text),
    ensures
        escaped_text(text) == text,
        json_string(text) == quoted(text),
    decreases text.len(),
{
    if text.len() > 0 {
        let rest = text.drop_last();
        assert forall|i: int| 0 <= i < rest.len() implies ' ' <= #[trigger] rest[i] && rest[i]
            != '"' && rest[i] != '\\' by {
            assert(rest[i] == text[i]);
        }
        law_plain_text_is_quoted(rest);
        assert(text[text.len() - 1] == text.last());
        assert(escaped(text.last()) == seq![text.last()]);
        assert(rest + seq![text.last()] =~= text);
    }
}

/// The compact text of an optional string: `null` where there is none.
pub open spec fn optional_json(text: Option<Seq<char>>) -> Seq<char> {
    match text {
        Some(s) => json_string(s),
        None => "null"@,
    }
}

/// The entries of the empty object.
pub open spec fn no_entries() -> Map<Seq<char>, Seq<char>> {
    Map::empty()
}

/// The text of an object with one entry: in braces, the key, a colon and the value.
pub open spec fn single_entry_text(key: Seq<char>, value: Seq<char>) -> Seq<char> {
    "{"@ + json_string(key) + ":"@ + value + "}"@
}

/// If these are the entries of an object with one entry, `text` is its text.
pub open spec fn prints_single_entry(
    entries: Map<Seq<char>, Seq<char>>,
    text: Seq<char>,
) -> bool {
    forall|key: Seq<char>, value: Seq<char>|
        entries == #[trigger] no_entries().insert(key, value) ==> text == single_entry_text(
            key,
            value,
        )
}

/// Calls `serde_json::from_str` for a map. It succeeds exactly where the text is one JSON
/// object, nested no deeper than `serde_json` follows; what it reads is named `json_object`.
#[verifier::external_body]
fn parse_map(text: &str) -> (map: Option<serde_json::Map<String, serde_json::Value>>)
    ensures
        map is Some <==> json_object(text@) is Some,
        map matches Some(m) ==> json_object(text@) == Some(map_entries(m)),
{
    serde_json::from_str(text).ok()
}

/// Calls `serde_json::Map::new`, which makes a map without entries.
#[verifier::external_body]
fn empty_map() -> (map: serde_json::Map<String, serde_json::Value>)
    ensures
        map_entries(map) == no_entries(),
{
    serde_json::Map::new()
}

/// Calls `serde_json::Map::insert` with a string, or with `null` where there is none: the key
/// then holds that value, whatever it held before, and no other key changes. A string is
/// printed in quotes, with the escapes of `escaped`.
#[verifier::external_body]
fn insert_text(
    map: &mut serde_json::Map<String, serde_json::Value>,
    key: &str,
    text: Option<&str>,
)
    ensures
        map_entries(*final(map)) == map_entries(*old(map)).insert(
            key@,
            (if text is Some {
                json_string(text->0@)
            } else {
                "null"@
            }),
        ),
{
    map.insert(key.to_string(), serde_json::Value::from(text));
}

/// Calls `serde_json::to_string` for the map of an object, which prints it as a function of
/// its entries alone, named `object_text`. That holds because `serde_json` is built without its
/// feature `preserve_order` and so keeps the keys of a map sorted. An object with one entry is printed as that key and
/// its value, parted by a colon, in braces. What is printed is read back as it was: numbers
/// too, since `serde_json` is built to read floating-point numbers exactly.
#[verifier::external_body]
fn print_map(object: &JsonObject) -> (text: String)
    ensures
        text@ == object_text(map_entries(object.map)),
        prints_single_entry(map_entries(object.map), text@),
        json_object(text@) == Some(map_entries(object.map)),
{
    serde_json::to_string(&object.map).unwrap()
}

/// Calls `serde_json::Map::get` and, on a value that is there, `serde_json::Value::as_f64`,
/// whose result is handed on as its bits.
#[verifier::external_body]
fn number_at(
    map: &serde_json::Map<String, serde_json::Value>,
    key: &str,
) -> (number: Option<Option<u64>>)
    ensures
        number == if map_entries(*map).contains_key(key@) {
            Some(json_number(map_entries(*map)[key@]))
        } else {
            None
        },
{
    map.get(key).map(|value| value.as_f64().map(|number| number.to_bits()))
}

/// A JSON object that was read from a text, or built from strings.
pub struct JsonObject {
    map: serde_json::Map<String, serde_json::Value>,
}

impl View for JsonObject {
    type V = Map<Seq<char>, Seq<char>>;

    closed spec fn view(&self) -> Map<Seq<char>, Seq<char>> {
        map_entries(self.map)
    }
}

impl JsonObject {
    /// The empty object.
    pub fn new() -> (object: JsonObject)
        ensures
            object@ == no_entries(),
    {
        JsonObject { map: empty_map() }
    }

    /// Reads an object from a text.
    pub fn parse(text: &str) -> (object: Option<JsonObject>)
        ensures
            object is Some <==> json_object(text@) is Some,
            object matches Some(o) ==> json_object(text@) == Some(o@),
    {
        match parse_map(text) {
            Some(map) => Some(JsonObject { map }),
            None => None,
        }
    }

    /// Puts a string, or `null`, under a key.
    pub fn set(&mut self, key: &str, value: Option<&str>)
        ensures
            final(self)@ == old(self)@.insert(key@, optional_json(text::optional_str(value))),
    {
        insert_text(&mut self.map, key, value);
    }

    /// Prints the object in its compact form.
    pub fn print(&self) -> (text: String)
        ensures
            text@ == object_text(self@),
            prints_single_entry(self@, text@),
            json_object(text@) == Some(self@),
    {
        print_map(self)
    }

    /// What the object says of one metric.
    pub fn metric(&self, key: &str) -> (reading: MetricReading)
        ensures
            reading == reading_of(Some(self@), key@),
    {
        match number_at(&self.map, key) {
            None => MetricReading::Missing,
            Some(number) => MetricReading::Present(number),
        }
    }
}

/// What a metrics document says of one metric.
#[derive(Clone, Copy, Debug, PartialEq, Eq, Structural)]
pub enum MetricReading {
    /// The document is not a JSON object.
    NotAnObject,
    /// The object has no such key.
    Missing,
    /// The key is there: the bits of its number, or nothing where it is no number.
    Present(Option<u64>),
}

/// What the entries of a metrics document say of the metric stored under `key`.
pub open spec fn reading_of(
    entries: Option<Map<Seq<char>, Seq<char>>>,
    key: Seq<char>,
) -> MetricReading {
    match entries {
        None => MetricReading::NotAnObject,
        Some(object) => if object.contains_key(key) {
            MetricReading::Present(json_number(object[key]))
        } else {
            MetricReading::Missing
        },
    }
}

/// Whether a text is a JSON object.
pub fn is_object(text: &str) -> (object: bool)
    ensures
        object == (json_object(text@) is Some),
{
    match JsonObject::parse(text) {
        Some(_) => true,
        None => false,
    }
}

/// Reads one metric from a metrics document.
pub fn read_metric(document: &str, key: &str) -> (reading: MetricReading)
    ensures
        reading == reading_of(json_object(document@), key@),
{
    match JsonObject::parse(document) {
        None => MetricReading::NotAnObject,
        Some(object) => object.metric(key),
    }
}

/// A text is escaped character by character: the escape of a text in two parts is that of the
/// first followed by that of the second.
pub proof fn law_escape_joins(first: Seq<char>, second: Seq<char>)
    ensures
        escaped_text(first + second) == escaped_text(first) + escaped_text(second),
    decreases second.len(),
{
    if second.len() == 0 {
        assert(first + second =~= first);
        assert(escaped_text(first) + escaped_text(second) =~= escaped_text(first));
    } else {
        let rest = second.drop_last();
        law_escape_joins(first, rest);
        assert((first + second).drop_last() =~= first + rest);
        assert((first + second).last() == second.last());
        assert(escaped_text(first) + (escaped_text(rest) + escaped(second.last())) =~= (escaped_text(
            first,
        ) + escaped_text(rest)) + escaped(second.last()));
    }
}

/// How a single character is escaped: a backslash before a quote and a backslash, a letter for
/// five control characters, the code in four hexadecimal digits for the other control
/// characters. Every other character stands for itself.
pub proof fn law_escape_of_character(c: char)
    ensures
        c == '"' ==> escaped_text(seq![c]) == seq!['\\', '"'],
        c == '\\' ==> escaped_text(seq![c]) == seq!['\\', '\\'],
        c as int == 8 ==> escaped_text(seq![c]) == seq!['\\', 'b'],
        c as int == 9 ==> escaped_text(seq![c]) == seq!['\\', 't'],
        c as int == 10 ==> escaped_text(seq![c]) == seq!['\\', 'n'],
        c as int == 12 ==> escaped_text(seq![c]) == seq!['\\', 'f'],
        c as int == 13 ==> escaped_text(seq![c]) == seq!['\\', 'r'],
        (32 > c as int && c as int != 8 && c as int != 9 && c as int != 10 && c as int != 12
            && c as int != 13) ==> escaped_text(seq![c]) == seq![
            '\\',
            'u',
            '0',
            '0',
            if 16 > c as int {
                '0'
            } else {
                '1'
            },
            "0123456789abcdef"@[c as int % 16],
        ],
        (c as int >= 32 && c != '"' && c != '\\') ==> escaped_text(seq![c]) == seq![c],
{
    let one = seq![c];
    assert(one.drop_last() =~= Seq::empty());
    assert(one.last() == c);
    reveal_with_fuel(escaped_text, 2);
    assert(escaped_text(one) =~= escaped(c));
    reveal_strlit("\\\"");
    reveal_strlit("\\\\");
    reveal_strlit("\\b");
    reveal_strlit("\\t");
    reveal_strlit("\\n");
    reveal_strlit("\\f");
    reveal_strlit("\\r");
    reveal_strlit("\\u00");
    reveal_strlit("0123456789abcdef");
}

/// A JSON string is the escaped text between two quotes, and no text is `null`.
pub proof fn law_string_is_quoted(text: Seq<char>)
    ensures
        json_string(text) == seq!['"'] + escaped_text(text) + seq!['"'],
        optional_json(Some(text)) == seq!['"'] + escaped_text(text) + seq!['"'],
        optional_json(None) == "null"@,
        escaped_text(Seq::empty()) == Seq::<char>::empty(),
{
    reveal_strlit("\"");
    assert("\""@ =~= seq!['"']);
}

/// The empty object has no key.
pub proof fn law_empty_object(key: Seq<char>)
    ensures
        !no_entries().contains_key(key),
{
}

/// What a document says of a metric: nothing of it where it is no object, that the key is
/// missing exactly where it is, and else the number of the value under that key.
pub proof fn law_reading(object: Map<Seq<char>, Seq<char>>, key: Seq<char>)
    ensures
        reading_of(None, key) == MetricReading::NotAnObject,
        !object.contains_key(key) ==> reading_of(Some(object), key) == MetricReading::Missing,
        object.contains_key(key) ==> reading_of(Some(object), key) == MetricReading::Present(
            json_number(object[key]),
        ),
{
}

} // verus!
