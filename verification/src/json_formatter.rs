//! Short forms of JSON payloads for the list views.
//!
//! Reading and pretty-printing JSON is left to `serde_json`; what this
//! module decides is how much of a document a row shows.

use crate::text::{shorten, shortened, trim, trimmed};
use vstd::prelude::*;
use vstd::string::*;

verus! {

/// How much of a JSON document is shown.
#[derive(Clone, Copy, Debug, PartialEq, Eq, Structural)]
pub enum JsonDisplayMode {
    /// The names of the top-level members only.
    KeysOnly,
    /// The top-level members, with nested values folded.
    FirstLevel,
    /// The whole document, indented.
    Full,
}

/// A JSON document as the formatter reads it.
#[derive(Debug)]
pub enum JsonValue {
    Null,
    Bool(bool),
    /// A number, as JSON text.
    Number(String),
    /// A string: its content, and the same as JSON text with quotes and
    /// escapes.
    Text { content: String, json: String },
    Array(Vec<JsonValue>),
    Object(Vec<JsonMember>),
}

/// One member of a JSON object.
#[derive(Debug)]
pub struct JsonMember {
    pub key: String,
    pub value: JsonValue,
}

/// Why a document could not be formatted.
#[derive(Clone, Copy, Debug, PartialEq, Eq, Structural)]
pub enum FormatError {
    /// The document was read but could not be written out again.
    Unprintable,
}

/// The formatter; it has no state.
pub struct JsonFormatter;

#[verifier::external_type_specification]
#[verifier::external_body]
pub struct ExJsonDocument(serde_json::Value);

/// The document that `serde_json` reads out of `text`, if it reads one.
pub uninterp spec fn parsed_json(text: Seq<char>) -> Option<JsonValue>;

/// The indented form that `serde_json` writes for the document in `text`.
pub uninterp spec fn pretty_json_of(text: Seq<char>) -> Option<Seq<char>>;

/// The text after `prefix` of the members' names from `from` on, each in
/// double quotes, with commas between them.
pub open spec fn quoted_keys(members: Seq<JsonMember>, from: int) -> Seq<char>
    decreases members.len() - from,
{
    if from >= members.len() {
        Seq::empty()
    } else {
        (if from > 0 {
            seq![',']
        } else {
            Seq::empty()
        }) + seq!['"'] + members[from].key@ + seq!['"'] + quoted_keys(members, from + 1)
    }
}

/// A value as JSON text on one line, for the values that have no members.
pub open spec fn scalar_text(value: JsonValue) -> Seq<char> {
    match value {
        JsonValue::Null => "null"@,
        JsonValue::Bool(b) => if b {
            "true"@
        } else {
            "false"@
        },
        JsonValue::Number(text) => text@,
        JsonValue::Text { content, json } => json@,
        JsonValue::Array(items) => "[...]"@,
        JsonValue::Object(members) => "{...}"@,
    }
}

/// The names-only form: an object shows the names of its members, an array
/// shows as `[...]`, any other value as its JSON text.
pub open spec fn keys_only(value: JsonValue) -> Seq<char> {
    match value {
        JsonValue::Object(members) => seq!['{'] + quoted_keys(members@, 0) + seq!['}'],
        _ => scalar_text(value),
    }
}

/// A member's value in the first-level form: nested values folded, a
/// string by its content in double quotes, any other value as JSON text.
pub open spec fn folded(value: JsonValue) -> Seq<char> {
    match value {
        JsonValue::Text { content, json } => seq!['"'] + content@ + seq!['"'],
        _ => scalar_text(value),
    }
}

/// The lines of the members from `from` on in the first-level form: each
/// indented by two blanks, with a comma and a line break between them.
pub open spec fn member_lines(members: Seq<JsonMember>, from: int) -> Seq<char>
    decreases members.len() - from,
{
    if from >= members.len() {
        Seq::empty()
    } else {
        (if from > 0 {
            seq![',', '\n']
        } else {
            Seq::empty()
        }) + seq![' ', ' ', '"'] + members[from].key@ + seq!['"', ':', ' '] + folded(
            members[from].value,
        ) + member_lines(members, from + 1)
    }
}

/// The first-level form: an object shows one line per member between
/// braces; any other value shows as in a member.
pub open spec fn first_level(value: JsonValue) -> Seq<char> {
    match value {
        JsonValue::Object(members) => seq!['{', '\n'] + member_lines(members@, 0) + seq![
            '\n',
            '}',
        ],
        _ => folded(value),
    }
}

/// A text in a colour of the terminal: the code of the colour, the text,
/// the code that ends the colour.
pub open spec fn tinted(code: Seq<char>, text: Seq<char>) -> Seq<char> {
    code + text + "\x1b[0m"@
}

/// One line of an array or object in the highlighted form: the
/// indentation of the parent, two blanks, the item, a comma unless the item
/// is the last, and a line break.
pub open spec fn item_line(indent: Seq<char>, item: Seq<char>, last: bool) -> Seq<char> {
    indent + "  "@ + item + (if last {
        Seq::empty()
    } else {
        ","@
    }) + "\n"@
}

/// The first `upto` lines of the items.
pub open spec fn item_lines(indent: Seq<char>, items: Seq<Seq<char>>, upto: int) -> Seq<char>
    decreases upto,
{
    if upto <= 0 {
        Seq::empty()
    } else {
        item_lines(indent, items, upto - 1) + item_line(
            indent,
            items[upto - 1],
            upto == items.len(),
        )
    }
}

/// The highlighted form of the items of an array, each one level deeper.
pub open spec fn highlighted_items(items: Seq<JsonValue>, indent: Seq<char>) -> Seq<Seq<char>>
    decreases items,
{
    Seq::new(
        items.len(),
        |i: int|
            if 0 <= i < items.len() {
                highlighted(items[i], indent + "  "@)
            } else {
                Seq::empty()
            },
    )
}

/// The highlighted form of the members of an object: the name in blue, a
/// colon, the value one level deeper.
pub open spec fn highlighted_members(members: Seq<JsonMember>, indent: Seq<char>) -> Seq<
    Seq<char>,
>
    decreases members,
{
    Seq::new(
        members.len(),
        |i: int|
            if 0 <= i < members.len() {
                tinted("\x1b[34m"@, "\""@ + members[i].key@ + "\""@) + ": "@ + highlighted(
                    members[i].value,
                    indent + "  "@,
                )
            } else {
                Seq::empty()
            },
    )
}

/// The highlighted form of a document at the given indentation: strings
/// in green, numbers in yellow, truth values in red, null in grey, the
/// names of members in blue, one item or member per line.
pub open spec fn highlighted(value: JsonValue, indent: Seq<char>) -> Seq<char>
    decreases value,
{
    match value {
        JsonValue::Null => tinted("\x1b[90m"@, "null"@),
        JsonValue::Bool(b) => tinted(
            "\x1b[31m"@,
            if b {
                "true"@
            } else {
                "false"@
            },
        ),
        JsonValue::Number(text) => tinted("\x1b[33m"@, text@),
        JsonValue::Text { content, json } => tinted("\x1b[32m"@, "\""@ + content@ + "\""@),
        JsonValue::Array(items) => if items@.len() == 0 {
            "[]"@
        } else {
            "[\n"@ + item_lines(
                indent,
                highlighted_items(items@, indent),
                items@.len() as int,
            ) + indent + "]"@
        },
        JsonValue::Object(members) => if members@.len() == 0 {
            "{}"@
        } else {
            "{\n"@ + item_lines(
                indent,
                highlighted_members(members@, indent),
                members@.len() as int,
            ) + indent + "}"@
        },
    }
}

/// What `highlight_json` returns: the highlighted form of a document, and
/// any other text as it is.
pub open spec fn highlighted_text(text: Seq<char>) -> Seq<char> {
    match parsed_json(text) {
        Some(value) => highlighted(value, Seq::empty()),
        None => text,
    }
}

/// What `format` returns.
pub open spec fn formatted(text: Seq<char>, mode: JsonDisplayMode) -> Result<
    Seq<char>,
    FormatError,
> {
    match parsed_json(text) {
        None => Ok(text),
        Some(value) => match mode {
            JsonDisplayMode::KeysOnly => Ok(keys_only(value)),
            JsonDisplayMode::FirstLevel => Ok(first_level(value)),
            JsonDisplayMode::Full => match pretty_json_of(text) {
                Some(pretty) => Ok(pretty),
                None => Err(FormatError::Unprintable),
            },
        },
    }
}

/// What `simplify_payload` returns: for JSON the names-only form, for other
/// text the text itself, either cut to `max` characters; `(empty)` for
/// nothing but white space.
pub open spec fn simplified(text: Seq<char>, max: nat) -> Seq<char> {
    let inner = trimmed(text);
    match parsed_json(inner) {
        Some(value) => shortened(keys_only(value), max),
        None => if inner.len() == 0 {
            "(empty)"@
        } else {
            shortened(inner, max)
        },
    }
}

/// The view of a formatting result.
pub open spec fn result_view(r: Result<String, FormatError>) -> Result<Seq<char>, FormatError> {
    match r {
        Ok(s) => Ok(s@),
        Err(e) => Err(e),
    }
}

/// Turns a `serde_json::Value` into the library's own document, member by
/// member. Numbers and strings keep the JSON text that their `to_string`
/// writes. Nothing is claimed of the result.
#[verifier::external_body]
fn tree_of(value: &serde_json::Value) -> (tree: JsonValue)
{
    match value {
        serde_json::Value::Null => JsonValue::Null,
        serde_json::Value::Bool(b) => JsonValue::Bool(*b),
        serde_json::Value::Number(n) => JsonValue::Number(n.to_string()),
        serde_json::Value::String(s) => JsonValue::Text {
            content: s.clone(),
            json: value.to_string(),
        },
        serde_json::Value::Array(items) => JsonValue::Array(items.iter().map(tree_of).collect()),
        serde_json::Value::Object(map) => JsonValue::Object(
            map.iter().map(|(k, v)| JsonMember { key: k.clone(), value: tree_of(v) }).collect(),
        ),
    }
}

/// Wraps `serde_json::from_str` for a whole document and reads the
/// document off its result; the result is only named, not described.
#[verifier::external_body]
pub(crate) fn parse_json(text: &str) -> (tree: Option<JsonValue>)
    ensures
        tree == parsed_json(text@),
{
    match serde_json::from_str::<serde_json::Value>(text) {
        Ok(value) => Some(tree_of(&value)),
        Err(_) => None,
    }
}

/// Wraps `serde_json::from_str` and `serde_json::to_string_pretty`: the
/// document in `text`, indented; the result is only named, not described.
#[verifier::external_body]
pub(crate) fn pretty_json(text: &str) -> (pretty: Option<String>)
    ensures
        crate::text::text_view(pretty) == pretty_json_of(text@),
{
    match serde_json::from_str::<serde_json::Value>(text) {
        Ok(value) => serde_json::to_string_pretty(&value).ok(),
        Err(_) => None,
    }
}

/// JSON text of a value without members.
fn scalar(value: &JsonValue) -> (text: String)
    ensures
        text@ == scalar_text(*value),
{
    match value {
        JsonValue::Null => String::from_str("null"),
        JsonValue::Bool(b) => if *b {
            String::from_str("true")
        } else {
            String::from_str("false")
        },
        JsonValue::Number(text) => text.clone(),
        JsonValue::Text { content, json } => json.clone(),
        JsonValue::Array(items) => String::from_str("[...]"),
        JsonValue::Object(members) => String::from_str("{...}"),
    }
}

/// A member's value in the first-level form.
fn fold(value: &JsonValue) -> (text: String)
    ensures
        text@ == folded(*value),
{
    match value {
        JsonValue::Text { content, json } => {
            proof {
                reveal_strlit("\"");
            }
            let mut text: String = String::from_str("\"");
            text.append(content.as_str());
            text.append("\"");
            assert(text@ =~= folded(*value));
            text
        },
        _ => scalar(value),
    }
}

/// A text in a colour of the terminal.
fn tint(code: &str, text: &str) -> (out: String)
    ensures
        out@ == tinted(code@, text@),
{
    let mut out: String = String::from_str(code);
    out.append(text);
    out.append("\x1b[0m");
    out
}

/// One line of an array or object in the highlighted form.
fn line_of(indent: &str, item: &str, last: bool) -> (out: String)
    ensures
        out@ == item_line(indent@, item@, last),
{
    let mut out: String = String::from_str(indent);
    out.append("  ");
    out.append(item);
    if !last {
        out.append(",");
    }
    out.append("\n");
    assert(out@ =~= item_line(indent@, item@, last));
    out
}

/// The highlighted form of a document at the given indentation.
pub fn colorize_value(value: &JsonValue, indent: &str) -> (out: String)
    ensures
        out@ == highlighted(*value, indent@),
    decreases value,
{
    match value {
        JsonValue::Null => tint("\x1b[90m", "null"),
        JsonValue::Bool(b) => if *b {
            tint("\x1b[31m", "true")
        } else {
            tint("\x1b[31m", "false")
        },
        JsonValue::Number(text) => tint("\x1b[33m", text.as_str()),
        JsonValue::Text { content, json } => {
            let mut quoted: String = String::from_str("\"");
            quoted.append(content.as_str());
            quoted.append("\"");
            tint("\x1b[32m", quoted.as_str())
        },
        JsonValue::Array(items) => {
            if items.len() == 0 {
                return String::from_str("[]");
            }
            let mut deeper: String = String::from_str(indent);
            deeper.append("  ");
            let ghost parts = highlighted_items(items@, indent@);
            let mut out: String = String::from_str("[\n");
            let mut i: usize = 0;
            while i < items.len()
                invariant
                    i <= items.len(),
                    deeper@ == indent@ + "  "@,
                    parts == highlighted_items(items@, indent@),
                    *value == JsonValue::Array(*items),
                    out@ == "[\n"@ + item_lines(indent@, parts, i as int),
                decreases items.len() - i,
            {
                let child: &JsonValue = &items[i];
                assert(decreases_to!(*value => *child)) by {
                    assert(value->Array_0 == *items);
                    assert(decreases_to!(*value => value->Array_0));
                    assert(decreases_to!(*items => items@));
                    assert(decreases_to!(items@ => items@[i as int]));
                }
                let item: String = colorize_value(child, deeper.as_str());
                let line: String = line_of(indent, item.as_str(), i + 1 == items.len());
                out.append(line.as_str());
                i = i + 1;
                assert(out@ =~= "[\n"@ + item_lines(indent@, parts, i as int));
            }
            out.append(indent);
            out.append("]");
            assert(out@ =~= highlighted(*value, indent@));
            out
        },
        JsonValue::Object(members) => {
            if members.len() == 0 {
                return String::from_str("{}");
            }
            let mut deeper: String = String::from_str(indent);
            deeper.append("  ");
            let ghost parts = highlighted_members(members@, indent@);
            let mut out: String = String::from_str("{\n");
            let mut i: usize = 0;
            while i < members.len()
                invariant
                    i <= members.len(),
                    deeper@ == indent@ + "  "@,
                    parts == highlighted_members(members@, indent@),
                    *value == JsonValue::Object(*members),
                    out@ == "{\n"@ + item_lines(indent@, parts, i as int),
                decreases members.len() - i,
            {
                let mut name: String = String::from_str("\"");
                name.append(members[i].key.as_str());
                name.append("\"");
                let mut item: String = tint("\x1b[34m", name.as_str());
                item.append(": ");
                let child: &JsonValue = &members[i].value;
                assert(decreases_to!(*value => *child)) by {
                    assert(value->Object_0 == *members);
                    assert(decreases_to!(*value => value->Object_0));
                    assert(decreases_to!(*members => members@));
                    assert(decreases_to!(members@ => members@[i as int]));
                    assert(decreases_to!(members@[i as int] => members@[i as int].value));
                }
                let inner: String = colorize_value(child, deeper.as_str());
                item.append(inner.as_str());
                let line: String = line_of(indent, item.as_str(), i + 1 == members.len());
                out.append(line.as_str());
                i = i + 1;
                assert(out@ =~= "{\n"@ + item_lines(indent@, parts, i as int));
            }
            out.append(indent);
            out.append("}");
            assert(out@ =~= highlighted(*value, indent@));
            out
        },
    }
}

impl JsonFormatter {
    /// Tells whether `text` is a JSON document.
    pub fn is_valid_json(text: &str) -> (valid: bool)
        ensures
            valid == parsed_json(text@) is Some,
    {
        parse_json(text).is_some()
    }

    /// The names-only form of a document.
    pub fn format_keys_only(value: &JsonValue) -> (text: String)
        ensures
            text@ == keys_only(*value),
    {
        match value {
            JsonValue::Object(members) => {
                proof {
                    reveal_strlit("{");
                    reveal_strlit("}");
                    reveal_strlit(",");
                    reveal_strlit("\"");
                }
                let mut text: String = String::from_str("{");
                let mut i: usize = members.len();
                let mut tail: String = String::new();
                while i > 0
                    invariant
                        i <= members.len(),
                        tail@ == quoted_keys(members@, i as int),
                        ","@ == seq![','],
                        "\""@ == seq!['"'],
                    decreases i,
                {
                    i = i - 1;
                    let mut item: String = String::new();
                    if i > 0 {
                        item.append(",");
                    }
                    item.append("\"");
                    item.append(members[i].key.as_str());
                    item.append("\"");
                    item.append(tail.as_str());
                    assert(item@ =~= quoted_keys(members@, i as int));
                    tail = item;
                }
                text.append(tail.as_str());
                text.append("}");
                assert(text@ =~= keys_only(*value));
                text
            },
            _ => scalar(value),
        }
    }

    /// The first-level form of a document.
    pub fn format_first_level(value: &JsonValue) -> (text: String)
        ensures
            text@ == first_level(*value),
    {
        match value {
            JsonValue::Object(members) => {
                proof {
                    reveal_strlit("{\n");
                    reveal_strlit("\n}");
                    reveal_strlit(",\n");
                    reveal_strlit("  \"");
                    reveal_strlit("\": ");
                }
                let mut text: String = String::from_str("{\n");
                let mut i: usize = members.len();
                let mut tail: String = String::new();
                while i > 0
                    invariant
                        i <= members.len(),
                        tail@ == member_lines(members@, i as int),
                        ",\n"@ == seq![',', '\n'],
                        "  \""@ == seq![' ', ' ', '"'],
                        "\": "@ == seq!['"', ':', ' '],
                    decreases i,
                {
                    i = i - 1;
                    let mut item: String = String::new();
                    if i > 0 {
                        item.append(",\n");
                    }
                    item.append("  \"");
                    item.append(members[i].key.as_str());
                    item.append("\": ");
                    let shown: String = fold(&members[i].value);
                    item.append(shown.as_str());
                    item.append(tail.as_str());
                    assert(item@ =~= member_lines(members@, i as int));
                    tail = item;
                }
                text.append(tail.as_str());
                text.append("\n}");
                assert(text@ =~= first_level(*value));
                text
            },
            _ => fold(value),
        }
    }

    /// Formats `text` in the given mode. Text that is no JSON document comes
    /// back as it is.
    pub fn format(text: &str, mode: JsonDisplayMode) -> (out: Result<String, FormatError>)
        ensures
            result_view(out) == formatted(text@, mode),
    {
        match parse_json(text) {
            None => Ok(String::from_str(text)),
            Some(value) => match mode {
                JsonDisplayMode::KeysOnly => Ok(Self::format_keys_only(&value)),
                JsonDisplayMode::FirstLevel => Ok(Self::format_first_level(&value)),
                JsonDisplayMode::Full => match pretty_json(text) {
                    Some(pretty) => Ok(pretty),
                    None => Err(FormatError::Unprintable),
                },
            },
        }
    }

    /// The document in `text` with colours for the terminal. Text that is
    /// no JSON document comes back as it is.
    pub fn highlight_json(text: &str) -> (out: String)
        ensures
            out@ == highlighted_text(text@),
    {
        match parse_json(text) {
            Some(value) => {
                proof {
                    reveal_strlit("");
                }
                assert(""@ =~= Seq::<char>::empty());
                colorize_value(&value, "")
            },
            None => String::from_str(text),
        }
    }

    /// The short form of a payload for a list row of at most `max_length`
    /// characters.
    pub fn simplify_payload(text: &str, max_length: usize) -> (out: String)
        ensures
            out@ == simplified(text@, max_length as nat),
    {
        let inner: &str = trim(text);
        match parse_json(inner) {
            Some(value) => {
                let keys: String = Self::format_keys_only(&value);
                shorten(keys.as_str(), max_length)
            },
            None => {
                if inner.unicode_len() == 0 {
                    String::from_str("(empty)")
                } else {
                    shorten(inner, max_length)
                }
            },
        }
    }
}

} // verus!
