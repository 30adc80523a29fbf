//! The values that promises are resolved with, as JSON text.
use vstd::prelude::*;

use crate::effects::Reply;
use crate::text::decimal_text;

verus! {

/// A digit of a hexadecimal number.
pub open spec fn hex_digit(n: int) -> char {
    "0123456789abcdef"@[n]
}

/// A character as it stands in the JSON text of a string: quotes, backslashes and
/// control characters are escaped, those that have a short form by that.
pub open spec fn escaped(c: char) -> Seq<char> {
    if c == '"' || c == '\\' {
        seq!['\\', c]
    } else if c == '\u{8}' {
        seq!['\\', 'b']
    } else if c == '\t' {
        seq!['\\', 't']
    } else if c == '\n' {
        seq!['\\', 'n']
    } else if c == '\u{c}' {
        seq!['\\', 'f']
    } else if c == '\r' {
        seq!['\\', 'r']
    } else if (c as u32) < 32 {
        seq!['\\', 'u', '0', '0', hex_digit((c as int) / 16), hex_digit((c as int) % 16)]
    } else {
        seq![c]
    }
}

/// A text as it stands between the quotes of its JSON text.
pub open spec fn escaped_text(text: Seq<char>) -> Seq<char>
    decreases text.len(),
{
    if text.len() == 0 {
        Seq::empty()
    } else {
        escaped_text(text.drop_last()) + escaped(text.last())
    }
}

/// The JSON text of a string.
pub open spec fn json_string(text: Seq<char>) -> Seq<char> {
    seq!['"'] + escaped_text(text) + seq!['"']
}

/// The JSON text of a number that may be absent.
pub open spec fn json_number(number: Option<u64>) -> Seq<char> {
    match number {
        Some(n) => decimal_text(n as nat),
        None => "null"@,
    }
}

/// The JSON text of an object of fields, each given by its name and by the text of
/// its value.
pub open spec fn json_object(fields: Seq<(Seq<char>, Seq<char>)>) -> Seq<char> {
    "{"@ + joined(
        fields.map_values(|f: (Seq<char>, Seq<char>)| json_string(f.0) + ":"@ + f.1),
    ) + "}"@
}

/// Whether names are in the order of their first characters, and no two of them
/// start alike.
pub open spec fn are_ordered(names: Seq<Seq<char>>) -> bool {
    forall|i: int, j: int|
        0 <= i < j < names.len() ==> (#[trigger] names[i]).len() > 0 && (
        #[trigger] names[j]).len() > 0 && (names[i][0] as u32) < (names[j][0] as u32)
}

/// The JSON text of an object with the fields `windowId` and `stableId`.
pub open spec fn json_window(window: u64, stable_id: Seq<char>) -> Seq<char> {
    json_object(
        seq![
            ("stableId"@, json_string(stable_id)),
            ("windowId"@, decimal_text(window as nat)),
        ],
    )
}

/// The JSON text of an object with the fields `bufferId` and `splitId`.
pub open spec fn json_virtual_buffer(buffer: u64, split: Option<u64>) -> Seq<char> {
    json_object(
        seq![("bufferId"@, decimal_text(buffer as nat)), ("splitId"@, json_number(split))],
    )
}

/// The JSON text of a truth value.
pub open spec fn json_flag(flag: bool) -> Seq<char> {
    if flag {
        "true"@
    } else {
        "false"@
    }
}

/// The JSON text of an object with the fields `name`, `path` and `enabled`.
pub open spec fn json_plugin(name: Seq<char>, path: Seq<char>, enabled: bool) -> Seq<char> {
    json_object(
        seq![
            ("enabled"@, json_flag(enabled)),
            ("name"@, json_string(name)),
            ("path"@, json_string(path)),
        ],
    )
}

/// The JSON text of an object with the fields `name`, `description`, `source`
/// and `plugin`.
pub open spec fn json_command(
    name: Seq<char>,
    description: Seq<char>,
    source: Seq<char>,
    plugin: Seq<char>,
) -> Seq<char> {
    json_object(
        seq![
            ("description"@, json_string(description)),
            ("name"@, json_string(name)),
            ("plugin"@, json_string(plugin)),
            ("source"@, json_string(source)),
        ],
    )
}

/// Texts with a comma between one and the next.
pub open spec fn joined(items: Seq<Seq<char>>) -> Seq<char>
    decreases items.len(),
{
    if items.len() == 0 {
        Seq::empty()
    } else if items.len() == 1 {
        items[0]
    } else {
        joined(items.drop_last()) + ","@ + items.last()
    }
}

/// The JSON text of an array of values, given by their own texts.
pub open spec fn json_array(items: Seq<Seq<char>>) -> Seq<char> {
    "["@ + joined(items) + "]"@
}

/// The JSON text of a list of numbers, each of which may be absent.
pub open spec fn json_numbers(numbers: Seq<Option<u64>>) -> Seq<char> {
    json_array(numbers.map_values(|n: Option<u64>| json_number(n)))
}

/// The JSON text of an object with the fields `focusedPane`, `paneCount` and
/// `lines`.
pub open spec fn json_composite_cursor(
    focused_pane: u64,
    pane_count: u64,
    lines: Seq<Option<u64>>,
) -> Seq<char> {
    json_object(
        seq![
            ("focusedPane"@, decimal_text(focused_pane as nat)),
            ("lines"@, json_numbers(lines)),
            ("paneCount"@, decimal_text(pane_count as nat)),
        ],
    )
}

/// The boolean that an object of JSON text has under a key, as `serde_json`
/// reads it: absent where the text is not an object, has no such key, or has
/// something else there.
pub uninterp spec fn json_flag_field(text: Seq<char>, key: Seq<char>) -> Option<bool>;

/// What an object of JSON text has under a key, as `serde_json` reads it:
/// absent where the text is not an object or has no such key, and without a
/// text of its own where it is not an object.
pub uninterp spec fn json_object_field(text: Seq<char>, key: Seq<char>) -> Option<
    Option<Seq<char>>,
>;

/// `serde_json::to_string` on a string: the string in quotes, with what has to be
/// escaped in it. It cannot fail: strings are serialised without a condition, into
/// memory.
#[verifier::external_body]
fn string_to_json(text: &str) -> (json: Option<String>)
    ensures
        json is Some,
        json->0@ == json_string(text@),
{
    serde_json::to_string(text).ok()
}

/// `serde_json::to_string` on a number that may be absent: the number in
/// decimal, or `null`. It cannot fail: numbers are serialised without a
/// condition, into memory.
#[verifier::external_body]
fn number_to_json(number: Option<u64>) -> (json: Option<String>)
    ensures
        json is Some,
        json->0@ == json_number(number),
{
    serde_json::to_string(&number).ok()
}

/// `serde_json::Value::to_string` on an object of a text and a number: the fields
/// in the order of their names, without blanks.
#[verifier::external_body]
fn text_and_number_to_json(
    text_name: &str,
    text: &str,
    number_name: &str,
    number: u64,
) -> (json: String)
    requires
        are_ordered(seq![text_name@, number_name@]),
    ensures
        json@ == json_object(
            seq![(text_name@, json_string(text@)), (number_name@, decimal_text(number as nat))],
        ),
{
    let mut object = serde_json::Map::new();
    object.insert(text_name.to_string(), serde_json::Value::from(text));
    object.insert(number_name.to_string(), serde_json::Value::from(number));
    serde_json::Value::Object(object).to_string()
}

/// `serde_json::Value::to_string` on an object of two numbers: the fields in the
/// order of their names, without blanks, and null for a number that is absent.
#[verifier::external_body]
fn numbers_to_json(
    first_name: &str,
    first: u64,
    second_name: &str,
    second: Option<u64>,
) -> (json: String)
    requires
        are_ordered(seq![first_name@, second_name@]),
    ensures
        json@ == json_object(
            seq![(first_name@, decimal_text(first as nat)), (second_name@, json_number(second))],
        ),
{
    let mut object = serde_json::Map::new();
    object.insert(first_name.to_string(), serde_json::Value::from(first));
    object.insert(second_name.to_string(), serde_json::Value::from(second));
    serde_json::Value::Object(object).to_string()
}

/// `serde_json::Value::to_string` on an object of a truth value and two texts: the
/// fields in the order of their names, without blanks.
#[verifier::external_body]
fn flag_and_texts_to_json(
    flag_name: &str,
    flag: bool,
    first_name: &str,
    first: &str,
    second_name: &str,
    second: &str,
) -> (json: String)
    requires
        are_ordered(seq![flag_name@, first_name@, second_name@]),
    ensures
        json@ == json_object(
            seq![
                (flag_name@, json_flag(flag)),
                (first_name@, json_string(first@)),
                (second_name@, json_string(second@)),
            ],
        ),
{
    let mut object = serde_json::Map::new();
    object.insert(flag_name.to_string(), serde_json::Value::from(flag));
    object.insert(first_name.to_string(), serde_json::Value::from(first));
    object.insert(second_name.to_string(), serde_json::Value::from(second));
    serde_json::Value::Object(object).to_string()
}

/// `serde_json::Value::to_string` on an object of four texts: the fields in the
/// order of their names, without blanks.
#[verifier::external_body]
fn texts_to_json(
    first: (&str, &str),
    second: (&str, &str),
    third: (&str, &str),
    fourth: (&str, &str),
) -> (json: String)
    requires
        are_ordered(seq![first.0@, second.0@, third.0@, fourth.0@]),
    ensures
        json@ == json_object(
            seq![
                (first.0@, json_string(first.1@)),
                (second.0@, json_string(second.1@)),
                (third.0@, json_string(third.1@)),
                (fourth.0@, json_string(fourth.1@)),
            ],
        ),
{
    let mut object = serde_json::Map::new();
    object.insert(first.0.to_string(), serde_json::Value::from(first.1));
    object.insert(second.0.to_string(), serde_json::Value::from(second.1));
    object.insert(third.0.to_string(), serde_json::Value::from(third.1));
    object.insert(fourth.0.to_string(), serde_json::Value::from(fourth.1));
    serde_json::Value::Object(object).to_string()
}

/// `serde_json::Value::to_string` on an object of two numbers and, between them, a
/// list of numbers: the fields in the order of their names, without blanks, and
/// null for a number that is absent.
#[verifier::external_body]
fn numbers_and_list_to_json(
    first_name: &str,
    first: u64,
    list_name: &str,
    list: &Vec<Option<u64>>,
    last_name: &str,
    last: u64,
) -> (json: String)
    requires
        are_ordered(seq![first_name@, list_name@, last_name@]),
    ensures
        json@ == json_object(
            seq![
                (first_name@, decimal_text(first as nat)),
                (list_name@, json_numbers(list@)),
                (last_name@, decimal_text(last as nat)),
            ],
        ),
{
    let mut object = serde_json::Map::new();
    object.insert(first_name.to_string(), serde_json::Value::from(first));
    object.insert(list_name.to_string(), serde_json::Value::from(list.as_slice()));
    object.insert(last_name.to_string(), serde_json::Value::from(last));
    serde_json::Value::Object(object).to_string()
}

/// The JSON text of where the cursor of a composite buffer is: the pane that has
/// the focus, how many there are, and the line in each.
pub(crate) fn composite_cursor_to_json(
    focused_pane: u64,
    pane_count: u64,
    lines: &Vec<Option<u64>>,
) -> (json: String)
    ensures
        json@ == json_composite_cursor(focused_pane, pane_count, lines@),
{
    proof {
        reveal_strlit("focusedPane");
        reveal_strlit("lines");
        reveal_strlit("paneCount");
    }
    numbers_and_list_to_json("focusedPane", focused_pane, "lines", lines, "paneCount", pane_count)
}

/// The JSON text of a window's number and identity.
fn window_to_json(window: u64, stable_id: &str) -> (json: String)
    ensures
        json@ == json_window(window, stable_id@),
{
    proof {
        reveal_strlit("stableId");
        reveal_strlit("windowId");
    }
    text_and_number_to_json("stableId", stable_id, "windowId", window)
}

/// The JSON text of a buffer and the split that shows it.
fn virtual_buffer_to_json(buffer: u64, split: Option<u64>) -> (json: String)
    ensures
        json@ == json_virtual_buffer(buffer, split),
{
    proof {
        reveal_strlit("bufferId");
        reveal_strlit("splitId");
    }
    numbers_to_json("bufferId", buffer, "splitId", split)
}

/// The JSON text of what describes a plugin.
pub(crate) fn plugin_to_json(name: &str, path: &str, enabled: bool) -> (json: String)
    ensures
        json@ == json_plugin(name@, path@, enabled),
{
    proof {
        reveal_strlit("enabled");
        reveal_strlit("name");
        reveal_strlit("path");
    }
    flag_and_texts_to_json("enabled", enabled, "name", name, "path", path)
}

/// The JSON text of what describes a command.
pub(crate) fn command_to_json(
    name: &str,
    description: &str,
    source: &str,
    plugin: &str,
) -> (json: String)
    ensures
        json@ == json_command(name@, description@, source@, plugin@),
{
    proof {
        reveal_strlit("description");
        reveal_strlit("name");
        reveal_strlit("plugin");
        reveal_strlit("source");
    }
    texts_to_json(
        ("description", description),
        ("name", name),
        ("plugin", plugin),
        ("source", source),
    )
}

/// `serde_json::from_str`, `Value::get` and `Value::as_bool`: the boolean that
/// an object has under a key. It depends on the text and the key alone.
#[verifier::external_body]
pub(crate) fn flag_field(text: &str, key: &str) -> (flag: Option<bool>)
    ensures
        flag == json_flag_field(text@, key@),
{
    serde_json::from_str::<serde_json::Value>(text).ok()?.get(key)?.as_bool()
}

/// `serde_json::from_str`, `Value::get` and `Value::is_object`: what an object
/// has under a key, by its own text where it is an object too. It depends on
/// the text and the key alone.
#[verifier::external_body]
pub(crate) fn object_field(text: &str, key: &str) -> (field: Option<Option<String>>)
    ensures
        match field {
            Some(Some(object)) => json_object_field(text@, key@) == Some(Some(object@)),
            Some(None) => json_object_field(text@, key@) == Some(None::<Seq<char>>),
            None => json_object_field(text@, key@) is None,
        },
{
    let value = serde_json::from_str::<serde_json::Value>(text).ok()?;
    let field = value.get(key)?;
    Some(field.is_object().then_some(field.to_string()))
}

impl Reply {
    /// The JSON text that a promise is resolved with.
    pub open spec fn spec_json(self) -> Seq<char> {
        match self {
            Reply::Null => "null"@,
            Reply::Flag(flag) => json_flag(flag),
            Reply::Number(number) => json_number(number),
            Reply::Json(text) => text@,
            Reply::Window { window, stable_id } => json_window(window.0, stable_id@),
            Reply::VirtualBuffer { buffer, split } => json_virtual_buffer(
                buffer.0,
                match split {
                    Some(leaf) => Some(leaf.0.0),
                    None => None,
                },
            ),
        }
    }

    /// The JSON text that a promise is resolved with.
    pub fn json(&self) -> (json: String)
        ensures
            json@ == self.spec_json(),
    {
        match self {
            Reply::Null => "null".to_string(),
            Reply::Flag(flag) => if *flag {
                "true".to_string()
            } else {
                "false".to_string()
            },
            Reply::Number(number) => match number_to_json(*number) {
                Some(json) => json,
                None => "null".to_string(),
            },
            Reply::Json(text) => text.clone(),
            Reply::Window { window, stable_id } => window_to_json(window.0, stable_id.as_str()),
            Reply::VirtualBuffer { buffer, split } => {
                let split: Option<u64> = match split {
                    Some(leaf) => Some(leaf.0.0),
                    None => None,
                };
                virtual_buffer_to_json(buffer.0, split)
            },
        }
    }
}

/// The JSON text of an array of values, as far as it was written.
pub struct JsonList {
    /// The values, with commas between them.
    text: String,
    empty: bool,
    items: Ghost<Seq<Seq<char>>>,
}

impl View for JsonList {
    type V = Seq<Seq<char>>;

    closed spec fn view(&self) -> Seq<Seq<char>> {
        self.items@
    }
}

impl JsonList {
    #[verifier::type_invariant]
    spec fn is_written(&self) -> bool {
        &&& self.text@ == joined(self.items@)
        &&& self.empty == (self.items@.len() == 0)
    }

    /// An array without a value.
    pub fn new() -> (list: JsonList)
        ensures
            list@ == Seq::<Seq<char>>::empty(),
    {
        JsonList { text: String::new(), empty: true, items: Ghost(Seq::empty()) }
    }

    /// Adds a value, by its own text, at the end.
    pub fn push(&mut self, item: &str)
        ensures
            final(self)@ == old(self)@.push(item@),
    {
        proof {
            use_type_invariant(&*self);
            assert(self.items@.push(item@).drop_last() =~= self.items@);
        }
        let mut text = self.text.clone();
        if !self.empty {
            text.append(",");
        }
        text.append(item);
        proof {
            assert(text@ =~= joined(self.items@.push(item@)));
        }
        let items = Ghost(self.items@.push(item@));
        *self = JsonList { text, empty: false, items };
    }

    /// The text of the array.
    pub fn json(&self) -> (json: String)
        ensures
            json@ == json_array(self@),
    {
        proof {
            use_type_invariant(self);
        }
        let mut json = "[".to_string();
        json.append(self.text.as_str());
        json.append("]");
        json
    }
}

/// The JSON text of a part of a buffer.
pub fn text_json(text: &str) -> (json: String)
    ensures
        json@ == json_string(text@),
{
    match string_to_json(text) {
        Some(json) => json,
        None => "null".to_string(),
    }
}

} // verus!
