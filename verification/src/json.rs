//! The JSON documents that the API sends and receives.
//!
//! `Json` is the executable value (what a response body was decoded to, or
//! what a request body is built from); `JsonValue` is its mathematical model.
//! Lookups follow the indexing rules of a JSON object model: a missing key,
//! or a key looked up on anything but an object, reads as `null`.
use vstd::prelude::*;

verus! {

/// The model of a JSON value. A number is held as its JSON text.
pub enum JsonValue {
    Null,
    Bool(bool),
    Number(Seq<char>),
    Str(Seq<char>),
    Array(Seq<JsonValue>),
    Object(Seq<(Seq<char>, JsonValue)>),
}

/// A JSON value. A number is held as its JSON text, so that no
/// floating-point value is needed to carry it.
#[derive(Debug)]
pub enum Json {
    Null,
    Bool(bool),
    Number(String),
    Str(String),
    Array(Vec<Json>),
    Object(Vec<(String, Json)>),
}

pub open spec fn json_view(j: Json) -> JsonValue
    decreases j,
{
    match j {
        Json::Null => JsonValue::Null,
        Json::Bool(b) => JsonValue::Bool(b),
        Json::Number(t) => JsonValue::Number(t@),
        Json::Str(s) => JsonValue::Str(s@),
        Json::Array(items) => JsonValue::Array(
            Seq::new(
                items@.len(),
                |i: int|
                    if 0 <= i < items@.len() {
                        proof {
                            broadcast use
                                vstd::std_specs::vec::axiom_vec_decreases_to_view,
                                vstd::seq::axiom_seq_index_decreases;
                        }
                        json_view(items@[i])
                    } else {
                        JsonValue::Null
                    },
            ),
        ),
        Json::Object(entries) => JsonValue::Object(
            Seq::new(
                entries@.len(),
                |i: int|
                    if 0 <= i < entries@.len() {
                        proof {
                            broadcast use
                                vstd::std_specs::vec::axiom_vec_decreases_to_view,
                                vstd::seq::axiom_seq_index_decreases;
                        }
                        (entries@[i].0@, json_view(entries@[i].1))
                    } else {
                        (Seq::empty(), JsonValue::Null)
                    },
            ),
        ),
    }
}

impl View for Json {
    type V = JsonValue;

    open spec fn view(&self) -> JsonValue {
        json_view(*self)
    }
}

impl DeepView for Json {
    type V = JsonValue;

    open spec fn deep_view(&self) -> JsonValue {
        json_view(*self)
    }
}

/// The value stored under `key` in the entries of an object: the first entry
/// with that key, if any.
pub open spec fn lookup(entries: Seq<(Seq<char>, JsonValue)>, key: Seq<char>) -> Option<JsonValue>
    decreases entries.len(),
{
    if entries.len() == 0 {
        None
    } else if entries[0].0 == key {
        Some(entries[0].1)
    } else {
        lookup(entries.drop_first(), key)
    }
}

impl JsonValue {
    /// `Some` of the value under `key` when `self` is an object holding it.
    pub open spec fn get(self, key: Seq<char>) -> Option<JsonValue> {
        match self {
            JsonValue::Object(entries) => lookup(entries, key),
            _ => None,
        }
    }

    /// The value under `key`, `null` when there is none.
    pub open spec fn index(self, key: Seq<char>) -> JsonValue {
        match self.get(key) {
            Some(v) => v,
            None => JsonValue::Null,
        }
    }

    pub open spec fn as_str(self) -> Option<Seq<char>> {
        match self {
            JsonValue::Str(s) => Some(s),
            _ => None,
        }
    }

    pub open spec fn as_array(self) -> Option<Seq<JsonValue>> {
        match self {
            JsonValue::Array(items) => Some(items),
            _ => None,
        }
    }

    pub open spec fn as_object(self) -> Option<Seq<(Seq<char>, JsonValue)>> {
        match self {
            JsonValue::Object(entries) => Some(entries),
            _ => None,
        }
    }

    pub open spec fn is_null(self) -> bool {
        self is Null
    }
}

/// A lower-case hexadecimal digit.
pub open spec fn hex_digit(d: int) -> char {
    if d < 10 {
        (48 + d) as char
    } else {
        (87 + d) as char
    }
}

/// How the JSON serializer writes one character inside a string literal:
/// the quote and the backslash behind a backslash, the control characters
/// with a short escape where JSON has one and as `\u00XX` otherwise, every
/// other character as it is.
pub open spec fn escaped_char(c: char) -> Seq<char> {
    if c == '"' {
        seq!['\\', '"']
    } else if c == '\\' {
        seq!['\\', '\\']
    } else if c == '\x08' {
        seq!['\\', 'b']
    } else if c == '\t' {
        seq!['\\', 't']
    } else if c == '\n' {
        seq!['\\', 'n']
    } else if c == '\x0c' {
        seq!['\\', 'f']
    } else if c == '\r' {
        seq!['\\', 'r']
    } else if (c as int) < 32 {
        seq!['\\', 'u', '0', '0', hex_digit((c as int) / 16), hex_digit((c as int) % 16)]
    } else {
        seq![c]
    }
}

/// The escaped characters of a text, in order.
pub open spec fn escaped(text: Seq<char>) -> Seq<char>
    decreases text.len(),
{
    if text.len() == 0 {
        Seq::empty()
    } else {
        escaped(text.drop_last()) + escaped_char(text.last())
    }
}

/// The JSON string literal that the JSON serializer writes for a text: the
/// escaped text between double quotes.
pub open spec fn json_string(text: Seq<char>) -> Seq<char> {
    seq!['"'] + escaped(text) + seq!['"']
}

/// The parts, separated by commas.
pub open spec fn joined(parts: Seq<Seq<char>>) -> Seq<char>
    decreases parts.len(),
{
    if parts.len() == 0 {
        Seq::empty()
    } else if parts.len() == 1 {
        parts[0]
    } else {
        joined(parts.drop_last()) + ","@ + parts.last()
    }
}

/// The compact JSON text of a value: no whitespace, object entries in the
/// order they are held, strings written by the JSON serializer.
pub open spec fn json_text(v: JsonValue) -> Seq<char>
    decreases v,
{
    match v {
        JsonValue::Null => "null"@,
        JsonValue::Bool(b) => if b {
            "true"@
        } else {
            "false"@
        },
        JsonValue::Number(t) => t,
        JsonValue::Str(s) => json_string(s),
        JsonValue::Array(items) => "["@ + joined(item_texts(items)) + "]"@,
        JsonValue::Object(entries) => "{"@ + joined(entry_texts(entries)) + "}"@,
    }
}

/// The JSON text of each item of an array.
pub open spec fn item_texts(items: Seq<JsonValue>) -> Seq<Seq<char>>
    decreases items,
{
    Seq::new(
        items.len(),
        |i: int|
            if 0 <= i < items.len() {
                proof {
                    broadcast use vstd::seq::axiom_seq_index_decreases;
                }
                json_text(items[i])
            } else {
                Seq::empty()
            },
    )
}

/// The JSON text `"key":value` of each entry of an object.
pub open spec fn entry_texts(entries: Seq<(Seq<char>, JsonValue)>) -> Seq<Seq<char>>
    decreases entries,
{
    Seq::new(
        entries.len(),
        |i: int|
            if 0 <= i < entries.len() {
                proof {
                    broadcast use vstd::seq::axiom_seq_index_decreases;
                }
                json_string(entries[i].0) + ":"@ + json_text(entries[i].1)
            } else {
                Seq::empty()
            },
    )
}

/// The decimal digit text of a digit.
pub open spec fn digit_text(d: nat) -> Seq<char> {
    if d == 0 {
        "0"@
    } else if d == 1 {
        "1"@
    } else if d == 2 {
        "2"@
    } else if d == 3 {
        "3"@
    } else if d == 4 {
        "4"@
    } else if d == 5 {
        "5"@
    } else if d == 6 {
        "6"@
    } else if d == 7 {
        "7"@
    } else if d == 8 {
        "8"@
    } else {
        "9"@
    }
}

/// The decimal text of a natural number, without leading zeros.
pub open spec fn decimal(n: nat) -> Seq<char>
    decreases n,
{
    if n < 10 {
        digit_text(n)
    } else {
        decimal(n / 10) + digit_text(n % 10)
    }
}

/// Serde's string serializer, `serde_json::to_string` on a `str`: it writes
/// the text between double quotes, escaping as `escaped_char` says (the
/// escape table and `write_char_escape` of its compact formatter).
/// Serializing a `str` into the in-memory buffer that `to_string` uses does
/// not fail.
#[verifier::external_body]
fn quote(text: &str) -> (r: String)
    ensures
        r@ == json_string(text@),
{
    serde_json::to_string(text).unwrap()
}

fn write_digit(d: u64, out: &mut String)
    requires
        d < 10,
    ensures
        final(out)@ == old(out)@ + digit_text(d as nat),
{
    if d == 0 {
        out.append("0");
    } else if d == 1 {
        out.append("1");
    } else if d == 2 {
        out.append("2");
    } else if d == 3 {
        out.append("3");
    } else if d == 4 {
        out.append("4");
    } else if d == 5 {
        out.append("5");
    } else if d == 6 {
        out.append("6");
    } else if d == 7 {
        out.append("7");
    } else if d == 8 {
        out.append("8");
    } else {
        out.append("9");
    }
}

fn write_decimal(n: u64, out: &mut String)
    ensures
        final(out)@ == old(out)@ + decimal(n as nat),
    decreases n,
{
    if n < 10 {
        write_digit(n, out);
    } else {
        write_decimal(n / 10, out);
        write_digit(n % 10, out);
        assert(decimal(n as nat) == decimal((n / 10) as nat) + digit_text((n % 10) as nat));
    }
}

/// The entries of an object, each key with its value's model.
pub open spec fn entries_view(entries: Seq<(String, Json)>) -> Seq<(Seq<char>, JsonValue)> {
    Seq::new(entries.len(), |i: int| (entries[i].0@, entries[i].1@))
}

pub proof fn lemma_object_view(entries: Vec<(String, Json)>)
    ensures
        Json::Object(entries)@ == JsonValue::Object(entries_view(entries@)),
        entries.deep_view() == entries_view(entries@),
{
    assert(entries.deep_view() =~= entries_view(entries@));
    if let JsonValue::Object(es) = Json::Object(entries)@ {
        assert(es =~= entries_view(entries@));
    }
}

pub proof fn lemma_array_view(items: Vec<Json>)
    ensures
        Json::Array(items)@ == JsonValue::Array(items@.map_values(|j: Json| j@)),
{
    if let JsonValue::Array(vs) = Json::Array(items)@ {
        assert(vs =~= items@.map_values(|j: Json| j@));
    }
}

proof fn lemma_joined_push(parts: Seq<Seq<char>>, i: int)
    requires
        0 < i < parts.len(),
    ensures
        joined(parts.take(i + 1)) == joined(parts.take(i)) + ","@ + parts[i],
{
    assert(parts.take(i + 1).drop_last() =~= parts.take(i));
}

proof fn lemma_lookup_skip(entries: Seq<(Seq<char>, JsonValue)>, key: Seq<char>, i: int)
    requires
        0 <= i < entries.len(),
    ensures
        lookup(entries.skip(i), key) == if entries[i].0 == key {
            Some(entries[i].1)
        } else {
            lookup(entries.skip(i + 1), key)
        },
{
    assert(entries.skip(i).drop_first() =~= entries.skip(i + 1));
}

impl Json {
    /// A number value holding the decimal text of `n`.
    pub fn from_u64(n: u64) -> (r: Json)
        ensures
            r@ == JsonValue::Number(decimal(n as nat)),
    {
        let mut text = String::new();
        write_decimal(n, &mut text);
        Json::Number(text)
    }

    /// A string value holding `text`.
    pub fn from_str(text: &str) -> (r: Json)
        ensures
            r@ == JsonValue::Str(text@),
    {
        Json::Str(text.to_string())
    }

    /// `Some` of the value under `key` when `self` is an object holding it.
    pub fn get(&self, key: &str) -> (r: Option<&Json>)
        ensures
            r is Some <==> self@.get(key@) is Some,
            r matches Some(v) ==> self@.get(key@) == Some(v@),
    {
        broadcast use vstd::string::to_string_from_display_ensures_for_str;

        match self {
            Json::Object(entries) => {
                let key_text = key.to_string();
                let ghost es = entries_view(entries@);
                proof {
                    lemma_object_view(*entries);
                    assert(es.skip(0) =~= es);
                }
                let mut i: usize = 0;
                while i < entries.len()
                    invariant
                        0 <= i <= entries.len(),
                        es == entries_view(entries@),
                        key_text@ == key@,
                        self@.get(key@) == lookup(es, key@),
                        lookup(es.skip(i as int), key@) == lookup(es, key@),
                    decreases entries.len() - i,
                {
                    proof {
                        lemma_lookup_skip(es, key@, i as int);
                    }
                    if entries[i].0 == key_text {
                        return Some(&entries[i].1);
                    }
                    i = i + 1;
                }
                proof {
                    assert(es.skip(i as int).len() == 0);
                }
                None
            },
            _ => None,
        }
    }

    /// The value under `key`, `null` when there is none.
    pub fn index(&self, key: &str) -> (r: &Json)
        ensures
            r@ == self@.index(key@),
    {
        match self.get(key) {
            Some(v) => v,
            None => &Json::Null,
        }
    }

    pub fn as_str(&self) -> (r: Option<&String>)
        ensures
            r is Some <==> self@.as_str() is Some,
            r matches Some(s) ==> self@.as_str() == Some(s@),
    {
        match self {
            Json::Str(s) => Some(s),
            _ => None,
        }
    }

    pub fn as_array(&self) -> (r: Option<&Vec<Json>>)
        ensures
            r is Some <==> self@.as_array() is Some,
            r matches Some(items) ==> self@.as_array() == Some(items@.map_values(|j: Json| j@)),
    {
        match self {
            Json::Array(items) => {
                proof {
                    lemma_array_view(*items);
                }
                Some(items)
            },
            _ => None,
        }
    }

    pub fn as_object(&self) -> (r: Option<&Vec<(String, Json)>>)
        ensures
            r is Some <==> self@.as_object() is Some,
            r matches Some(entries) ==> self@.as_object() == Some(entries.deep_view()),
    {
        match self {
            Json::Object(entries) => {
                proof {
                    lemma_object_view(*entries);
                }
                Some(entries)
            },
            _ => None,
        }
    }

    pub fn is_null(&self) -> (r: bool)
        ensures
            r == self@.is_null(),
    {
        match self {
            Json::Null => true,
            _ => false,
        }
    }

    /// A copy of the value.
    #[verifier::loop_isolation(false)]
    pub fn duplicate(&self) -> (r: Json)
        ensures
            r@ == self@,
        decreases self,
    {
        match self {
            Json::Null => Json::Null,
            Json::Bool(b) => Json::Bool(*b),
            Json::Number(t) => Json::Number(t.clone()),
            Json::Str(s) => Json::Str(s.clone()),
            Json::Array(items) => {
                let mut out: Vec<Json> = Vec::new();
                let mut i: usize = 0;
                while i < items.len()
                    invariant
                        0 <= i <= items.len(),
                        out@.len() == i,
                        forall|j: int| 0 <= j < i ==> (#[trigger] out@[j])@ == items@[j]@,
                    decreases items.len() - i,
                {
                    proof {
                        broadcast use vstd::std_specs::vec::axiom_vec_index_decreases;
                    }
                    let c = items[i].duplicate();
                    out.push(c);
                    i = i + 1;
                }
                proof {
                    lemma_array_view(*items);
                    lemma_array_view(out);
                    assert(out@.map_values(|j: Json| j@) =~= items@.map_values(|j: Json| j@));
                }
                Json::Array(out)
            },
            Json::Object(entries) => {
                let mut out: Vec<(String, Json)> = Vec::new();
                let mut i: usize = 0;
                while i < entries.len()
                    invariant
                        0 <= i <= entries.len(),
                        out@.len() == i,
                        forall|j: int|
                            0 <= j < i ==> (#[trigger] out@[j]).0@ == entries@[j].0@ && out@[j].1@
                                == entries@[j].1@,
                    decreases entries.len() - i,
                {
                    proof {
                        broadcast use vstd::std_specs::vec::axiom_vec_index_decreases;
                        assert(decreases_to!(entries@[i as int] => entries@[i as int].1));
                    }
                    let v = entries[i].1.duplicate();
                    out.push((entries[i].0.clone(), v));
                    i = i + 1;
                }
                proof {
                    lemma_object_view(*entries);
                    lemma_object_view(out);
                    assert(entries_view(out@) =~= entries_view(entries@));
                }
                Json::Object(out)
            },
        }
    }

    /// Appends the compact JSON text of the value to `out`.
    pub fn write_text(&self, out: &mut String)
        ensures
            final(out)@ == old(out)@ + json_text(self@),
        decreases self, 1nat,
    {
        match self {
            Json::Null => out.append("null"),
            Json::Bool(b) => {
                if *b {
                    out.append("true")
                } else {
                    out.append("false")
                }
            },
            Json::Number(t) => out.append(t.as_str()),
            Json::Str(s) => {
                let q = quote(s.as_str());
                out.append(q.as_str());
            },
            Json::Array(items) => {
                proof {
                    lemma_array_view(*items);
                }
                write_items(items, out);
            },
            Json::Object(entries) => {
                proof {
                    lemma_object_view(*entries);
                }
                write_entries(entries, out);
            },
        }
    }

    /// The compact JSON text of the value.
    pub fn to_text(&self) -> (r: String)
        ensures
            r@ == json_text(self@),
    {
        let mut out = String::new();
        self.write_text(&mut out);
        proof {
            assert(out@ =~= json_text(self@));
        }
        out
    }
}


/// Appends the JSON text of an array of `items` to `out`.
#[verifier::loop_isolation(false)]
fn write_items(items: &Vec<Json>, out: &mut String)
    ensures
        final(out)@ == old(out)@ + "["@ + joined(item_texts(items@.map_values(|j: Json| j@)))
            + "]"@,
    decreases items, 0nat,
{
    let ghost start = out@;
    let ghost vs = items@.map_values(|j: Json| j@);
    let ghost parts = item_texts(vs);
    proof {
        assert(parts.take(0) =~= Seq::<Seq<char>>::empty());
    }
    out.append("[");
    let mut i: usize = 0;
    while i < items.len()
        invariant
            0 <= i <= items.len(),
            out@ == start + "["@ + joined(parts.take(i as int)),
        decreases items.len() - i,
    {
        proof {
            broadcast use vstd::std_specs::vec::axiom_vec_index_decreases;
        }
        if i > 0 {
            out.append(",");
            proof {
                lemma_joined_push(parts, i as int);
            }
        } else {
            proof {
                assert(parts.take(1) =~= seq![parts[0]]);
            }
        }
        items[i].write_text(out);
        i = i + 1;
    }
    proof {
        assert(parts.take(i as int) =~= parts);
    }
    out.append("]");
}

/// Appends the JSON text of an object of `entries` to `out`.
#[verifier::loop_isolation(false)]
fn write_entries(entries: &Vec<(String, Json)>, out: &mut String)
    ensures
        final(out)@ == old(out)@ + "{"@ + joined(entry_texts(entries_view(entries@))) + "}"@,
    decreases entries, 0nat,
{
    let ghost start = out@;
    let ghost es = entries_view(entries@);
    let ghost parts = entry_texts(es);
    proof {
        assert(parts.take(0) =~= Seq::<Seq<char>>::empty());
    }
    out.append("{");
    let mut i: usize = 0;
    while i < entries.len()
        invariant
            0 <= i <= entries.len(),
            out@ == start + "{"@ + joined(parts.take(i as int)),
        decreases entries.len() - i,
    {
        proof {
            broadcast use vstd::std_specs::vec::axiom_vec_index_decreases;
            assert(decreases_to!(entries@[i as int] => entries@[i as int].1));
        }
        if i > 0 {
            out.append(",");
            proof {
                lemma_joined_push(parts, i as int);
            }
        } else {
            proof {
                assert(parts.take(1) =~= seq![parts[0]]);
            }
        }
        let q = quote(entries[i].0.as_str());
        out.append(q.as_str());
        out.append(":");
        entries[i].1.write_text(out);
        i = i + 1;
    }
    proof {
        assert(parts.take(i as int) =~= parts);
    }
    out.append("}");
}

} // verus!
