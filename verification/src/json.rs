//! JSON values as the library reads and builds them.
//!
//! Text becomes a [`Json`] through `serde_json`; everything after that, reading
//! fields and building bodies, is ordinary verified code.
use vstd::prelude::*;

use crate::text;
use crate::text::same;
use crate::views;

verus! {

/// A JSON number.
#[derive(Debug, Clone, PartialEq, Eq)]
pub enum Number {
    /// An integer from zero up.
    PosInt(u64),
    /// An integer below zero.
    NegInt(i64),
    /// A number with a fraction or an exponent, in decimal.
    Float(String),
}

/// What a [`Number`] holds.
#[verifier::ext_equal]
pub enum NumberView {
    PosInt(u64),
    NegInt(i64),
    Float(Seq<char>),
}

impl View for Number {
    type V = NumberView;

    open spec fn view(&self) -> NumberView {
        match self {
            Number::PosInt(n) => NumberView::PosInt(*n),
            Number::NegInt(n) => NumberView::NegInt(*n),
            Number::Float(text) => NumberView::Float(text@),
        }
    }
}

/// A JSON value. An object keeps its fields in order.
#[derive(Debug, PartialEq, Eq)]
pub enum Json {
    Null,
    Bool(bool),
    Number(Number),
    Text(String),
    Array(Vec<Json>),
    Object(Vec<(String, Json)>),
}

/// What a [`Json`] holds.
#[verifier::ext_equal]
pub enum JsonView {
    Null,
    Bool(bool),
    Number(NumberView),
    Text(Seq<char>),
    Array(Seq<JsonView>),
    Object(Seq<(Seq<char>, JsonView)>),
}

impl Json {
    /// The value as mathematics sees it.
    pub open spec fn held(&self) -> JsonView
        decreases self,
    {
        match self {
            Json::Null => JsonView::Null,
            Json::Bool(b) => JsonView::Bool(*b),
            Json::Number(n) => JsonView::Number(n@),
            Json::Text(text) => JsonView::Text(text@),
            Json::Array(items) => JsonView::Array(
                Seq::new(
                    items@.len(),
                    |i: int|
                        if 0 <= i < items@.len() {
                            items@[i].held()
                        } else {
                            arbitrary()
                        },
                ),
            ),
            Json::Object(fields) => JsonView::Object(
                Seq::new(
                    fields@.len(),
                    |i: int|
                        if 0 <= i < fields@.len() {
                            (fields@[i].0@, fields@[i].1.held())
                        } else {
                            arbitrary()
                        },
                ),
            ),
        }
    }
}

impl View for Json {
    type V = JsonView;

    open spec fn view(&self) -> JsonView {
        self.held()
    }
}

/// The names and values an object's fields hold.
pub open spec fn fields_view(fields: Seq<(String, Json)>) -> Seq<(Seq<char>, JsonView)> {
    Seq::new(fields.len(), |i: int| (fields[i].0@, fields[i].1@))
}

/// The value of the first field under a name.
pub open spec fn lookup(fields: Seq<(Seq<char>, JsonView)>, key: Seq<char>) -> Option<JsonView>
    decreases fields.len(),
{
    if fields.len() == 0 {
        None
    } else if fields[0].0 == key {
        Some(fields[0].1)
    } else {
        lookup(fields.drop_first(), key)
    }
}

impl JsonView {
    /// The value under a name, where this is an object that has it.
    pub open spec fn field(self, key: Seq<char>) -> Option<JsonView> {
        match self {
            JsonView::Object(fields) => lookup(fields, key),
            _ => None,
        }
    }

    /// The text, where this is one.
    pub open spec fn text(self) -> Option<Seq<char>> {
        match self {
            JsonView::Text(text) => Some(text),
            _ => None,
        }
    }

    /// The integer from zero up, where this is one.
    pub open spec fn whole(self) -> Option<u64> {
        match self {
            JsonView::Number(NumberView::PosInt(n)) => Some(n),
            _ => None,
        }
    }

    /// The elements, where this is an array.
    pub open spec fn items(self) -> Option<Seq<JsonView>> {
        match self {
            JsonView::Array(items) => Some(items),
            _ => None,
        }
    }

    /// The value as it is called where another was expected, in the words `serde_json` uses:
    /// a scalar is shown, an array or an object is only named.
    pub open spec fn found(self) -> Seq<char> {
        match self {
            JsonView::Null => "null"@,
            JsonView::Bool(true) => "boolean `true`"@,
            JsonView::Bool(false) => "boolean `false`"@,
            JsonView::Number(NumberView::PosInt(n)) => "integer `"@ + text::decimal(n as nat)
                + "`"@,
            JsonView::Number(NumberView::NegInt(n)) => "integer `"@ + text::signed_decimal(
                n as int,
            ) + "`"@,
            JsonView::Number(NumberView::Float(shown)) => "floating point `"@ + shown + "`"@,
            JsonView::Text(held) => "string "@ + text::quoted(held),
            JsonView::Array(_) => "sequence"@,
            JsonView::Object(_) => "map"@,
        }
    }

    /// The text under a name.
    pub open spec fn text_at(self, key: Seq<char>) -> Option<Seq<char>> {
        match self.field(key) {
            Some(value) => value.text(),
            None => None,
        }
    }

    /// The elements of the array under a name.
    pub open spec fn items_at(self, key: Seq<char>) -> Option<Seq<JsonView>> {
        match self.field(key) {
            Some(value) => value.items(),
            None => None,
        }
    }
}

impl Json {
    /// The value under a name, where this is an object that has it.
    pub fn get(&self, key: &str) -> (value: Option<&Json>)
        ensures
            views::option_view(value) == self@.field(key@),
    {
        match self {
            Json::Object(fields) => {
                let ghost all = fields_view(fields@);
                assert(self@->Object_0 =~= all);
                let mut i: usize = 0;
                assert(all.skip(0) =~= all);
                while i < fields.len()
                    invariant
                        i <= fields.len(),
                        all == fields_view(fields@),
                        self@ == JsonView::Object(all),
                        lookup(all.skip(i as int), key@) == lookup(all, key@),
                    decreases fields.len() - i,
                {
                    if same(fields[i].0.as_str(), key) {
                        return Some(&fields[i].1);
                    }
                    assert(all.skip(i as int).drop_first() =~= all.skip(i + 1));
                    i += 1;
                }
                None
            },
            _ => None,
        }
    }

    /// The text, where this is one.
    pub fn as_str(&self) -> (text: Option<&str>)
        ensures
            views::option_view(text) == self@.text(),
    {
        match self {
            Json::Text(text) => Some(text.as_str()),
            _ => None,
        }
    }

    /// The integer from zero up, where this is one.
    pub fn as_u64(&self) -> (n: Option<u64>)
        ensures
            n == self@.whole(),
    {
        match self {
            Json::Number(Number::PosInt(n)) => Some(*n),
            _ => None,
        }
    }

    /// The elements, where this is an array.
    pub fn as_array(&self) -> (items: Option<&Vec<Json>>)
        ensures
            match items {
                Some(items) => self@ == JsonView::Array(views::list_view(items@)),
                None => self@.items() is None,
            },
    {
        match self {
            Json::Array(items) => {
                assert(self@->Array_0 =~= views::list_view(items@));
                Some(items)
            },
            _ => None,
        }
    }

    /// Whether this is an object.
    pub fn is_object(&self) -> (r: bool)
        ensures
            r == (self@ is Object),
    {
        match self {
            Json::Object(_) => true,
            _ => false,
        }
    }

    /// Whether this is `null`.
    pub fn is_null(&self) -> (r: bool)
        ensures
            r == (self@ is Null),
    {
        match self {
            Json::Null => true,
            _ => false,
        }
    }

    /// The value as it is called where another was expected.
    pub fn found(&self) -> (words: String)
        ensures
            words@ == self@.found(),
    {
        match self {
            Json::Null => "null".to_owned(),
            Json::Bool(b) => {
                if *b {
                    "boolean `true`".to_owned()
                } else {
                    "boolean `false`".to_owned()
                }
            },
            Json::Number(Number::PosInt(n)) => {
                let mut words = "integer `".to_owned();
                text::append_decimal(&mut words, *n);
                words.concat("`")
            },
            Json::Number(Number::NegInt(n)) => {
                let mut words = "integer `".to_owned();
                text::append_signed_decimal(&mut words, *n);
                words.concat("`")
            },
            Json::Number(Number::Float(shown)) => "floating point `".to_owned().concat(
                shown.as_str(),
            ).concat("`"),
            Json::Text(held) => "string ".to_owned().concat(text::quote(held.as_str()).as_str()),
            Json::Array(_) => "sequence".to_owned(),
            Json::Object(_) => "map".to_owned(),
        }
    }

    /// The text under a name.
    pub fn str_at(&self, key: &str) -> (text: Option<&str>)
        ensures
            views::option_view(text) == self@.text_at(key@),
    {
        match self.get(key) {
            Some(value) => value.as_str(),
            None => None,
        }
    }

    /// The elements of the array under a name.
    pub fn array_at(&self, key: &str) -> (items: Option<&Vec<Json>>)
        ensures
            match items {
                Some(items) => self@.items_at(key@) == Some(views::list_view(items@)),
                None => self@.items_at(key@) is None,
            },
    {
        match self.get(key) {
            Some(value) => value.as_array(),
            None => None,
        }
    }

    /// A text.
    pub fn text(text: &str) -> (value: Json)
        ensures
            value@ == JsonView::Text(text@),
    {
        Json::Text(text.to_owned())
    }

    /// An integer from zero up.
    pub fn whole(n: u64) -> (value: Json)
        ensures
            value@ == JsonView::Number(NumberView::PosInt(n)),
    {
        Json::Number(Number::PosInt(n))
    }

    /// A list of values.
    pub fn array(items: Vec<Json>) -> (value: Json)
        ensures
            value@ == JsonView::Array(views::list_view(items@)),
    {
        let value = Json::Array(items);
        assert(value@->Array_0 =~= views::list_view(items@));
        value
    }

    /// An object with the given fields, in order.
    pub fn object(fields: Vec<(String, Json)>) -> (value: Json)
        ensures
            value@ == JsonView::Object(fields_view(fields@)),
    {
        let value = Json::Object(fields);
        assert(value@->Object_0 =~= fields_view(fields@));
        value
    }
}

/// The fields of an object under construction, none yet.
pub(crate) fn no_fields() -> (fields: Vec<(String, Json)>)
    ensures
        fields_view(fields@) == Seq::<(Seq<char>, JsonView)>::empty(),
{
    let fields: Vec<(String, Json)> = Vec::new();
    assert(fields_view(fields@) =~= Seq::<(Seq<char>, JsonView)>::empty());
    fields
}

/// Appends a field to an object under construction.
pub(crate) fn put(fields: &mut Vec<(String, Json)>, key: &str, value: Json)
    ensures
        fields_view(final(fields)@) == fields_view(old(fields)@).push((key@, value@)),
{
    let ghost before = fields@;
    fields.push((key.to_owned(), value));
    assert(fields_view(fields@) =~= fields_view(before).push((key@, value@)));
}

impl Clone for Json {
    fn clone(&self) -> (copy: Json)
        ensures
            copy@ == self@,
        decreases self,
    {
        match self {
            Json::Null => Json::Null,
            Json::Bool(b) => Json::Bool(*b),
            Json::Number(Number::PosInt(n)) => Json::Number(Number::PosInt(*n)),
            Json::Number(Number::NegInt(n)) => Json::Number(Number::NegInt(*n)),
            Json::Number(Number::Float(text)) => Json::Number(Number::Float(text.clone())),
            Json::Text(text) => Json::Text(text.clone()),
            Json::Array(items) => {
                let mut out: Vec<Json> = Vec::new();
                let mut i: usize = 0;
                while i < items.len()
                    invariant
                        i <= items.len(),
                        out.len() == i,
                        forall|j: int| 0 <= j < i ==> (#[trigger] out@[j])@ == items@[j]@,
                        decreases_to!(self => items@),
                    decreases items.len() - i,
                {
                    assert(decreases_to!(items@ => items@[i as int]));
                    out.push(items[i].clone());
                    i += 1;
                }
                let copy = Json::Array(out);
                assert(copy@->Array_0 =~= self@->Array_0);
                copy
            },
            Json::Object(fields) => {
                let mut out: Vec<(String, Json)> = Vec::new();
                let mut i: usize = 0;
                while i < fields.len()
                    invariant
                        i <= fields.len(),
                        out.len() == i,
                        forall|j: int|
                            0 <= j < i ==> (#[trigger] out@[j]).0@ == fields@[j].0@ && out@[j].1@
                                == fields@[j].1@,
                        decreases_to!(self => fields@),
                    decreases fields.len() - i,
                {
                    assert(decreases_to!(fields@ => fields@[i as int]));
                    assert(decreases_to!(fields@[i as int] => fields@[i as int].1));
                    let name = fields[i].0.clone();
                    let value = fields[i].1.clone();
                    out.push((name, value));
                    i += 1;
                }
                let copy = Json::Object(out);
                assert(copy@->Object_0 =~= self@->Object_0);
                copy
            },
        }
    }
}

/// Why a text is not JSON.
#[derive(Debug, Clone, PartialEq, Eq)]
pub struct JsonError {
    /// What the parser made of it, with the place.
    pub message: String,
    /// The line, from one.
    pub line: usize,
    /// The column, from one.
    pub column: usize,
}

/// What a [`JsonError`] holds.
#[verifier::ext_equal]
pub struct JsonErrorView {
    pub message: Seq<char>,
    pub line: usize,
    pub column: usize,
}

impl View for JsonError {
    type V = JsonErrorView;

    open spec fn view(&self) -> JsonErrorView {
        JsonErrorView { message: self.message@, line: self.line, column: self.column }
    }
}

/// `serde_json::Value`, opaque here: [`open_value`] hands out what it holds.
#[verifier::external_type_specification]
#[verifier::external_body]
pub struct ExValue(serde_json::Value);

/// What `serde_json::from_str` makes of a text read as any JSON value: the value,
/// or why the text is not JSON.
pub uninterp spec fn parsed(text: Seq<char>) -> Result<JsonView, JsonErrorView>;

/// What a `serde_json::Value` holds.
pub uninterp spec fn value_holds(value: serde_json::Value) -> JsonView;

/// One level of a `serde_json::Value`.
enum Layer {
    Null,
    Bool(bool),
    Number(Number),
    Text(String),
    Array(Vec<serde_json::Value>),
    Object(Vec<(String, serde_json::Value)>),
}

impl Layer {
    /// The value whose outermost level this is.
    spec fn whole_value(self) -> JsonView {
        match self {
            Layer::Null => JsonView::Null,
            Layer::Bool(b) => JsonView::Bool(b),
            Layer::Number(n) => JsonView::Number(n@),
            Layer::Text(text) => JsonView::Text(text@),
            Layer::Array(items) => JsonView::Array(
                Seq::new(items@.len(), |i: int| value_holds(items@[i])),
            ),
            Layer::Object(fields) => JsonView::Object(
                Seq::new(fields@.len(), |i: int| (fields@[i].0@, value_holds(fields@[i].1))),
            ),
        }
    }
}

/// Calls `serde_json::from_str` for a `serde_json::Value`. What comes back, value or
/// error, is a function of the text alone and is named by [`parsed`]; the error is
/// carried as its `Display` text, `line` and `column`.
#[verifier::external_body]
fn parse_value(text: &str) -> (outcome: Result<serde_json::Value, JsonError>)
    ensures
        match outcome {
            Ok(value) => parsed(text@) == Ok::<JsonView, JsonErrorView>(value_holds(value)),
            Err(error) => parsed(text@) == Err::<JsonView, JsonErrorView>(error@),
        },
{
    match serde_json::from_str::<serde_json::Value>(text) {
        Ok(value) => Ok(value),
        Err(error) => Err(
            JsonError { message: error.to_string(), line: error.line(), column: error.column() },
        ),
    }
}

/// Takes one level off a `serde_json::Value`: its variant and what the variant
/// carries. A `serde_json::Number` is read through `as_u64` and `as_i64`, and one that
/// is neither through its `Display` text; a `serde_json::Map` is handed out as the
/// list of its fields in its own order.
#[verifier::external_body]
fn open_value(value: serde_json::Value) -> (layer: Layer)
    ensures
        layer.whole_value() == value_holds(value),
{
    match value {
        serde_json::Value::Null => Layer::Null,
        serde_json::Value::Bool(b) => Layer::Bool(b),
        serde_json::Value::Number(n) => Layer::Number(match (n.as_u64(), n.as_i64()) {
            (Some(whole), _) => Number::PosInt(whole),
            (None, Some(below)) => Number::NegInt(below),
            (None, None) => Number::Float(n.to_string()),
        }),
        serde_json::Value::String(text) => Layer::Text(text),
        serde_json::Value::Array(items) => Layer::Array(items),
        serde_json::Value::Object(fields) => Layer::Object(fields.into_iter().collect()),
    }
}

/// The whole of a `serde_json::Value`.
fn from_value(value: serde_json::Value) -> (json: Json)
    ensures
        json@ == value_holds(value),
    decreases value_holds(value),
{
    match open_value(value) {
        Layer::Null => Json::Null,
        Layer::Bool(b) => Json::Bool(b),
        Layer::Number(n) => Json::Number(n),
        Layer::Text(text) => Json::Text(text),
        Layer::Array(items) => {
            let ghost all = items@;
            let ghost held = value_holds(value)->Array_0;
            let mut out: Vec<Json> = Vec::new();
            for item in walk: items
                invariant
                    walk.seq() == all,
                    held == Seq::new(all.len(), |i: int| value_holds(all[i])),
                    decreases_to!(value_holds(value) => held),
                    out.len() == walk.index(),
                    forall|j: int| 0 <= j < out.len() ==> (#[trigger] out@[j])@ == held[j],
            {
                assert(decreases_to!(held => held[walk.index() as int]));
                out.push(from_value(item));
            }
            assert(views::list_view(out@) =~= held);
            Json::array(out)
        },
        Layer::Object(fields) => {
            let ghost all = fields@;
            let ghost held = value_holds(value)->Object_0;
            let mut out: Vec<(String, Json)> = Vec::new();
            for field in walk: fields
                invariant
                    walk.seq() == all,
                    held == Seq::new(all.len(), |i: int| (all[i].0@, value_holds(all[i].1))),
                    decreases_to!(value_holds(value) => held),
                    out.len() == walk.index(),
                    forall|j: int|
                        0 <= j < out.len() ==> (#[trigger] out@[j]).0@ == held[j].0 && out@[j].1@
                            == held[j].1,
            {
                assert(decreases_to!(held => held[walk.index() as int]));
                assert(decreases_to!(held[walk.index() as int] => held[walk.index() as int].1));
                let (name, inner) = field;
                out.push((name, from_value(inner)));
            }
            assert(fields_view(out@) =~= held);
            Json::object(out)
        },
    }
}

impl Json {
    /// Reads a text as JSON.
    pub fn parse(text: &str) -> (outcome: Result<Json, JsonError>)
        ensures
            views::result_view(outcome) == parsed(text@),
    {
        match parse_value(text) {
            Ok(value) => Ok(from_value(value)),
            Err(error) => Err(error),
        }
    }
}

} // verus!
