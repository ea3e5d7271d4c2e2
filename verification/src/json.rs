//! A JSON value tree with a mathematical view, and the two trusted bridges to
//! the JSON reader and writer.

use serde_json::Value;
use vstd::prelude::*;

verus! {

/// A JSON number. One that is an integer within `i64` is held as such; any
/// other is held as the literal it is written with, so that no precision is
/// lost on the way through. A `Real` that is no JSON number cannot be written.
#[derive(Debug, PartialEq, Eq)]
pub enum Number {
    Int(i64),
    Real(String),
}

/// What a [`Number`] is, over sequences: the value that contracts speak of.
pub enum NumberView {
    Int(i64),
    Real(Seq<char>),
}

impl View for Number {
    type V = NumberView;

    open spec fn view(&self) -> NumberView {
        match self {
            Number::Int(i) => NumberView::Int(*i),
            Number::Real(t) => NumberView::Real(t@),
        }
    }
}

impl Clone for Number {
    fn clone(&self) -> (res: Number)
        ensures
            res@ == self@,
    {
        match self {
            Number::Int(i) => Number::Int(*i),
            Number::Real(t) => Number::Real(t.clone()),
        }
    }
}

/// A JSON value. An object keeps its members as a list of name and value, in
/// their order; where two share a name, a lookup finds the first.
#[derive(Debug, PartialEq, Eq)]
pub enum Json {
    Null,
    Bool(bool),
    Number(Number),
    Str(String),
    Array(Vec<Json>),
    Object(Vec<(String, Json)>),
}

/// What a [`Json`] is, over sequences: the value that contracts speak of.
pub enum JsonView {
    Null,
    Bool(bool),
    Number(NumberView),
    Str(Seq<char>),
    Array(Seq<JsonView>),
    Object(Seq<(Seq<char>, JsonView)>),
}

/// What a value is: the same tree over sequences.
pub open spec fn json_view(json: Json) -> JsonView
    decreases json,
{
    match json {
        Json::Null => JsonView::Null,
        Json::Bool(b) => JsonView::Bool(b),
        Json::Number(n) => JsonView::Number(n@),
        Json::Str(s) => JsonView::Str(s@),
        Json::Array(items) => JsonView::Array(
            Seq::new(
                items@.len(),
                |i: int|
                    if 0 <= i < items@.len() {
                        json_view(items@[i])
                    } else {
                        JsonView::Null
                    },
            ),
        ),
        Json::Object(members) => JsonView::Object(
            Seq::new(
                members@.len(),
                |i: int|
                    if 0 <= i < members@.len() {
                        (members@[i].0@, json_view(members@[i].1))
                    } else {
                        (Seq::empty(), JsonView::Null)
                    },
            ),
        ),
    }
}

impl View for Json {
    type V = JsonView;

    open spec fn view(&self) -> JsonView {
        json_view(*self)
    }
}

impl Clone for Json {
    #[verifier::loop_isolation(false)]
    fn clone(&self) -> (res: Json)
        ensures
            res@ == self@,
        decreases self,
    {
        match self {
            Json::Null => Json::Null,
            Json::Bool(b) => Json::Bool(*b),
            Json::Number(n) => Json::Number(n.clone()),
            Json::Str(s) => Json::Str(s.clone()),
            Json::Array(items) => {
                let mut out: Vec<Json> = Vec::new();
                let mut i: usize = 0;
                while i < items.len()
                    invariant
                        i <= items.len(),
                        out.len() == i,
                        forall|k: int| 0 <= k < i ==> out@[k]@ == items@[k]@,
                    decreases items.len() - i,
                {
                    out.push(items[i].clone());
                    i += 1;
                }
                let res = Json::Array(out);
                assert(res@->Array_0 =~= self@->Array_0);
                res
            },
            Json::Object(members) => {
                let mut out: Vec<(String, Json)> = Vec::new();
                let mut i: usize = 0;
                while i < members.len()
                    invariant
                        i <= members.len(),
                        out.len() == i,
                        forall|k: int|
                            0 <= k < i ==> out@[k].0@ == members@[k].0@ && out@[k].1@
                                == members@[k].1@,
                    decreases members.len() - i,
                {
                    out.push((members[i].0.clone(), members[i].1.clone()));
                    i += 1;
                }
                let res = Json::Object(out);
                assert(res@->Object_0 =~= self@->Object_0);
                res
            },
        }
    }
}

/// `==` on string slices, which std documents as equality of their contents:
/// it holds exactly when both hold the same characters.
pub assume_specification[ <str as PartialEq>::eq ](a: &str, b: &str) -> (same: bool)
    ensures
        same == (a@ == b@),
;

/// Whether two texts hold the same characters.
pub fn same_text(a: &str, b: &str) -> (same: bool)
    ensures
        same == (a@ == b@),
{
    a.eq(b)
}

/// The value of the first member named `key`, if there is one.
#[verifier::opaque]
pub open spec fn member(members: Seq<(Seq<char>, JsonView)>, key: Seq<char>) -> Option<JsonView>
    decreases members.len(),
{
    if members.len() == 0 {
        None
    } else if members[0].0 == key {
        Some(members[0].1)
    } else {
        member(members.skip(1), key)
    }
}

impl JsonView {
    /// The member `key` of an object; nothing for any other value.
    pub open spec fn get(self, key: Seq<char>) -> Option<JsonView> {
        match self {
            JsonView::Object(members) => member(members, key),
            _ => None,
        }
    }

    /// The text of a string; nothing for any other value.
    pub open spec fn as_text(self) -> Option<Seq<char>> {
        match self {
            JsonView::Str(s) => Some(s),
            _ => None,
        }
    }

    /// The number that a value is; nothing for any other value.
    pub open spec fn as_number(self) -> Option<NumberView> {
        match self {
            JsonView::Number(n) => Some(n),
            _ => None,
        }
    }

    /// The integer that a value is; nothing for a value that is none.
    pub open spec fn as_int(self) -> Option<i64> {
        match self {
            JsonView::Number(NumberView::Int(i)) => Some(i),
            _ => None,
        }
    }

    /// The truth value that a value is; nothing for any other value.
    pub open spec fn as_flag(self) -> Option<bool> {
        match self {
            JsonView::Bool(b) => Some(b),
            _ => None,
        }
    }

    /// The items of a list; nothing for any other value.
    pub open spec fn as_items(self) -> Option<Seq<JsonView>> {
        match self {
            JsonView::Array(items) => Some(items),
            _ => None,
        }
    }

    /// The member `key` where it is there and not `null`.
    pub open spec fn optional(self, key: Seq<char>) -> Option<JsonView> {
        match self.get(key) {
            Some(value) => if value is Null {
                None
            } else {
                Some(value)
            },
            None => None,
        }
    }

    /// The member `key` where it is a string.
    pub open spec fn text_at(self, key: Seq<char>) -> Option<Seq<char>> {
        match self.get(key) {
            Some(value) => value.as_text(),
            None => None,
        }
    }

    /// The member `key` where it is a number.
    pub open spec fn number_at(self, key: Seq<char>) -> Option<NumberView> {
        match self.get(key) {
            Some(value) => value.as_number(),
            None => None,
        }
    }

    /// The member `key` where it is an integer.
    pub open spec fn int_at(self, key: Seq<char>) -> Option<i64> {
        match self.get(key) {
            Some(value) => value.as_int(),
            None => None,
        }
    }

    /// The member `key` where it is `true` or `false`.
    pub open spec fn flag_at(self, key: Seq<char>) -> Option<bool> {
        match self.get(key) {
            Some(value) => value.as_flag(),
            None => None,
        }
    }
}

/// A member list of one entry where there is a value, and of none where
/// there is not.
pub open spec fn entry(key: Seq<char>, value: Option<JsonView>) -> Seq<(Seq<char>, JsonView)> {
    match value {
        Some(v) => seq![(key, v)],
        None => Seq::empty(),
    }
}

/// What an optional member holds: nothing where it is absent, its reading
/// where `read` accepts it; no outcome where `read` refuses it.
pub open spec fn optional_as<T>(
    value: Option<JsonView>,
    read: spec_fn(JsonView) -> Option<T>,
) -> Option<Option<T>> {
    match value {
        None => Some(None),
        Some(v) => match read(v) {
            Some(x) => Some(Some(x)),
            None => None,
        },
    }
}

/// A member of two lists joined is the member of the first, or else of the
/// second.
pub broadcast proof fn lemma_member_of_joined(
    a: Seq<(Seq<char>, JsonView)>,
    b: Seq<(Seq<char>, JsonView)>,
    key: Seq<char>,
)
    ensures
        #[trigger] member(a + b, key) == match member(a, key) {
            Some(value) => Some(value),
            None => member(b, key),
        },
    decreases a.len(),
{
    reveal_with_fuel(member, 2);
    if a.len() == 0 {
        assert(a + b =~= b);
    } else {
        assert((a + b)[0] == a[0]);
        assert((a + b).skip(1) =~= a.skip(1) + b);
        lemma_member_of_joined(a.skip(1), b, key);
    }
}

/// The one entry of a list is found under its own name and under no other.
pub broadcast proof fn lemma_member_of_entry(key: Seq<char>, value: Option<JsonView>, asked: Seq<char>)
    ensures
        #[trigger] member(entry(key, value), asked) == if asked == key {
            value
        } else {
            None
        },
{
    reveal_with_fuel(member, 2);
    match value {
        Some(v) => {
            assert(entry(key, value).skip(1).len() == 0);
            assert(member(entry(key, value).skip(1), asked) is None);
        },
        None => {},
    }
}

/// The view of a value that may be absent.
pub open spec fn opt_view<T: View>(value: Option<T>) -> Option<T::V> {
    match value {
        Some(x) => Some(x@),
        None => None,
    }
}

/// Adds the member `key` at the end of a member list where there is a value
/// for it.
pub fn put_member(members: &mut Vec<(String, Json)>, key: &str, value: Option<Json>)
    ensures
        final(members).deep_view() == old(members).deep_view() + entry(key@, opt_view(value)),
{
    match value {
        Some(v) => {
            add_member(members, key, v);
            assert(members.deep_view() =~= old(members).deep_view() + entry(key@, opt_view(value)));
        },
        None => {
            assert(members.deep_view() =~= old(members).deep_view() + entry(key@, opt_view(value)));
        },
    }
}

/// Adds the member `key` at the end of a member list.
pub fn add_member(members: &mut Vec<(String, Json)>, key: &str, value: Json)
    ensures
        final(members).deep_view() == old(members).deep_view().push((key@, value@)),
{
    members.push((key.to_owned(), value));
    assert(members.deep_view() =~= old(members).deep_view().push((key@, value@)));
}

impl Json {
    /// Reads one JSON value from a text.
    pub fn parse(text: &str) -> (tree: Option<Json>)
        ensures
            opt_view(tree) == json_parsed(text@),
    {
        parse_json(text)
    }

    /// Writes the value on a single line.
    pub fn write(&self) -> (text: Option<String>)
        ensures
            opt_view(text) == json_written(self@),
    {
        write_json(self)
    }

    /// The member `key` of an object: the first one of that name.
    #[verifier::loop_isolation(false)]
    pub fn get(&self, key: &str) -> (found: Option<&Json>)
        ensures
            match found {
                Some(value) => self@.get(key@) == Some(value@),
                None => self@.get(key@) is None,
            },
    {
        match self {
            Json::Object(members) => {
                let ghost all = self@->Object_0;
                proof {
                    reveal_with_fuel(member, 2);
                }
                assert(all.skip(0) =~= all);
                let mut i: usize = 0;
                while i < members.len()
                    invariant
                        i <= members.len(),
                        member(all, key@) == member(all.skip(i as int), key@),
                    decreases members.len() - i,
                {
                    assert(all.skip(i as int)[0] == all[i as int]);
                    if same_text(members[i].0.as_str(), key) {
                        return Some(&members[i].1);
                    }
                    assert(all.skip(i as int).skip(1) =~= all.skip(i + 1));
                    i += 1;
                }
                None
            },
            _ => None,
        }
    }

    /// The text of a string.
    pub fn as_str(&self) -> (text: Option<&str>)
        ensures
            match text {
                Some(t) => self@.as_text() == Some(t@),
                None => self@.as_text() is None,
            },
    {
        match self {
            Json::Str(s) => Some(s.as_str()),
            _ => None,
        }
    }

    /// The number that a value is; nothing for any other value.
    pub fn as_number(&self) -> (number: Option<&Number>)
        ensures
            match number {
                Some(n) => self@.as_number() == Some(n@),
                None => self@.as_number() is None,
            },
    {
        match self {
            Json::Number(n) => Some(n),
            _ => None,
        }
    }

    /// The integer that the value is.
    pub fn as_i64(&self) -> (whole: Option<i64>)
        ensures
            whole == self@.as_int(),
    {
        match self {
            Json::Number(Number::Int(i)) => Some(*i),
            _ => None,
        }
    }

    /// The truth value that the value is.
    pub fn as_bool(&self) -> (flag: Option<bool>)
        ensures
            flag == self@.as_flag(),
    {
        match self {
            Json::Bool(b) => Some(*b),
            _ => None,
        }
    }

    /// The items of a list.
    pub fn as_array(&self) -> (items: Option<&Vec<Json>>)
        ensures
            match items {
                Some(v) => self@.as_items() == Some(v.deep_view()),
                None => self@.as_items() is None,
            },
    {
        match self {
            Json::Array(items) => {
                assert(self@->Array_0 =~= items.deep_view());
                Some(items)
            },
            _ => None,
        }
    }

    /// The object with these members.
    pub fn object(members: Vec<(String, Json)>) -> (json: Json)
        ensures
            json@ == JsonView::Object(members.deep_view()),
    {
        let json = Json::Object(members);
        assert(json@->Object_0 =~= members.deep_view());
        json
    }

    /// The string holding `text`.
    pub fn text(text: &str) -> (json: Json)
        ensures
            json@ == JsonView::Str(text@),
    {
        Json::Str(text.to_owned())
    }

    /// The integer `value`.
    pub fn whole(value: i64) -> (json: Json)
        ensures
            json@ == JsonView::Number(NumberView::Int(value)),
    {
        Json::Number(Number::Int(value))
    }

    /// The member `key` where it is there and not `null`.
    pub fn optional(&self, key: &str) -> (found: Option<&Json>)
        ensures
            match found {
                Some(value) => self@.optional(key@) == Some(value@),
                None => self@.optional(key@) is None,
            },
    {
        match self.get(key) {
            Some(value) => if value.is_null() {
                None
            } else {
                Some(value)
            },
            None => None,
        }
    }

    /// The member `key` where it is a string.
    pub fn text_at(&self, key: &str) -> (text: Option<String>)
        ensures
            match text {
                Some(t) => self@.text_at(key@) == Some(t@),
                None => self@.text_at(key@) is None,
            },
    {
        match self.get(key) {
            Some(value) => match value.as_str() {
                Some(t) => Some(t.to_owned()),
                None => None,
            },
            None => None,
        }
    }

    /// The member `key` where it is a number.
    pub fn number_at(&self, key: &str) -> (number: Option<Number>)
        ensures
            match number {
                Some(n) => self@.number_at(key@) == Some(n@),
                None => self@.number_at(key@) is None,
            },
    {
        match self.get(key) {
            Some(value) => match value.as_number() {
                Some(n) => Some(n.clone()),
                None => None,
            },
            None => None,
        }
    }

    /// The member `key` where it is an integer.
    pub fn int_at(&self, key: &str) -> (whole: Option<i64>)
        ensures
            whole == self@.int_at(key@),
    {
        match self.get(key) {
            Some(value) => value.as_i64(),
            None => None,
        }
    }

    /// The member `key` where it is `true` or `false`.
    pub fn flag_at(&self, key: &str) -> (flag: Option<bool>)
        ensures
            flag == self@.flag_at(key@),
    {
        match self.get(key) {
            Some(value) => value.as_bool(),
            None => None,
        }
    }

    /// Whether the value is an object.
    pub fn is_object(&self) -> (object: bool)
        ensures
            object == (self@ is Object),
    {
        match self {
            Json::Object(_) => true,
            _ => false,
        }
    }

    /// Whether the value is `null`.
    pub fn is_null(&self) -> (null: bool)
        ensures
            null == (self@ is Null),
    {
        match self {
            Json::Null => true,
            _ => false,
        }
    }
}

impl DeepView for Number {
    type V = NumberView;

    open spec fn deep_view(&self) -> NumberView {
        self@
    }
}

impl DeepView for Json {
    type V = JsonView;

    open spec fn deep_view(&self) -> JsonView {
        self@
    }
}

/// The tree that the JSON reader makes of a text, or nothing where the text
/// is not one JSON value.
pub uninterp spec fn json_parsed(text: Seq<char>) -> Option<JsonView>;

/// The single-line text that the JSON writer makes of a tree, or nothing
/// where it cannot write it.
pub uninterp spec fn json_written(tree: JsonView) -> Option<Seq<char>>;

/// `serde_json::Value`: carried between the reader, the writer and the two
/// copying functions, and never looked into elsewhere.
#[verifier::external_type_specification]
#[verifier::external_body]
pub struct ExValue(serde_json::Value);

/// Copies a `serde_json::Value` into a [`Json`], variant by variant. A number
/// becomes `Int` where `Number::as_i64` gives one, and else `Real` with the
/// text that the number's `Display` prints. An object's members come in the
/// order in which `Map::iter` walks them. Nothing is claimed of the result.
#[verifier::external_body]
fn from_value(value: &Value) -> Json {
    match value {
        Value::Null => Json::Null,
        Value::Bool(b) => Json::Bool(*b),
        Value::Number(n) => Json::Number(
            match n.as_i64() {
                Some(i) => Number::Int(i),
                None => Number::Real(n.to_string()),
            },
        ),
        Value::String(s) => Json::Str(s.clone()),
        Value::Array(items) => Json::Array(items.iter().map(from_value).collect()),
        Value::Object(map) => Json::Object(
            map.iter().map(|(k, v)| (k.clone(), from_value(v))).collect(),
        ),
    }
}

/// Copies a [`Json`] into a `serde_json::Value`, variant by variant. A `Real`
/// is read back with `serde_json::from_str`; where that refuses the text there
/// is no value. Members are collected into a `serde_json::Map`. Nothing is
/// claimed of the result.
#[verifier::external_body]
fn to_value(json: &Json) -> Option<Value> {
    Some(
        match json {
            Json::Null => Value::Null,
            Json::Bool(b) => Value::Bool(*b),
            Json::Number(Number::Int(i)) => Value::Number((*i).into()),
            Json::Number(Number::Real(t)) => Value::Number(serde_json::from_str(t).ok()?),
            Json::Str(s) => Value::String(s.clone()),
            Json::Array(items) => Value::Array(
                items.iter().map(to_value).collect::<Option<_>>()?,
            ),
            Json::Object(members) => Value::Object(
                members.iter().map(|(k, v)| Some((k.clone(), to_value(v)?))).collect::<Option<_>>()?,
            ),
        },
    )
}

/// Reads a text with `serde_json::from_str`. The contract gives the outcome
/// its name, [`json_parsed`]: the same text always reads as the same tree, and
/// nothing more is claimed of it.
#[verifier::external_body]
pub(crate) fn parse_json(text: &str) -> (tree: Option<Json>)
    ensures
        match tree {
            Some(t) => json_parsed(text@) == Some(t@),
            None => json_parsed(text@) is None,
        },
{
    serde_json::from_str::<Value>(text).ok().map(|value| from_value(&value))
}

/// Writes a tree with `serde_json::to_string`. The contract gives the outcome
/// its name, [`json_written`]: the same tree always gives the same text, and
/// nothing more is claimed of it.
#[verifier::external_body]
pub(crate) fn write_json(tree: &Json) -> (text: Option<String>)
    ensures
        match text {
            Some(t) => json_written(tree@) == Some(t@),
            None => json_written(tree@) is None,
        },
{
    to_value(tree).and_then(|value| serde_json::to_string(&value).ok())
}

} // verus!
