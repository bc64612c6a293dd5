//! JSON values as this library holds them, and the calls that read and write JSON text.

use crate::text::str_eq;
use crate::Error;
use vstd::prelude::*;

verus! {

/// One member of a JSON object: a key and the value under it.
#[derive(Debug, PartialEq, Eq)]
pub struct Member {
    /// The key.
    pub key: String,
    /// The value.
    pub value: Json,
}

/// A JSON value.
///
/// A number is held as it was written: a whole number that fits is `Unsigned` or `Signed`,
/// any other number is `Real` and keeps its decimal text.
#[derive(Debug, PartialEq, Eq)]
pub enum Json {
    /// `null`
    Null,
    /// `true` or `false`
    Bool(bool),
    /// A whole number that is not negative.
    Unsigned(u64),
    /// A negative whole number.
    Signed(i64),
    /// Any other number, in decimal text.
    Real(String),
    /// A string.
    Text(String),
    /// An array.
    Array(Vec<Json>),
    /// An object: its members in order.
    Object(Vec<Member>),
}

/// The mathematical value of a [`Json`].
pub enum JsonValue {
    Null,
    Bool(bool),
    Unsigned(u64),
    Signed(i64),
    Real(Seq<char>),
    Text(Seq<char>),
    Array(Seq<JsonValue>),
    Object(Seq<(Seq<char>, JsonValue)>),
}

impl View for Json {
    type V = JsonValue;

    open spec fn view(&self) -> JsonValue
        decreases self,
    {
        match self {
            Json::Null => JsonValue::Null,
            Json::Bool(b) => JsonValue::Bool(*b),
            Json::Unsigned(n) => JsonValue::Unsigned(*n),
            Json::Signed(n) => JsonValue::Signed(*n),
            Json::Real(s) => JsonValue::Real(s@),
            Json::Text(s) => JsonValue::Text(s@),
            Json::Array(items) => JsonValue::Array(
                Seq::new(
                    items.len() as nat,
                    |i: int|
                        if 0 <= i < items.len() {
                            items[i]@
                        } else {
                            JsonValue::Null
                        },
                ),
            ),
            Json::Object(members) => JsonValue::Object(
                Seq::new(
                    members.len() as nat,
                    |i: int|
                        if 0 <= i < members.len() {
                            (members[i].key@, members[i].value@)
                        } else {
                            (Seq::empty(), JsonValue::Null)
                        },
                ),
            ),
        }
    }
}

/// The value under the first member with the given key, if there is one.
pub open spec fn find_member(members: Seq<(Seq<char>, JsonValue)>, key: Seq<char>) -> Option<
    JsonValue,
>
    decreases members.len(),
{
    if members.len() == 0 {
        None
    } else if members[0].0 == key {
        Some(members[0].1)
    } else {
        find_member(members.drop_first(), key)
    }
}

impl JsonValue {
    /// The value under a key of an object; `None` where there is no such key or this is
    /// no object.
    pub open spec fn member(self, key: Seq<char>) -> Option<JsonValue> {
        match self {
            JsonValue::Object(members) => find_member(members, key),
            _ => None,
        }
    }

    /// The value under a key, where `null` counts as absent.
    pub open spec fn present(self, key: Seq<char>) -> Option<JsonValue> {
        match self.member(key) {
            Some(JsonValue::Null) => None,
            other => other,
        }
    }

    /// The string under a key; `None` where the key is absent or holds no string.
    pub open spec fn text_at(self, key: Seq<char>) -> Option<Seq<char>> {
        match self.member(key) {
            Some(JsonValue::Text(t)) => Some(t),
            _ => None,
        }
    }

    /// The string under a key that may be absent or `null`: `Some(None)` where it is,
    /// `None` where the key holds anything but a string.
    pub open spec fn optional_text_at(self, key: Seq<char>) -> Option<Option<Seq<char>>> {
        match self.present(key) {
            None => Some(None),
            Some(JsonValue::Text(t)) => Some(Some(t)),
            Some(_) => None,
        }
    }

    /// The number under a key; `None` where the key is absent or holds anything but a
    /// whole number that is not negative.
    pub open spec fn u64_at(self, key: Seq<char>) -> Option<u64> {
        match self.member(key) {
            Some(JsonValue::Unsigned(n)) => Some(n),
            _ => None,
        }
    }

    /// The truth value under a key; `None` where the key is absent or holds none.
    pub open spec fn bool_at(self, key: Seq<char>) -> Option<bool> {
        match self.member(key) {
            Some(JsonValue::Bool(b)) => Some(b),
            _ => None,
        }
    }

    /// The truth value under a key that may be absent or `null`: `Some(None)` where it
    /// is, `None` where the key holds anything but a truth value.
    pub open spec fn optional_bool_at(self, key: Seq<char>) -> Option<Option<bool>> {
        match self.present(key) {
            None => Some(None),
            Some(JsonValue::Bool(b)) => Some(Some(b)),
            Some(_) => None,
        }
    }

    /// The strings of an array of strings; `None` for anything else.
    pub open spec fn texts(self) -> Option<Seq<Seq<char>>> {
        match self {
            JsonValue::Array(items) => if forall|i: int|
                0 <= i < items.len() ==> #[trigger] items[i] is Text {
                Some(Seq::new(items.len(), |i: int| items[i]->Text_0))
            } else {
                None
            },
            _ => None,
        }
    }

    /// The strings under a key; `None` where the key is absent or holds anything but an
    /// array of strings.
    pub open spec fn texts_at(self, key: Seq<char>) -> Option<Seq<Seq<char>>> {
        match self.member(key) {
            Some(items) => items.texts(),
            None => None,
        }
    }
}

/// The characters of a string that may be absent.
pub open spec fn optional_text(text: Option<String>) -> Option<Seq<char>> {
    match text {
        Some(t) => Some(t@),
        None => None,
    }
}

/// The characters of each of some strings.
pub open spec fn texts_of(texts: Seq<String>) -> Seq<Seq<char>> {
    Seq::new(texts.len(), |i: int| texts[i]@)
}

/// The items of an array, each by its value.
pub open spec fn array_of(items: Seq<Json>) -> JsonValue {
    JsonValue::Array(Seq::new(items.len(), |i: int| items[i]@))
}

/// An object made of the given members, in their order.
pub open spec fn object_of(members: Seq<Member>) -> JsonValue {
    JsonValue::Object(Seq::new(members.len(), |i: int| (members[i].key@, members[i].value@)))
}

/// The value of an array is made of the values of its items.
pub proof fn array_view(items: Vec<Json>)
    ensures
        Json::Array(items)@ == array_of(items@),
{
    reveal_with_fuel(<Json as View>::view, 2);
    assert(Json::Array(items)@->Array_0 =~= array_of(items@)->Array_0);
}

/// The value of an object is made of the keys and values of its members.
pub proof fn object_view(members: Vec<Member>)
    ensures
        Json::Object(members)@ == object_of(members@),
{
    reveal_with_fuel(<Json as View>::view, 2);
    assert(Json::Object(members)@->Object_0 =~= object_of(members@)->Object_0);
}

proof fn find_member_skip(members: Seq<(Seq<char>, JsonValue)>, key: Seq<char>, i: int)
    requires
        0 <= i < members.len(),
        members[i].0 != key,
    ensures
        find_member(members.skip(i), key) == find_member(members.skip(i + 1), key),
{
    assert(members.skip(i).drop_first() =~= members.skip(i + 1));
}

impl Json {
    /// A JSON string with the characters of `text`.
    pub fn text(text: &str) -> (j: Json)
        ensures
            j@ == JsonValue::Text(text@),
    {
        Json::Text(text.to_owned())
    }

    /// A JSON string with the characters of `text`, or `null` where there is none.
    pub fn text_or_null(text: Option<&str>) -> (j: Json)
        ensures
            j@ == match text {
                Some(t) => JsonValue::Text(t@),
                None => JsonValue::Null,
            },
    {
        match text {
            Some(t) => Json::text(t),
            None => Json::Null,
        }
    }

    /// A copy of this value.
    pub fn duplicate(&self) -> (copy: Json)
        ensures
            copy@ == self@,
        decreases self,
    {
        match self {
            Json::Null => Json::Null,
            Json::Bool(b) => Json::Bool(*b),
            Json::Unsigned(n) => Json::Unsigned(*n),
            Json::Signed(n) => Json::Signed(*n),
            Json::Real(s) => Json::Real(s.clone()),
            Json::Text(s) => Json::Text(s.clone()),
            Json::Array(items) => {
                let mut copies: Vec<Json> = Vec::new();
                let mut i: usize = 0;
                while i < items.len()
                    invariant
                        i <= items.len(),
                        *self == Json::Array(*items),
                        copies.len() == i,
                        forall|k: int| 0 <= k < i ==> (#[trigger] copies[k])@ == items[k]@,
                    decreases items.len() - i,
                {
                    proof {
                        vstd::std_specs::vec::axiom_vec_index_decreases(*items, i as int);
                        assert(decreases_to!(*self => self->Array_0));
                    }
                    copies.push(items[i].duplicate());
                    i += 1;
                }
                proof {
                    array_view(*items);
                    array_view(copies);
                    assert(array_of(copies@)->Array_0 =~= array_of(items@)->Array_0);
                }
                Json::Array(copies)
            },
            Json::Object(members) => {
                let mut copies: Vec<Member> = Vec::new();
                let mut i: usize = 0;
                while i < members.len()
                    invariant
                        i <= members.len(),
                        *self == Json::Object(*members),
                        copies.len() == i,
                        forall|k: int|
                            0 <= k < i ==> (#[trigger] copies[k]).key@ == members[k].key@
                                && copies[k].value@ == members[k].value@,
                    decreases members.len() - i,
                {
                    proof {
                        vstd::std_specs::vec::axiom_vec_index_decreases(*members, i as int);
                        assert(decreases_to!(*self => self->Object_0));
                    }
                    let value = members[i].value.duplicate();
                    copies.push(Member { key: members[i].key.clone(), value });
                    i += 1;
                }
                proof {
                    object_view(*members);
                    object_view(copies);
                    assert(object_of(copies@)->Object_0 =~= object_of(members@)->Object_0);
                }
                Json::Object(copies)
            },
        }
    }

    /// An array of one item.
    pub fn array1(item: Json) -> (j: Json)
        ensures
            j@ == JsonValue::Array(seq![item@]),
    {
        let mut items: Vec<Json> = Vec::new();
        items.push(item);
        proof {
            array_view(items);
            assert(array_of(items@)->Array_0 =~= seq![item@]);
        }
        Json::Array(items)
    }

    /// An array of the given items.
    pub fn array(items: Vec<Json>) -> (j: Json)
        ensures
            j@ == array_of(items@),
    {
        proof {
            array_view(items);
        }
        Json::Array(items)
    }

    /// The value under a key of an object.
    pub fn get<'a>(&'a self, key: &str) -> (found: Option<&'a Json>)
        ensures
            match found {
                Some(j) => self@.member(key@) == Some(j@),
                None => self@.member(key@) is None,
            },
    {
        match self {
            Json::Object(members) => {
                let ghost all = self@->Object_0;
                let mut i: usize = 0;
                proof {
                    object_view(*members);
                    assert(all.skip(0) =~= all);
                }
                while i < members.len()
                    invariant
                        i <= members.len(),
                        self@ == JsonValue::Object(all),
                        all.len() == members.len(),
                        forall|k: int|
                            0 <= k < members.len() ==> all[k] == (
                                #[trigger] members[k].key@,
                                members[k].value@,
                            ),
                        find_member(all, key@) == find_member(all.skip(i as int), key@),
                    decreases members.len() - i,
                {
                    if str_eq(members[i].key.as_str(), key) {
                        return Some(&members[i].value);
                    }
                    proof {
                        find_member_skip(all, key@, i as int);
                    }
                    i += 1;
                }
                None
            },
            _ => None,
        }
    }

    /// The value under a key of an object, where `null` counts as absent.
    pub fn get_present<'a>(&'a self, key: &str) -> (found: Option<&'a Json>)
        ensures
            match found {
                Some(j) => self@.present(key@) == Some(j@),
                None => self@.present(key@) is None,
            },
    {
        match self.get(key) {
            Some(Json::Null) => None,
            other => other,
        }
    }

    /// Takes the value under a key out of an object.
    pub fn take(self, key: &str) -> (found: Option<Json>)
        ensures
            match found {
                Some(j) => self@.member(key@) == Some(j@),
                None => self@.member(key@) is None,
            },
    {
        match self {
            Json::Object(members) => {
                let ghost all = self@->Object_0;
                let mut members = members;
                let mut i: usize = 0;
                proof {
                    object_view(members);
                    assert(all.skip(0) =~= all);
                }
                while i < members.len()
                    invariant
                        i <= members.len(),
                        self@ == JsonValue::Object(all),
                        all.len() == members.len(),
                        forall|k: int|
                            0 <= k < members.len() ==> all[k] == (
                                #[trigger] members[k].key@,
                                members[k].value@,
                            ),
                        find_member(all, key@) == find_member(all.skip(i as int), key@),
                    decreases members.len() - i,
                {
                    if str_eq(members[i].key.as_str(), key) {
                        assert(all.skip(i as int)[0] == all[i as int]);
                        let found = members.remove(i);
                        return Some(found.value);
                    }
                    proof {
                        find_member_skip(all, key@, i as int);
                    }
                    i += 1;
                }
                None
            },
            _ => None,
        }
    }

    /// Takes the value under a key out of an object, where `null` counts as absent.
    pub fn take_present(self, key: &str) -> (found: Option<Json>)
        ensures
            match found {
                Some(j) => self@.present(key@) == Some(j@),
                None => self@.present(key@) is None,
            },
    {
        match self.take(key) {
            Some(Json::Null) => None,
            other => other,
        }
    }

    /// The string under a key.
    pub fn text_at(&self, key: &str) -> (text: Option<String>)
        ensures
            optional_text(text) == self@.text_at(key@),
    {
        match self.get(key) {
            Some(Json::Text(t)) => Some(t.clone()),
            _ => None,
        }
    }

    /// The string under a key that may be absent or `null`.
    pub fn optional_text_at(&self, key: &str) -> (text: Option<Option<String>>)
        ensures
            match text {
                Some(t) => self@.optional_text_at(key@) == Some(optional_text(t)),
                None => self@.optional_text_at(key@) is None,
            },
    {
        match self.get_present(key) {
            None => Some(None),
            Some(Json::Text(t)) => Some(Some(t.clone())),
            Some(_) => None,
        }
    }

    /// The number under a key.
    pub fn u64_at(&self, key: &str) -> (n: Option<u64>)
        ensures
            n == self@.u64_at(key@),
    {
        match self.get(key) {
            Some(Json::Unsigned(n)) => Some(*n),
            _ => None,
        }
    }

    /// The truth value under a key.
    pub fn bool_at(&self, key: &str) -> (b: Option<bool>)
        ensures
            b == self@.bool_at(key@),
    {
        match self.get(key) {
            Some(Json::Bool(b)) => Some(*b),
            _ => None,
        }
    }

    /// The truth value under a key that may be absent or `null`.
    pub fn optional_bool_at(&self, key: &str) -> (b: Option<Option<bool>>)
        ensures
            b == self@.optional_bool_at(key@),
    {
        match self.get_present(key) {
            None => Some(None),
            Some(Json::Bool(b)) => Some(Some(*b)),
            Some(_) => None,
        }
    }

    /// The strings of an array of strings.
    pub fn texts(&self) -> (texts: Option<Vec<String>>)
        ensures
            match texts {
                Some(v) => self@.texts() == Some(texts_of(v@)),
                None => self@.texts() is None,
            },
    {
        match self {
            Json::Array(items) => {
                let ghost all = self@->Array_0;
                proof {
                    array_view(*items);
                }
                let mut texts: Vec<String> = Vec::new();
                let mut i: usize = 0;
                while i < items.len()
                    invariant
                        i <= items.len(),
                        self@ == JsonValue::Array(all),
                        all.len() == items.len(),
                        forall|k: int| 0 <= k < items.len() ==> all[k] == #[trigger] items[k]@,
                        texts.len() == i,
                        forall|k: int|
                            0 <= k < i ==> #[trigger] all[k] == JsonValue::Text(texts[k]@),
                    decreases items.len() - i,
                {
                    assert(all[i as int] == items[i as int]@);
                    match &items[i] {
                        Json::Text(t) => {
                            texts.push(t.clone());
                        },
                        _ => {
                            return None;
                        },
                    }
                    i += 1;
                }
                assert(self@.texts()->Some_0 =~= texts_of(texts@));
                Some(texts)
            },
            _ => None,
        }
    }

    /// The strings under a key.
    pub fn texts_at(&self, key: &str) -> (texts: Option<Vec<String>>)
        ensures
            match texts {
                Some(v) => self@.texts_at(key@) == Some(texts_of(v@)),
                None => self@.texts_at(key@) is None,
            },
    {
        match self.get(key) {
            Some(items) => items.texts(),
            None => None,
        }
    }

    /// The number that this value holds, if it is a whole number that is not negative.
    pub fn as_u64(&self) -> (n: Option<u64>)
        ensures
            n == match self@ {
                JsonValue::Unsigned(u) => Some(u),
                _ => None,
            },
    {
        match self {
            Json::Unsigned(u) => Some(*u),
            _ => None,
        }
    }

    /// The truth value that this value holds, if it is one.
    pub fn as_bool(&self) -> (b: Option<bool>)
        ensures
            b == match self@ {
                JsonValue::Bool(x) => Some(x),
                _ => None,
            },
    {
        match self {
            Json::Bool(x) => Some(*x),
            _ => None,
        }
    }

    /// The characters that this value holds, if it is a string.
    pub fn as_str<'a>(&'a self) -> (s: Option<&'a str>)
        ensures
            match s {
                Some(t) => self@ == JsonValue::Text(t@),
                None => !(self@ is Text),
            },
    {
        match self {
            Json::Text(t) => Some(t.as_str()),
            _ => None,
        }
    }

    /// Whether this value is `null`.
    pub fn is_null(&self) -> (b: bool)
        ensures
            b == (self@ is Null),
    {
        match self {
            Json::Null => true,
            _ => false,
        }
    }

    /// The items of this value, if it is an array.
    pub fn as_array<'a>(&'a self) -> (items: Option<&'a Vec<Json>>)
        ensures
            match items {
                Some(v) => self@ == array_of(v@),
                None => !(self@ is Array),
            },
    {
        match self {
            Json::Array(v) => {
                proof {
                    array_view(*v);
                }
                Some(v)
            },
            _ => None,
        }
    }
}

/// Builds a member from a key and a value.
pub fn member(key: &str, value: Json) -> (m: Member)
    ensures
        m.key@ == key@,
        m.value == value,
{
    Member { key: key.to_owned(), value }
}

/// Builds an object from its members.
pub fn object(members: Vec<Member>) -> (j: Json)
    ensures
        j@ == object_of(members@),
{
    proof {
        object_view(members);
    }
    Json::Object(members)
}

/// `serde_json::Value`, carried as it is: nothing is known of what it holds but through
/// [`value_tree`].
#[verifier::external_type_specification]
#[verifier::external_body]
pub struct ExValue(serde_json::Value);

/// The JSON value that a `serde_json::Value` holds.
pub uninterp spec fn value_tree(v: serde_json::Value) -> JsonValue;

/// What `serde_json::from_str` reads from a text: the value, or `None` where it
/// rejects the text.
pub uninterp spec fn parsed_text(text: Seq<char>) -> Option<JsonValue>;

/// What a `serde_json::Value` keeps of a value that is handed to it part by part. Its
/// objects are maps, which keep one member for a key, and its numbers are read anew from
/// what they are given.
pub uninterp spec fn stored_tree(tree: JsonValue) -> JsonValue;

/// The text that `serde_json::to_string` writes for a value; `None` where it fails.
pub uninterp spec fn rendered_text(tree: JsonValue) -> Option<Seq<char>>;

/// Calls `serde_json::from_str` for a `serde_json::Value` and drops the error's detail.
/// The contract only gives what comes back a name: the value read, as a function of the
/// text.
#[verifier::external_body]
fn value_from_text(text: &str) -> (r: Option<serde_json::Value>)
    ensures
        match r {
            Some(v) => parsed_text(text@) == Some(value_tree(v)),
            None => parsed_text(text@) is None,
        },
{
    serde_json::from_str::<serde_json::Value>(text).ok()
}

/// Moves what a `serde_json::Value` holds into a [`Json`], variant by variant. A number
/// is asked with `Number::as_u64` and `Number::as_i64`; one that is neither is kept in the
/// text that `Number::to_string` gives.
#[verifier::external_body]
fn json_of_value(v: serde_json::Value) -> (j: Json)
    ensures
        j@ == value_tree(v),
{
    match v {
        serde_json::Value::Null => Json::Null,
        serde_json::Value::Bool(b) => Json::Bool(b),
        serde_json::Value::Number(n) => match (n.as_u64(), n.as_i64()) {
            (Some(u), _) => Json::Unsigned(u),
            (_, Some(i)) => Json::Signed(i),
            _ => Json::Real(n.to_string()),
        },
        serde_json::Value::String(s) => Json::Text(s),
        serde_json::Value::Array(a) => Json::Array(a.into_iter().map(json_of_value).collect()),
        serde_json::Value::Object(o) => Json::Object(
            o.into_iter().map(|(key, v)| Member { key, value: json_of_value(v) }).collect(),
        ),
    }
}

/// Builds a `serde_json::Value` from a [`Json`], variant by variant. The members of an
/// object are collected into a `serde_json::Map`; the text of a `Real` is read back with
/// `str::parse` for a `serde_json::Number` and becomes `null` where that fails.
#[verifier::external_body]
fn value_of_json(j: &Json) -> (v: serde_json::Value)
    ensures
        value_tree(v) == stored_tree(j@),
{
    match j {
        Json::Null => serde_json::Value::Null,
        Json::Bool(b) => serde_json::Value::Bool(*b),
        Json::Unsigned(n) => serde_json::Value::from(*n),
        Json::Signed(n) => serde_json::Value::from(*n),
        Json::Real(s) => s.parse().map_or(serde_json::Value::Null, serde_json::Value::Number),
        Json::Text(s) => serde_json::Value::String(s.clone()),
        Json::Array(a) => serde_json::Value::Array(a.iter().map(value_of_json).collect()),
        Json::Object(o) => serde_json::Value::Object(
            o.iter().map(|m| (m.key.clone(), value_of_json(&m.value))).collect(),
        ),
    }
}

/// Calls `serde_json::to_string` on a `serde_json::Value` and drops the error's detail.
/// The contract only gives what comes back a name: the text written, as a function of the
/// value.
#[verifier::external_body]
fn value_to_text(v: &serde_json::Value) -> (r: Option<String>)
    ensures
        match r {
            Some(text) => rendered_text(value_tree(*v)) == Some(text@),
            None => rendered_text(value_tree(*v)) is None,
        },
{
    serde_json::to_string(v).ok()
}

/// What [`parse`] returns for a text.
pub open spec fn parse_spec(text: Seq<char>) -> Result<JsonValue, Error> {
    match parsed_text(text) {
        Some(tree) => Ok(tree),
        None => Err(Error::Json),
    }
}

/// Whether a result holds the value, or the error, that is expected of it.
pub open spec fn json_result_is(
    r: Result<Json, Error>,
    expected: Result<JsonValue, Error>,
) -> bool {
    match r {
        Ok(j) => expected == Ok::<JsonValue, Error>(j@),
        Err(e) => expected == Err::<JsonValue, Error>(e),
    }
}

/// Reads a JSON text. Fails with [`Error::Json`] where the text is not JSON.
pub fn parse(text: &str) -> (r: Result<Json, Error>)
    ensures
        json_result_is(r, parse_spec(text@)),
{
    match value_from_text(text) {
        Some(v) => Ok(json_of_value(v)),
        None => Err(Error::Json),
    }
}

/// What [`render`] returns for a value.
pub open spec fn render_spec(tree: JsonValue) -> Result<Seq<char>, Error> {
    match rendered_text(stored_tree(tree)) {
        Some(text) => Ok(text),
        None => Err(Error::Json),
    }
}

/// Whether a result holds the text, or the error, that is expected of it.
pub open spec fn text_result_is(
    r: Result<String, Error>,
    expected: Result<Seq<char>, Error>,
) -> bool {
    match r {
        Ok(s) => expected == Ok::<Seq<char>, Error>(s@),
        Err(e) => expected == Err::<Seq<char>, Error>(e),
    }
}

/// Writes a value as JSON text. Fails with [`Error::Json`] where the value cannot be
/// written.
pub fn render(j: &Json) -> (r: Result<String, Error>)
    ensures
        text_result_is(r, render_spec(j@)),
{
    let v = value_of_json(j);
    match value_to_text(&v) {
        Some(text) => Ok(text),
        None => Err(Error::Json),
    }
}

} // verus!
