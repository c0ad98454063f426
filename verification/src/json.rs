//! JSON documents as plain values.
//!
//! Reading and writing JSON text is done by `serde_json`. Everything that
//! looks inside a document works on [`Json`].
use toml::de::DeInteger;
use toml::de::DeTable;
use toml::de::DeValue;
use vstd::prelude::*;

use crate::error;
use crate::error::ErrorView;
use crate::error::GoveeError;
use crate::text::same;

verus! {

/// A JSON value.
#[derive(Debug, PartialEq, Eq)]
pub enum Json {
    Null,
    Bool(bool),
    /// An integer from 0 to `u64::MAX`.
    Unsigned(u64),
    /// A negative integer down to `i64::MIN`.
    Negative(i64),
    /// Any other number, by its text.
    Decimal(String),
    Text(String),
    Array(Vec<Json>),
    /// The members of an object. Of two members with one name the later counts.
    Object(Vec<(String, Json)>),
}

/// What a JSON value is: text by its characters, and an object as a map.
pub enum JsonView {
    Null,
    Bool(bool),
    Unsigned(u64),
    Negative(i64),
    Decimal(Seq<char>),
    Text(Seq<char>),
    Array(Seq<JsonView>),
    Object(Map<Seq<char>, JsonView>),
}

impl View for Json {
    type V = JsonView;

    open spec fn view(&self) -> JsonView
        decreases self, 0int,
    {
        match self {
            Json::Null => JsonView::Null,
            Json::Bool(b) => JsonView::Bool(*b),
            Json::Unsigned(n) => JsonView::Unsigned(*n),
            Json::Negative(n) => JsonView::Negative(*n),
            Json::Decimal(t) => JsonView::Decimal(t@),
            Json::Text(t) => JsonView::Text(t@),
            Json::Array(items) => JsonView::Array(
                Seq::new(
                    items@.len(),
                    |i: int|
                        if 0 <= i < items@.len() {
                            items@[i].view()
                        } else {
                            JsonView::Null
                        },
                ),
            ),
            Json::Object(members) => JsonView::Object(members_view(members@)),
        }
    }
}

/// The members of an object as a map.
pub open spec fn members_view(members: Seq<(String, Json)>) -> Map<Seq<char>, JsonView>
    decreases members, members.len(),
{
    if members.len() == 0 {
        Map::empty()
    } else {
        members_view(members.drop_last()).insert(members.last().0@, members.last().1.view())
    }
}

/// One more member goes into the map under its name.
pub proof fn members_view_push(members: Seq<(String, Json)>, name: String, value: Json)
    ensures
        members_view(members.push((name, value))) == members_view(members).insert(name@, value@),
{
    reveal_with_fuel(members_view, 2);
    assert(members.push((name, value)).drop_last() =~= members);
}

impl JsonView {
    /// The member `name` of an object; nothing of any other value.
    pub open spec fn get(self, name: Seq<char>) -> Option<JsonView> {
        match self {
            JsonView::Object(members) => if members.contains_key(name) {
                Some(members[name])
            } else {
                None
            },
            _ => None,
        }
    }

    /// The integer, if the value is one from 0 to `u64::MAX`.
    pub open spec fn as_u64(self) -> Option<u64> {
        match self {
            JsonView::Unsigned(n) => Some(n),
            _ => None,
        }
    }

    /// The text, if the value is text.
    pub open spec fn as_text(self) -> Option<Seq<char>> {
        match self {
            JsonView::Text(t) => Some(t),
            _ => None,
        }
    }

    /// The truth value, if the value is one.
    pub open spec fn as_bool(self) -> Option<bool> {
        match self {
            JsonView::Bool(b) => Some(b),
            _ => None,
        }
    }

    /// The integer of the member `name`, if there is one.
    pub open spec fn get_u64(self, name: Seq<char>) -> Option<u64> {
        match self.get(name) {
            Some(v) => v.as_u64(),
            None => None,
        }
    }

    /// The text of the member `name`, if there is one.
    pub open spec fn get_text(self, name: Seq<char>) -> Option<Seq<char>> {
        match self.get(name) {
            Some(v) => v.as_text(),
            None => None,
        }
    }

    /// The truth value of the member `name`, if there is one.
    pub open spec fn get_bool(self, name: Seq<char>) -> Option<bool> {
        match self.get(name) {
            Some(v) => v.as_bool(),
            None => None,
        }
    }
}

impl Json {
    /// The member `name` of an object.
    pub fn get(&self, name: &str) -> (r: Option<&Json>)
        ensures
            match r {
                Some(v) => self@.get(name@) == Some(v@),
                None => self@.get(name@) is None,
            },
    {
        match self {
            Json::Object(members) => {
                let mut i: usize = members.len();
                assert(members@.take(i as int) =~= members@);
                while i > 0
                    invariant
                        i <= members@.len(),
                        self@ == JsonView::Object(members_view(members@)),
                        members_view(members@).contains_key(name@) == members_view(
                            members@.take(i as int),
                        ).contains_key(name@),
                        members_view(members@).contains_key(name@) ==> members_view(members@)[name@]
                            == members_view(members@.take(i as int))[name@],
                    decreases i,
                {
                    i = i - 1;
                    proof {
                        members_view_push(members@.take(i as int), members@[i as int].0, members@[i as int].1);
                        assert(members@.take(i as int).push(members@[i as int]) =~= members@.take(i + 1));
                    }
                    if same(members[i].0.as_str(), name) {
                        return Some(&members[i].1);
                    }
                }
                None
            },
            _ => None,
        }
    }

    /// The integer, if the value is one from 0 to `u64::MAX`.
    pub fn as_u64(&self) -> (r: Option<u64>)
        ensures
            r == self@.as_u64(),
    {
        match self {
            Json::Unsigned(n) => Some(*n),
            _ => None,
        }
    }

    /// The text, if the value is text.
    pub fn as_str(&self) -> (r: Option<&str>)
        ensures
            match r {
                Some(t) => self@.as_text() == Some(t@),
                None => self@.as_text() is None,
            },
    {
        match self {
            Json::Text(t) => Some(t.as_str()),
            _ => None,
        }
    }

    /// The truth value, if the value is one.
    pub fn as_bool(&self) -> (r: Option<bool>)
        ensures
            r == self@.as_bool(),
    {
        match self {
            Json::Bool(b) => Some(*b),
            _ => None,
        }
    }

    /// The integer of the member `name`.
    pub fn get_u64(&self, name: &str) -> (r: Option<u64>)
        ensures
            r == self@.get_u64(name@),
    {
        match self.get(name) {
            Some(v) => v.as_u64(),
            None => None,
        }
    }

    /// The text of the member `name`.
    pub fn get_str(&self, name: &str) -> (r: Option<&str>)
        ensures
            match r {
                Some(t) => self@.get_text(name@) == Some(t@),
                None => self@.get_text(name@) is None,
            },
    {
        match self.get(name) {
            Some(v) => v.as_str(),
            None => None,
        }
    }

    /// The truth value of the member `name`.
    pub fn get_bool(&self, name: &str) -> (r: Option<bool>)
        ensures
            r == self@.get_bool(name@),
    {
        match self.get(name) {
            Some(v) => v.as_bool(),
            None => None,
        }
    }

    /// Text as a JSON value.
    pub fn text(t: &str) -> (r: Json)
        ensures
            r@ == JsonView::Text(t@),
    {
        Json::Text(t.to_string())
    }

    /// An object with no members.
    pub fn empty_object() -> (r: Json)
        ensures
            r@ == JsonView::Object(Map::empty()),
    {
        let members: Vec<(String, Json)> = Vec::new();
        proof {
            reveal_with_fuel(members_view, 2);
            assert(members_view(members@) =~= Map::empty());
        }
        Json::Object(members)
    }

    /// The object with one more member.
    pub fn with(self, name: &str, value: Json) -> (r: Json)
        requires
            self@ is Object,
        ensures
            r@ == JsonView::Object(self@->Object_0.insert(name@, value@)),
    {
        match self {
            Json::Object(members) => {
                let mut members = members;
                let name = name.to_string();
                proof {
                    members_view_push(members@, name, value);
                }
                members.push((name, value));
                Json::Object(members)
            },
            other => other,
        }
    }
}

impl Clone for Json {
    fn clone(&self) -> (r: Json)
        ensures
            r@ == self@,
        decreases self,
    {
        match self {
            Json::Null => Json::Null,
            Json::Bool(b) => Json::Bool(*b),
            Json::Unsigned(n) => Json::Unsigned(*n),
            Json::Negative(n) => Json::Negative(*n),
            Json::Decimal(t) => Json::Decimal(t.clone()),
            Json::Text(t) => Json::Text(t.clone()),
            Json::Array(items) => {
                let mut copy: Vec<Json> = Vec::new();
                for i in 0..items.len()
                    invariant
                        *self == Json::Array(*items),
                        copy@.len() == i,
                        forall|k: int| 0 <= k < i ==> (#[trigger] copy@[k])@ == items@[k]@,
                {
                    assert(decreases_to!(*self => self->Array_0));
                    assert(decreases_to!(*items => items@));
                    assert(decreases_to!(items@ => items@[i as int]));
                    copy.push(items[i].clone());
                }
                let r = Json::Array(copy);
                proof {
                    reveal_with_fuel(<Json as View>::view, 2);
                    assert(r@->Array_0 =~= self@->Array_0);
                }
                r
            },
            Json::Object(members) => {
                let mut copy: Vec<(String, Json)> = Vec::new();
                proof {
                    assert(members@.take(0) =~= copy@);
                }
                for i in 0..members.len()
                    invariant
                        *self == Json::Object(*members),
                        members_view(copy@) == members_view(members@.take(i as int)),
                {
                    assert(decreases_to!(*self => self->Object_0));
                    assert(decreases_to!(*members => members@));
                    assert(decreases_to!(members@ => members@[i as int]));
                    assert(decreases_to!(members@[i as int] => members@[i as int].1));
                    let name = members[i].0.clone();
                    let value = members[i].1.clone();
                    proof {
                        members_view_push(copy@, name, value);
                        members_view_push(
                            members@.take(i as int),
                            members@[i as int].0,
                            members@[i as int].1,
                        );
                        assert(members@.take(i as int).push(members@[i as int]) =~= members@.take(i + 1));
                    }
                    copy.push((name, value));
                }
                assert(members@.take(members@.len() as int) =~= members@);
                Json::Object(copy)
            },
        }
    }
}

impl Json {
    /// Reads a JSON document.
    pub fn parse(bytes: &[u8]) -> (r: Result<Json, GoveeError>)
        ensures
            error::outcome(r) == (match json_document(bytes@) {
                Ok(document) => Ok(document),
                Err(t) => Err(ErrorView::Serialization(t)),
            }),
    {
        match read_json(bytes) {
            Ok(document) => Ok(document),
            Err(t) => Err(GoveeError::Serialization(t)),
        }
    }

    /// Writes a JSON document.
    pub fn to_bytes(&self) -> (r: Result<Vec<u8>, GoveeError>)
        ensures
            error::outcome(r) == Ok::<Seq<u8>, ErrorView>(json_bytes(self@)),
            is_plain(self@, MAX_NESTING as nat) ==> json_document(json_bytes(self@)) == Ok::<
                JsonView,
                Seq<char>,
            >(self@),
    {
        match write_json(self) {
            Ok(bytes) => Ok(bytes),
            Err(t) => Err(GoveeError::Serialization(t)),
        }
    }
}

/// The document that `serde_json` reads out of `bytes`, or the text of its
/// error.
pub uninterp spec fn json_document(bytes: Seq<u8>) -> Result<JsonView, Seq<char>>;

/// The bytes that `serde_json` writes for a document.
pub uninterp spec fn json_bytes(document: JsonView) -> Seq<u8>;

/// How deep arrays and objects may be nested in a document that is read.
pub const MAX_NESTING: u64 = 127;

/// Whether a document is nested at most `depth` deep and has no numbers but
/// integers, each in its one form.
pub open spec fn is_plain(document: JsonView, depth: nat) -> bool
    decreases depth,
{
    match document {
        JsonView::Decimal(_) => false,
        JsonView::Negative(n) => n < 0,
        JsonView::Array(items) => depth > 0 && forall|i: int|
            0 <= i < items.len() ==> is_plain(#[trigger] items[i], (depth - 1) as nat),
        JsonView::Object(members) => depth > 0 && forall|name: Seq<char>| #[trigger]
            members.contains_key(name) ==> is_plain(members[name], (depth - 1) as nat),
        _ => true,
    }
}

/// A JSON value as `serde_json` holds it.
#[verifier::external_type_specification]
#[verifier::external_body]
pub struct ExValue(serde_json::Value);

/// Changes a `serde_json::Value` into a [`Json`], variant by variant. A number
/// is taken as `Number::as_u64`, as `Number::as_i64`, or else by its text.
#[verifier::external_body]
pub(crate) fn from_value(value: serde_json::Value) -> Json {
    match value {
        serde_json::Value::Null => Json::Null,
        serde_json::Value::Bool(b) => Json::Bool(b),
        serde_json::Value::Number(n) => match (n.as_u64(), n.as_i64()) {
            (Some(u), _) => Json::Unsigned(u),
            (None, Some(i)) => Json::Negative(i),
            (None, None) => Json::Decimal(n.to_string()),
        },
        serde_json::Value::String(t) => Json::Text(t),
        serde_json::Value::Array(a) => Json::Array(a.into_iter().map(from_value).collect()),
        serde_json::Value::Object(m) => Json::Object(m.into_iter().map(|(k, v)| (k, from_value(v))).collect()),
    }
}

/// Changes a [`Json`] into a `serde_json::Value`, variant by variant. Of two
/// members with one name the later is kept.
#[verifier::external_body]
pub(crate) fn to_value(json: &Json) -> serde_json::Value {
    match json {
        Json::Null => serde_json::Value::Null,
        Json::Bool(b) => serde_json::Value::Bool(*b),
        Json::Unsigned(n) => serde_json::Value::from(*n),
        Json::Negative(n) => serde_json::Value::from(*n),
        Json::Decimal(t) => serde_json::from_str(t).unwrap_or(serde_json::Value::Null),
        Json::Text(t) => serde_json::Value::String(t.clone()),
        Json::Array(a) => serde_json::Value::Array(a.iter().map(to_value).collect()),
        Json::Object(m) => serde_json::Value::Object(m.iter().map(|(k, v)| (k.clone(), to_value(v))).collect()),
    }
}

/// Calls `serde_json::from_slice`. What it reads, and the text of its error,
/// are functions of the bytes alone.
#[verifier::external_body]
pub(crate) fn read_json(bytes: &[u8]) -> (r: Result<Json, String>)
    ensures
        match r {
            Ok(document) => json_document(bytes@) == Ok::<JsonView, Seq<char>>(document@),
            Err(text) => json_document(bytes@) == Err::<JsonView, Seq<char>>(text@),
        },
{
    match serde_json::from_slice(bytes) {
        Ok(value) => Ok(from_value(value)),
        Err(error) => Err(error.to_string()),
    }
}

/// The text that `{:?}` gives for a `serde_json::Value`.
pub uninterp spec fn json_debug(document: JsonView) -> Seq<char>;

/// Formats a `serde_json::Value` with `{:?}`. The result is a function of the
/// document alone.
#[verifier::external_body]
pub(crate) fn debug_json(document: &Json) -> (r: String)
    ensures
        r@ == json_debug(document@),
{
    format!("{:?}", to_value(document))
}

/// A TOML value as `toml` reads it.
#[verifier::external_type_specification]
#[verifier::external_body]
pub struct ExDeValue<'i>(DeValue<'i>);

/// A TOML integer as `toml` reads it.
#[verifier::external_type_specification]
#[verifier::external_body]
pub struct ExDeInteger<'i>(DeInteger<'i>);

/// Changes a `toml::de::DeInteger` into a [`Json`]. It is taken as an `i64`, as a
/// `u64`, or else by its text.
#[verifier::external_body]
pub(crate) fn from_toml_integer(n: DeInteger) -> Json {
    match (i64::from_str_radix(n.as_str(), n.radix()), u64::from_str_radix(n.as_str(), n.radix())) {
        (Ok(i), _) => from_value(serde_json::Value::from(i)),
        (_, Ok(u)) => Json::Unsigned(u),
        _ => Json::Decimal(n.to_string()),
    }
}

/// Changes a `toml::de::DeValue` into a [`Json`], variant by variant. A float is
/// taken by its text. A date and time is an object with its text under the one
/// name that `toml` gives to it.
#[verifier::external_body]
pub(crate) fn from_toml(value: DeValue) -> Json {
    match value {
        DeValue::String(t) => Json::Text(t.into_owned()),
        DeValue::Integer(n) => from_toml_integer(n),
        DeValue::Float(x) => Json::Decimal(x.to_string()),
        DeValue::Boolean(b) => Json::Bool(b),
        DeValue::Datetime(d) => Json::Object(
            vec![("$__toml_private_datetime".to_string(), Json::Text(d.to_string()))],
        ),
        DeValue::Array(a) => Json::Array(a.into_iter().map(|v| from_toml(v.into_inner())).collect()),
        DeValue::Table(t) => Json::Object(
            t.into_iter().map(|(k, v)| (k.into_inner().into_owned(), from_toml(v.into_inner()))).collect(),
        ),
    }
}

/// The document that `toml` reads out of a TOML text, or the text of its error.
pub uninterp spec fn toml_document(text: Seq<char>) -> Result<JsonView, Seq<char>>;

/// Calls `toml::from_str` for an `IgnoredAny`, which finds a number that is out of
/// range, and `toml::de::DeTable::parse`. What they read, and the text of their
/// error, are functions of the text alone.
#[verifier::external_body]
pub(crate) fn read_toml(text: &str) -> (r: Result<Json, String>)
    ensures
        match r {
            Ok(document) => toml_document(text@) == Ok::<JsonView, Seq<char>>(document@),
            Err(message) => toml_document(text@) == Err::<JsonView, Seq<char>>(message@),
        },
{
    match toml::from_str::<serde::de::IgnoredAny>(text).and_then(|_| DeTable::parse(text)) {
        Ok(table) => Ok(from_toml(DeValue::Table(table.into_inner()))),
        Err(error) => Err(error.to_string()),
    }
}

/// Calls `serde_json::to_vec`. What it writes is a function of the document
/// alone: the members of an object come out in the order of their names. It
/// does not fail on a `Value`, and `from_slice` reads the same document out of
/// the bytes, unless it is nested too deep or has numbers that are no integers.
#[verifier::external_body]
pub(crate) fn write_json(document: &Json) -> (r: Result<Vec<u8>, String>)
    ensures
        r is Ok,
        r matches Ok(bytes) ==> bytes@ == json_bytes(document@) && (is_plain(
            document@,
            MAX_NESTING as nat,
        ) ==> json_document(bytes@) == Ok::<JsonView, Seq<char>>(document@)),
{
    match serde_json::to_vec(&to_value(document)) {
        Ok(bytes) => Ok(bytes),
        Err(error) => Err(error.to_string()),
    }
}

} // verus!
