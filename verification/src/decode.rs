//! Typed values in JSON documents.
//!
//! A type that has [`FromJson`] says which JSON values stand for it, and one
//! that has [`ToJson`] says which JSON value it is written as. An object may
//! have members that nothing asks for: they are passed over. A struct may also
//! stand as an array of its fields in order.
use vstd::prelude::*;

use crate::json;
use crate::json::Json;
use crate::json::JsonView;
use crate::names;
use crate::names::NameMap;
use crate::text::same;

verus! {

/// An optional value by its view.
pub open spec fn seen<T: View>(value: Option<T>) -> Option<T::V> {
    match value {
        Some(v) => Some(v@),
        None => None,
    }
}

/// The values of a list, each by its view.
pub open spec fn all_seen<T: View>(values: Seq<T>) -> Seq<T::V> {
    values.map_values(|v: T| v@)
}

/// An optional list by the views of its values.
pub open spec fn list_seen<T: View>(values: Option<Vec<T>>) -> Option<Seq<T::V>> {
    match values {
        Some(values) => Some(all_seen(values@)),
        None => None,
    }
}

/// A type whose values can be read out of JSON.
pub trait FromJson: View + Sized {
    /// What a JSON value stands for, if for anything.
    spec fn read(value: JsonView) -> Option<Self::V>;

    /// Reads a value.
    fn from_json(value: &Json) -> (r: Option<Self>)
        ensures
            seen(r) == Self::read(value@),
    ;
}

/// A type whose values can be written as JSON.
pub trait ToJson {
    /// The JSON value that this is written as.
    spec fn written(&self) -> JsonView;

    /// Writes the value.
    fn to_json(&self) -> (r: Json)
        ensures
            r@ == self.written(),
    ;
}

/// What kind of text a document was read from.
#[derive(Debug, Clone, Copy, PartialEq, Eq, Structural)]
pub enum Source {
    Json,
    Toml,
}

/// Values by name, given in the same order as the names.
pub open spec fn zipped(names: Seq<&'static str>, values: Seq<JsonView>) -> Map<Seq<char>, JsonView>
    recommends
        names.len() <= values.len(),
    decreases names.len(),
{
    if names.len() == 0 {
        Map::empty()
    } else {
        let last = names.len() - 1;
        zipped(names.drop_last(), values).insert(names[last]@, values[last])
    }
}

/// A struct with these fields, in order, as an object. A struct may stand as an
/// array with an item for each field; in TOML the array may be longer. Any other
/// value is left as it is.
pub open spec fn record(value: JsonView, names: Seq<&'static str>, source: Source) -> JsonView {
    match value {
        JsonView::Array(items) => if items.len() == names.len() || (source == Source::Toml && items.len()
            > names.len()) {
            JsonView::Object(zipped(names, items))
        } else {
            value
        },
        _ => value,
    }
}

/// The object that an array stands for as a struct with these fields; nothing
/// for any other value.
pub fn array_record(value: &Json, names: &[&'static str], source: Source) -> (r: Option<Json>)
    ensures
        match r {
            Some(object) => object@ == record(value@, names@, source),
            None => value@ == record(value@, names@, source),
        },
{
    let items = match value {
        Json::Array(items) => items,
        _ => return None,
    };
    proof {
        reveal_with_fuel(<Json as View>::view, 2);
    }
    let ghost views = value@->Array_0;
    assert(views.len() == items@.len());
    assert forall|k: int| 0 <= k < items@.len() implies #[trigger] views[k] == items@[k]@ by {}
    let longer = match source {
        Source::Toml => items.len() > names.len(),
        Source::Json => false,
    };
    if items.len() != names.len() && !longer {
        return None;
    }
    let mut object = Json::empty_object();
    assert(names@.take(0) =~= Seq::empty());
    for i in 0..names.len()
        invariant
            names@.len() <= items@.len(),
            views.len() == items@.len(),
            forall|k: int| 0 <= k < items@.len() ==> #[trigger] views[k] == items@[k]@,
            object@ == JsonView::Object(zipped(names@.take(i as int), views)),
    {
        assert(names@.take(i + 1).drop_last() =~= names@.take(i as int));
        object = object.with(names[i], items[i].clone());
    }
    assert(names@.take(names@.len() as int) =~= names@);
    Some(object)
}

/// Whether a value may stand beside the name of a variant that has no fields.
pub open spec fn is_unit(value: JsonView, source: Source) -> bool {
    match (source, value) {
        (Source::Json, JsonView::Null) => true,
        (Source::Toml, JsonView::Array(items)) => items.len() == 0,
        (Source::Toml, JsonView::Object(members)) => members == Map::<Seq<char>, JsonView>::empty(),
        _ => false,
    }
}

/// Whether an object has `name` for its only member, and nothing to speak of
/// under it.
pub open spec fn is_variant(members: Map<Seq<char>, JsonView>, name: Seq<char>, source: Source) -> bool {
    &&& members.contains_key(name)
    &&& forall|other: Seq<char>| #[trigger] members.contains_key(other) ==> other == name
    &&& is_unit(members[name], source)
}

/// The name of the variant that a value stands for, where no variant has fields:
/// a text, or an object with the name for its only member.
pub open spec fn variant(value: JsonView, source: Source) -> Option<Seq<char>> {
    match value {
        JsonView::Text(t) => Some(t),
        JsonView::Object(members) => if exists|name: Seq<char>| is_variant(members, name, source) {
            Some(choose|name: Seq<char>| is_variant(members, name, source))
        } else {
            None
        },
        _ => None,
    }
}

/// Whether a value may stand beside the name of a variant that has no fields.
fn unit_allowed(value: &Json, source: Source) -> (r: bool)
    ensures
        r == is_unit(value@, source),
{
    proof {
        reveal_with_fuel(<Json as View>::view, 2);
    }
    match source {
        Source::Json => match value {
            Json::Null => true,
            _ => false,
        },
        Source::Toml => match value {
            Json::Array(items) => items.len() == 0,
            Json::Object(_) => {
                let found = member_names(value);
                proof {
                    let members = value@->Object_0;
                    if found@.len() == 0 {
                        assert forall|name: Seq<char>| !#[trigger] members.contains_key(name) by {}
                        assert(members =~= Map::empty());
                    } else {
                        assert(among(found@, found@[0]@));
                        assert(members.contains_key(found@[0]@));
                    }
                }
                found.len() == 0
            },
            _ => false,
        },
    }
}

/// The name of the variant that a value stands for, where no variant has fields.
pub fn variant_of(value: &Json, source: Source) -> (r: Option<String>)
    ensures
        seen(r) == variant(value@, source),
{
    match value {
        Json::Text(t) => return Some(t.clone()),
        Json::Object(_) => {},
        _ => return None,
    }
    let found = member_names(value);
    let ghost members = value@->Object_0;
    if found.len() == 0 {
        assert forall|name: Seq<char>| !is_variant(members, name, source) by {
            assert(!members.contains_key(name));
        }
        return None;
    }
    let name = found[0].clone();
    assert(among(found@, name@));
    for i in 0..found.len()
        invariant
            value@ == JsonView::Object(members),
            members.contains_key(name@),
            forall|n: Seq<char>| #[trigger] members.contains_key(n) == among(found@, n),
            forall|k: int| 0 <= k < i ==> #[trigger] found@[k]@ == name@,
    {
        if !same(found[i].as_str(), name.as_str()) {
            proof {
                let other = found@[i as int]@;
                assert(among(found@, other));
                assert forall|n: Seq<char>| !is_variant(members, n, source) by {
                    if is_variant(members, n, source) {
                        assert(members.contains_key(other) && members.contains_key(name@));
                        assert(other == n && name@ == n);
                    }
                }
            }
            return None;
        }
    }
    assert forall|other: Seq<char>| #[trigger] members.contains_key(other) implies other == name@ by {
        let k = choose|k: int| 0 <= k < found@.len() && #[trigger] found@[k]@ == other;
        assert(found@[k]@ == name@);
    }
    match value.get(name.as_str()) {
        Some(v) => {
            if unit_allowed(v, source) {
                proof {
                    assert(is_variant(members, name@, source));
                    let chosen = choose|n: Seq<char>| is_variant(members, n, source);
                    assert(is_variant(members, chosen, source));
                    assert(members.contains_key(chosen));
                }
                Some(name)
            } else {
                assert forall|n: Seq<char>| !is_variant(members, n, source) by {
                    if is_variant(members, n, source) {
                        assert(members.contains_key(n));
                    }
                }
                None
            }
        },
        None => None,
    }
}

/// What a list of JSON values stands for: nothing, if one of them does not
/// stand for a `T`.
pub open spec fn read_items<T: FromJson>(items: Seq<JsonView>) -> Option<Seq<T::V>> {
    if forall|i: int| 0 <= i < items.len() ==> T::read(#[trigger] items[i]) is Some {
        Some(items.map_values(|v: JsonView| T::read(v)->Some_0))
    } else {
        None
    }
}

/// What a JSON array stands for.
pub open spec fn read_list<T: FromJson>(value: JsonView) -> Option<Seq<T::V>> {
    match value {
        JsonView::Array(items) => read_items::<T>(items),
        _ => None,
    }
}

/// What the member `name`, which must be there, stands for.
pub open spec fn read_member<T: FromJson>(value: JsonView, name: Seq<char>) -> Option<T::V> {
    match value.get(name) {
        Some(v) => T::read(v),
        None => None,
    }
}

/// What the member `name`, which may be absent or null, stands for.
pub open spec fn read_optional<T: FromJson>(value: JsonView, name: Seq<char>) -> Option<Option<T::V>> {
    match value.get(name) {
        None => Some(None),
        Some(JsonView::Null) => Some(None),
        Some(v) => match T::read(v) {
            Some(x) => Some(Some(x)),
            None => None,
        },
    }
}

/// What the member `name`, which may be absent, stands for.
pub open spec fn read_default<T: FromJson>(value: JsonView, name: Seq<char>) -> Option<Option<T::V>> {
    match value.get(name) {
        None => Some(None),
        Some(v) => match T::read(v) {
            Some(x) => Some(Some(x)),
            None => None,
        },
    }
}

/// What the members of an object stand for: nothing, if one of them does not
/// stand for a `T`.
pub open spec fn read_names<T: FromJson>(value: JsonView) -> Option<Map<Seq<char>, T::V>> {
    match value {
        JsonView::Object(members) => if forall|name: Seq<char>| #[trigger]
            members.contains_key(name) ==> T::read(members[name]) is Some {
            Some(members.map_values(|v: JsonView| T::read(v)->Some_0))
        } else {
            None
        },
        _ => None,
    }
}

/// What the members of an object stand for, each of them a list.
pub open spec fn read_list_names<T: FromJson>(value: JsonView) -> Option<Map<Seq<char>, Seq<T::V>>> {
    match value {
        JsonView::Object(members) => if forall|name: Seq<char>| #[trigger]
            members.contains_key(name) ==> read_list::<T>(members[name]) is Some {
            Some(members.map_values(|v: JsonView| read_list::<T>(v)->Some_0))
        } else {
            None
        },
        _ => None,
    }
}

/// The values of a map, each by its view.
pub open spec fn map_seen<T: View>(values: Map<Seq<char>, T>) -> Map<Seq<char>, T::V> {
    values.map_values(|v: T| v@)
}

/// The lists of a map, each by the views of its values.
pub open spec fn list_map_seen<T: View>(values: Map<Seq<char>, Vec<T>>) -> Map<Seq<char>, Seq<T::V>> {
    values.map_values(|v: Vec<T>| all_seen(v@))
}

/// What the array under `name`, which must be there, stands for.
pub open spec fn read_list_member<T: FromJson>(value: JsonView, name: Seq<char>) -> Option<Seq<T::V>> {
    match value.get(name) {
        Some(v) => read_list::<T>(v),
        None => None,
    }
}

/// Reads a list.
pub fn list_of<T: FromJson>(value: &Json) -> (r: Option<Vec<T>>)
    ensures
        list_seen(r) == read_list::<T>(value@),
{
    match value {
        Json::Array(items) => {
            let mut list: Vec<T> = Vec::new();
            let ghost views = value@->Array_0;
            proof {
                reveal_with_fuel(<Json as View>::view, 2);
                assert(views.len() == items@.len());
                assert forall|k: int| 0 <= k < items@.len() implies #[trigger] views[k] == items@[k]@ by {}
            }
            for i in 0..items.len()
                invariant
                    value@ == JsonView::Array(views),
                    views.len() == items@.len(),
                    forall|k: int| 0 <= k < items@.len() ==> #[trigger] views[k] == items@[k]@,
                    list@.len() == i,
                    forall|k: int|
                        0 <= k < i ==> T::read(#[trigger] views[k]) == Some(list@[k]@),
            {
                match T::from_json(&items[i]) {
                    Some(v) => {
                        list.push(v);
                    },
                    None => {
                        assert(T::read(views[i as int]) is None);
                        return None;
                    },
                }
            }
            assert(all_seen(list@) =~= read_list::<T>(value@)->Some_0);
            Some(list)
        },
        _ => None,
    }
}

/// Reads the member `name`, which must be there.
pub fn member<T: FromJson>(value: &Json, name: &str) -> (r: Option<T>)
    ensures
        seen(r) == read_member::<T>(value@, name@),
{
    match value.get(name) {
        Some(v) => T::from_json(v),
        None => None,
    }
}

/// Reads the member `name`, which may be absent or null.
pub fn optional_member<T: FromJson>(value: &Json, name: &str) -> (r: Option<Option<T>>)
    ensures
        (match r {
            Some(v) => Some(seen(v)),
            None => None,
        }) == read_optional::<T>(value@, name@),
{
    match value.get(name) {
        None => Some(None),
        Some(Json::Null) => Some(None),
        Some(v) => match T::from_json(v) {
            Some(x) => Some(Some(x)),
            None => None,
        },
    }
}

/// Reads the array under `name`, which must be there.
pub fn list_member<T: FromJson>(value: &Json, name: &str) -> (r: Option<Vec<T>>)
    ensures
        list_seen(r) == read_list_member::<T>(value@, name@),
{
    match value.get(name) {
        Some(v) => list_of::<T>(v),
        None => None,
    }
}

/// Reads the member `name`, which may be absent.
pub fn default_member<T: FromJson>(value: &Json, name: &str) -> (r: Option<Option<T>>)
    ensures
        (match r {
            Some(v) => Some(seen(v)),
            None => None,
        }) == read_default::<T>(value@, name@),
{
    match value.get(name) {
        None => Some(None),
        Some(v) => match T::from_json(v) {
            Some(x) => Some(Some(x)),
            None => None,
        },
    }
}

/// Whether `name` is among `names`.
pub open spec fn among(names: Seq<String>, name: Seq<char>) -> bool {
    exists|i: int| 0 <= i < names.len() && #[trigger] names[i]@ == name
}

proof fn among_push(names: Seq<String>, last: String)
    ensures
        forall|name: Seq<char>| #[trigger]
            among(names.push(last), name) <==> among(names, name) || name == last@,
{
    let more = names.push(last);
    assert(more[names.len() as int]@ == last@);
    assert forall|name: Seq<char>| #[trigger] among(more, name) <==> among(names, name) || name == last@ by {
        if among(names, name) {
            let k = choose|k: int| 0 <= k < names.len() && #[trigger] names[k]@ == name;
            assert(more[k]@ == name);
        }
        if among(more, name) {
            let k = choose|k: int| 0 <= k < more.len() && #[trigger] more[k]@ == name;
            if k < names.len() {
                assert(names[k]@ == name);
            }
        }
    }
}

/// The names of the members of an object; none of any other value.
pub(crate) fn member_names(value: &Json) -> (r: Vec<String>)
    ensures
        value@ matches JsonView::Object(members) ==> forall|name: Seq<char>|
            #[trigger] members.contains_key(name) == among(r@, name),
{
    let mut r: Vec<String> = Vec::new();
    match value {
        Json::Object(members) => {
            proof {
                reveal_with_fuel(json::members_view, 2);
                assert(json::members_view(members@.take(0)) =~= Map::empty());
            }
            let mut i: usize = 0;
            while i < members.len()
                invariant
                    i <= members@.len(),
                    value@ == JsonView::Object(json::members_view(members@)),
                    forall|name: Seq<char>|
                        #[trigger] json::members_view(members@.take(i as int)).contains_key(name) == among(
                            r@,
                            name,
                        ),
                decreases members@.len() - i,
            {
                let name = members[i].0.clone();
                proof {
                    among_push(r@, name);
                    json::members_view_push(
                        members@.take(i as int),
                        members@[i as int].0,
                        members@[i as int].1,
                    );
                    assert(members@.take(i as int).push(members@[i as int]) =~= members@.take(i + 1));
                }
                r.push(name);
                i = i + 1;
            }
            assert(members@.take(members@.len() as int) =~= members@);
        },
        _ => {},
    }
    r
}

/// Reads an object as a map.
pub fn names_of<T: FromJson>(value: &Json) -> (r: Option<NameMap<T>>)
    ensures
        match r {
            Some(m) => read_names::<T>(value@) == Some(map_seen(m@)),
            None => read_names::<T>(value@) is None,
        },
{
    match value {
        Json::Object(_) => {},
        _ => return None,
    }
    let found = member_names(value);
    let ghost members = value@->Object_0;
    let mut m: NameMap<T> = NameMap::new();
    for i in 0..found.len()
        invariant
            value@ == JsonView::Object(members),
            forall|name: Seq<char>| #[trigger] members.contains_key(name) == among(found@, name),
            forall|k: int| 0 <= k < i ==> m@.contains_key(#[trigger] found@[k]@),
            forall|name: Seq<char>| #[trigger]
                m@.contains_key(name) ==> members.contains_key(name) && T::read(members[name]) == Some(
                    m@[name]@,
                ),
    {
        assert(among(found@, found@[i as int]@));
        match member::<T>(value, found[i].as_str()) {
            Some(v) => {
                m.insert(found[i].clone(), v);
            },
            None => {
                return None;
            },
        }
    }
    proof {
        assert forall|name: Seq<char>| #[trigger] members.contains_key(name) implies m@.contains_key(name) by {
            let i = choose|i: int| 0 <= i < found@.len() && #[trigger] found@[i]@ == name;
            assert(m@.contains_key(found@[i]@));
        }
        assert(map_seen(m@) =~= read_names::<T>(value@)->Some_0);
    }
    Some(m)
}

/// Reads an object as a map to lists.
pub fn list_names_of<T: FromJson>(value: &Json) -> (r: Option<NameMap<Vec<T>>>)
    ensures
        match r {
            Some(m) => read_list_names::<T>(value@) == Some(list_map_seen(m@)),
            None => read_list_names::<T>(value@) is None,
        },
{
    match value {
        Json::Object(_) => {},
        _ => return None,
    }
    let found = member_names(value);
    let ghost members = value@->Object_0;
    let mut m: NameMap<Vec<T>> = NameMap::new();
    for i in 0..found.len()
        invariant
            value@ == JsonView::Object(members),
            forall|name: Seq<char>| #[trigger] members.contains_key(name) == among(found@, name),
            forall|k: int| 0 <= k < i ==> m@.contains_key(#[trigger] found@[k]@),
            forall|name: Seq<char>| #[trigger]
                m@.contains_key(name) ==> members.contains_key(name) && read_list::<T>(members[name])
                    == Some(all_seen(m@[name]@)),
    {
        assert(among(found@, found@[i as int]@));
        match list_member::<T>(value, found[i].as_str()) {
            Some(v) => {
                m.insert(found[i].clone(), v);
            },
            None => {
                return None;
            },
        }
    }
    proof {
        assert forall|name: Seq<char>| #[trigger] members.contains_key(name) implies m@.contains_key(name) by {
            let i = choose|i: int| 0 <= i < found@.len() && #[trigger] found@[i]@ == name;
            assert(m@.contains_key(found@[i]@));
        }
        assert(list_map_seen(m@) =~= read_list_names::<T>(value@)->Some_0);
    }
    Some(m)
}

impl FromJson for Json {
    open spec fn read(value: JsonView) -> Option<JsonView> {
        Some(value)
    }

    fn from_json(value: &Json) -> (r: Option<Json>) {
        Some(value.clone())
    }
}

impl FromJson for String {
    open spec fn read(value: JsonView) -> Option<Seq<char>> {
        value.as_text()
    }

    fn from_json(value: &Json) -> (r: Option<String>) {
        match value.as_str() {
            Some(t) => Some(t.to_string()),
            None => None,
        }
    }
}

impl FromJson for bool {
    open spec fn read(value: JsonView) -> Option<bool> {
        value.as_bool()
    }

    fn from_json(value: &Json) -> (r: Option<bool>) {
        value.as_bool()
    }
}

/// The integer, if it is one from 0 to `limit`.
pub open spec fn up_to(value: JsonView, limit: int) -> Option<u64> {
    match value.as_u64() {
        Some(n) => if n <= limit {
            Some(n)
        } else {
            None
        },
        None => None,
    }
}

impl FromJson for u8 {
    open spec fn read(value: JsonView) -> Option<u8> {
        match up_to(value, 255) {
            Some(n) => Some(n as u8),
            None => None,
        }
    }

    fn from_json(value: &Json) -> (r: Option<u8>) {
        match value.as_u64() {
            Some(n) => if n <= 255 {
                Some(n as u8)
            } else {
                None
            },
            None => None,
        }
    }
}

impl FromJson for u16 {
    open spec fn read(value: JsonView) -> Option<u16> {
        match up_to(value, 65535) {
            Some(n) => Some(n as u16),
            None => None,
        }
    }

    fn from_json(value: &Json) -> (r: Option<u16>) {
        match value.as_u64() {
            Some(n) => if n <= 65535 {
                Some(n as u16)
            } else {
                None
            },
            None => None,
        }
    }
}

impl FromJson for u32 {
    open spec fn read(value: JsonView) -> Option<u32> {
        match up_to(value, 4294967295) {
            Some(n) => Some(n as u32),
            None => None,
        }
    }

    fn from_json(value: &Json) -> (r: Option<u32>) {
        match value.as_u64() {
            Some(n) => if n <= 4294967295 {
                Some(n as u32)
            } else {
                None
            },
            None => None,
        }
    }
}

impl FromJson for u64 {
    open spec fn read(value: JsonView) -> Option<u64> {
        value.as_u64()
    }

    fn from_json(value: &Json) -> (r: Option<u64>) {
        value.as_u64()
    }
}

impl FromJson for i64 {
    open spec fn read(value: JsonView) -> Option<i64> {
        match value {
            JsonView::Unsigned(n) => if n <= i64::MAX {
                Some(n as i64)
            } else {
                None
            },
            JsonView::Negative(n) => Some(n),
            _ => None,
        }
    }

    fn from_json(value: &Json) -> (r: Option<i64>) {
        match value {
            Json::Unsigned(n) => if *n <= 9223372036854775807 {
                Some(*n as i64)
            } else {
                None
            },
            Json::Negative(n) => Some(*n),
            _ => None,
        }
    }
}

/// A signed integer as JSON.
pub open spec fn signed(n: i64) -> JsonView {
    if n >= 0 {
        JsonView::Unsigned(n as u64)
    } else {
        JsonView::Negative(n)
    }
}

impl ToJson for i64 {
    open spec fn written(&self) -> JsonView {
        signed(*self)
    }

    fn to_json(&self) -> (r: Json) {
        if *self >= 0 {
            Json::Unsigned(*self as u64)
        } else {
            Json::Negative(*self)
        }
    }
}

impl ToJson for Json {
    open spec fn written(&self) -> JsonView {
        self@
    }

    fn to_json(&self) -> (r: Json) {
        self.clone()
    }
}

impl ToJson for String {
    open spec fn written(&self) -> JsonView {
        JsonView::Text(self@)
    }

    fn to_json(&self) -> (r: Json) {
        Json::text(self.as_str())
    }
}

impl<T: ToJson> ToJson for Option<T> {
    open spec fn written(&self) -> JsonView {
        match self {
            Some(v) => v.written(),
            None => JsonView::Null,
        }
    }

    fn to_json(&self) -> (r: Json) {
        match self {
            Some(v) => v.to_json(),
            None => Json::Null,
        }
    }
}

impl ToJson for bool {
    open spec fn written(&self) -> JsonView {
        JsonView::Bool(*self)
    }

    fn to_json(&self) -> (r: Json) {
        Json::Bool(*self)
    }
}

impl ToJson for u8 {
    open spec fn written(&self) -> JsonView {
        JsonView::Unsigned(*self as u64)
    }

    fn to_json(&self) -> (r: Json) {
        Json::Unsigned(*self as u64)
    }
}

impl ToJson for u32 {
    open spec fn written(&self) -> JsonView {
        JsonView::Unsigned(*self as u64)
    }

    fn to_json(&self) -> (r: Json) {
        Json::Unsigned(*self as u64)
    }
}

/// A list as JSON.
pub open spec fn list_written<T: ToJson>(items: Seq<T>) -> JsonView {
    JsonView::Array(items.map_values(|v: T| v.written()))
}

/// Writes a list.
pub fn list_to_json<T: ToJson>(items: &Vec<T>) -> (r: Json)
    ensures
        r@ == list_written(items@),
{
    let mut list: Vec<Json> = Vec::new();
    for i in 0..items.len()
        invariant
            list@.len() == i,
            forall|k: int| 0 <= k < i ==> (#[trigger] list@[k])@ == items@[k].written(),
    {
        list.push(items[i].to_json());
    }
    let r = Json::Array(list);
    proof {
        reveal_with_fuel(<Json as View>::view, 2);
        assert(r@->Array_0 =~= list_written(items@)->Array_0);
    }
    r
}

impl<T: ToJson> ToJson for Vec<T> {
    open spec fn written(&self) -> JsonView {
        list_written(self@)
    }

    fn to_json(&self) -> (r: Json) {
        list_to_json(self)
    }
}

/// A map as JSON.
pub open spec fn names_written<T: ToJson>(values: Map<Seq<char>, T>) -> JsonView {
    JsonView::Object(values.map_values(|v: T| v.written()))
}

/// Writes a map.
pub fn names_to_json<T: ToJson>(values: &NameMap<T>) -> (r: Json)
    ensures
        r@ == names_written(values@),
{
    values.note_distinct();
    let ghost entries = values.entries();
    let n: usize = values.len();
    let mut members: Vec<(String, Json)> = Vec::new();
    proof {
        reveal_with_fuel(json::members_view, 2);
        assert(names::by_name(entries.take(0)) =~= Map::empty());
        assert(json::members_view(members@) =~= Map::empty());
        assert(names_written(names::by_name(entries.take(0)))->Object_0 =~= Map::empty());
    }
    for i in 0..n
        invariant
            entries == values.entries(),
            n == entries.len(),
            names::distinct_names(entries),
            JsonView::Object(json::members_view(members@)) == names_written(
                names::by_name(entries.take(i as int)),
            ),
    {
        let (name, value) = values.entry(i);
        let name = name.to_string();
        let value = value.to_json();
        proof {
            json::members_view_push(members@, name, value);
            let before = entries.take(i as int);
            let entry = entries[i as int];
            assert(!names::has_name(before, entry.0@)) by {
                if names::has_name(before, entry.0@) {
                    let k = names::place(before, entry.0@);
                    assert(entries[k].0@ == entry.0@);
                }
            }
            names::by_name_push(before, entry.0, entry.1);
            assert(before.push(entry) =~= entries.take(i + 1));
            assert(names_written(names::by_name(before).insert(entry.0@, entry.1))->Object_0
                =~= names_written(names::by_name(before))->Object_0.insert(entry.0@, entry.1.written()));
        }
        members.push((name, value));
    }
    assert(entries.take(n as int) =~= entries);
    Json::Object(members)
}

/// A map of texts is read back as it was written.
pub proof fn texts_round_trip(values: Map<Seq<char>, String>)
    ensures
        read_names::<String>(names_written(values)) == Some(map_seen(values)),
{
    let members = names_written(values)->Object_0;
    assert forall|name: Seq<char>| #[trigger] members.contains_key(name) implies String::read(
        members[name],
    ) == Some(values[name]@) by {}
    assert(read_names::<String>(names_written(values))->Some_0 =~= map_seen(values));
}

/// A list is read back as it was written, if each of its values is.
pub proof fn list_round_trip<T: FromJson + ToJson>(values: Seq<T>)
    requires
        forall|i: int|
            0 <= i < values.len() ==> T::read((#[trigger] values[i]).written()) == Some(values[i]@),
    ensures
        read_list::<T>(list_written(values)) == Some(all_seen(values)),
{
    let items = list_written(values)->Array_0;
    assert forall|i: int| 0 <= i < items.len() implies T::read(#[trigger] items[i]) == Some(
        values[i]@,
    ) by {
        assert(items[i] == values[i].written());
    }
    assert(read_list::<T>(list_written(values))->Some_0 =~= all_seen(values));
}

/// A map of lists of texts is read back as it was written.
pub proof fn text_lists_round_trip(values: Map<Seq<char>, Vec<String>>)
    ensures
        read_list_names::<String>(names_written(values)) == Some(list_map_seen(values)),
{
    let members = names_written(values)->Object_0;
    assert forall|name: Seq<char>| #[trigger] members.contains_key(name) implies read_list::<String>(
        members[name],
    ) == Some(all_seen(values[name]@)) by {
        list_round_trip(values[name]@);
    }
    assert(read_list_names::<String>(names_written(values))->Some_0 =~= list_map_seen(values));
}

} // verus!
