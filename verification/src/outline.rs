//! The outermost level of a JSON text.
//!
//! A reply is read field by field: a field that is asked for stands in it once,
//! and one that is not is passed over, whatever its value is. So the text of an
//! object or an array is taken apart into the texts of its values, and only
//! those that are asked for are read as documents. How far a value goes, and
//! what it holds, is left to `serde_json`.
use vstd::prelude::*;
use vstd::slice::slice_subrange;
use vstd::slice::slice_to_vec;

use crate::decode;
use crate::decode::FromJson;
use crate::json;
use crate::json::read_json;
use crate::json::Json;
use crate::json::JsonView;
use crate::text::same;

verus! {

/// How many bytes at the start of a text `serde_json` skips over as one JSON
/// value, with the blanks before it; nothing where there is no value.
pub uninterp spec fn json_extent(bytes: Seq<u8>) -> Option<nat>;

/// Calls `next` of `serde_json::StreamDeserializer` for an
/// `serde::de::IgnoredAny`, and `byte_offset`. Where the value ends is a function
/// of the bytes alone. It has a byte at least, and does not go beyond the text.
#[verifier::external_body]
fn skip_value(bytes: &[u8]) -> (r: Option<usize>)
    ensures
        match r {
            Some(n) => json_extent(bytes@) == Some(n as nat) && 0 < n <= bytes@.len(),
            None => json_extent(bytes@) is None,
        },
{
    let mut values = serde_json::Deserializer::from_slice(bytes).into_iter::<serde::de::IgnoredAny>();
    match values.next() {
        Some(Ok(_)) => Some(values.byte_offset()),
        _ => None,
    }
}

/// The byte that begins and ends a text.
pub const QUOTE: u8 = 34;

/// The byte that stands between two values or members.
pub const COMMA: u8 = 44;

/// The byte that stands between a name and its value.
pub const COLON: u8 = 58;

/// The byte that begins an array.
pub const OPEN_BRACKET: u8 = 91;

/// The byte that ends an array.
pub const CLOSE_BRACKET: u8 = 93;

/// The byte that begins an object.
pub const OPEN_BRACE: u8 = 123;

/// The byte that ends an object.
pub const CLOSE_BRACE: u8 = 125;

/// Whether a byte may stand between two tokens.
pub open spec fn is_blank(b: u8) -> bool {
    b == 32 || b == 10 || b == 9 || b == 13
}

/// The text without the blanks that it starts with.
pub open spec fn trimmed(bytes: Seq<u8>) -> Seq<u8>
    decreases bytes.len(),
{
    if bytes.len() > 0 && is_blank(bytes[0]) {
        trimmed(bytes.skip(1))
    } else {
        bytes
    }
}

/// Dropping blanks makes no text longer.
pub proof fn trimmed_is_no_longer(bytes: Seq<u8>)
    ensures
        trimmed(bytes).len() <= bytes.len(),
    decreases bytes.len(),
{
    if bytes.len() > 0 && is_blank(bytes[0]) {
        trimmed_is_no_longer(bytes.skip(1));
    }
}

/// Drops the blanks that a text starts with.
fn trim(bytes: &[u8]) -> (r: &[u8])
    ensures
        r@ == trimmed(bytes@),
        r@.len() <= bytes@.len(),
{
    let mut i: usize = 0;
    assert(bytes@.skip(0) =~= bytes@);
    while i < bytes.len() && (bytes[i] == 32 || bytes[i] == 10 || bytes[i] == 9 || bytes[i] == 13)
        invariant
            i <= bytes@.len(),
            trimmed(bytes@.skip(i as int)) == trimmed(bytes@),
        decreases bytes@.len() - i,
    {
        assert(bytes@.skip(i as int).skip(1) =~= bytes@.skip(i + 1));
        i = i + 1;
    }
    proof {
        trimmed_is_no_longer(bytes@);
        assert(bytes@.skip(i as int) =~= bytes@.subrange(i as int, bytes@.len() as int));
    }
    slice_subrange(bytes, i, bytes.len())
}

/// The text without its first `n` bytes.
fn after(bytes: &[u8], n: usize) -> (r: &[u8])
    requires
        n <= bytes@.len(),
    ensures
        r@ == bytes@.skip(n as int),
{
    assert(bytes@.skip(n as int) =~= bytes@.subrange(n as int, bytes@.len() as int));
    slice_subrange(bytes, n, bytes.len())
}

/// The value at the start of a text, and what follows it.
pub open spec fn first_value(bytes: Seq<u8>) -> Option<(Seq<u8>, Seq<u8>)> {
    match json_extent(bytes) {
        Some(n) => if 0 < n <= bytes.len() {
            Some((bytes.take(n as int), bytes.skip(n as int)))
        } else {
            None
        },
        None => None,
    }
}

fn split_value<'a>(bytes: &'a [u8]) -> (r: Option<(&'a [u8], &'a [u8])>)
    ensures
        match r {
            Some((value, rest)) => first_value(bytes@) == Some((value@, rest@)) && rest@.len() < bytes@.len(),
            None => first_value(bytes@) is None,
        },
{
    match skip_value(bytes) {
        Some(n) => {
            assert(bytes@.take(n as int) =~= bytes@.subrange(0, n as int));
            Some((slice_subrange(bytes, 0, n), after(bytes, n)))
        },
        None => None,
    }
}

/// The values of an array from one of them on, and what follows the array.
pub open spec fn items_from(bytes: Seq<u8>) -> Option<(Seq<Seq<u8>>, Seq<u8>)>
    decreases bytes.len(),
{
    match first_value(bytes) {
        Some((value, rest)) => {
            proof {
                trimmed_is_no_longer(rest);
            }
            let rest = trimmed(rest);
            if rest.len() > 0 && rest[0] == CLOSE_BRACKET {
                Some((seq![value], rest.skip(1)))
            } else if rest.len() > 0 && rest[0] == COMMA {
                match items_from(rest.skip(1)) {
                    Some((more, end)) => Some((seq![value] + more, end)),
                    None => None,
                }
            } else {
                None
            }
        },
        None => None,
    }
}

/// A name, the value under it, and what follows the two.
pub open spec fn first_member(bytes: Seq<u8>) -> Option<((Seq<char>, Seq<u8>), Seq<u8>)> {
    let bytes = trimmed(bytes);
    if bytes.len() > 0 && bytes[0] == QUOTE {
        match first_value(bytes) {
            Some((name, rest)) => match json::json_document(name) {
                Ok(JsonView::Text(name)) => {
                    let rest = trimmed(rest);
                    if rest.len() > 0 && rest[0] == COLON {
                        match first_value(rest.skip(1)) {
                            Some((value, rest)) => Some(((name, value), rest)),
                            None => None,
                        }
                    } else {
                        None
                    }
                },
                _ => None,
            },
            None => None,
        }
    } else {
        None
    }
}

/// What follows a member is shorter than the text.
pub proof fn first_member_is_shorter(bytes: Seq<u8>)
    ensures
        first_member(bytes) matches Some((_, rest)) ==> rest.len() < bytes.len(),
{
    trimmed_is_no_longer(bytes);
    match first_value(trimmed(bytes)) {
        Some((_, rest)) => trimmed_is_no_longer(rest),
        None => {},
    }
}

/// The members of an object from one of them on, and what follows the object.
pub open spec fn members_from(bytes: Seq<u8>) -> Option<(Seq<(Seq<char>, Seq<u8>)>, Seq<u8>)>
    decreases bytes.len(),
{
    match first_member(bytes) {
        Some((member, rest)) => {
            proof {
                first_member_is_shorter(bytes);
                trimmed_is_no_longer(rest);
            }
            let rest = trimmed(rest);
            if rest.len() > 0 && rest[0] == CLOSE_BRACE {
                Some((seq![member], rest.skip(1)))
            } else if rest.len() > 0 && rest[0] == COMMA {
                match members_from(rest.skip(1)) {
                    Some((more, end)) => Some((seq![member] + more, end)),
                    None => None,
                }
            } else {
                None
            }
        },
        None => None,
    }
}

/// The parts of an array or an object, each by its text.
pub enum Outline<'a> {
    Items(Vec<&'a [u8]>),
    Members(Vec<(String, &'a [u8])>),
}

/// What the parts are. A name may occur more than once.
pub enum OutlineView {
    Items(Seq<Seq<u8>>),
    Members(Seq<(Seq<char>, Seq<u8>)>),
}

/// Texts by what they hold.
pub open spec fn item_views(items: Seq<&[u8]>) -> Seq<Seq<u8>> {
    items.map_values(|t: &[u8]| t@)
}

/// Members by what they hold.
pub open spec fn member_views(members: Seq<(String, &[u8])>) -> Seq<(Seq<char>, Seq<u8>)> {
    members.map_values(|m: (String, &[u8])| (m.0@, m.1@))
}

impl<'a> View for Outline<'a> {
    type V = OutlineView;

    open spec fn view(&self) -> OutlineView {
        match self {
            Outline::Items(items) => OutlineView::Items(item_views(items@)),
            Outline::Members(members) => OutlineView::Members(member_views(members@)),
        }
    }
}

/// The parts of the array or the object at the start of a text, and what
/// follows it.
pub open spec fn first_outline(bytes: Seq<u8>) -> Option<(OutlineView, Seq<u8>)> {
    let bytes = trimmed(bytes);
    if bytes.len() > 0 && bytes[0] == OPEN_BRACKET {
        let rest = trimmed(bytes.skip(1));
        if rest.len() > 0 && rest[0] == CLOSE_BRACKET {
            Some((OutlineView::Items(Seq::empty()), rest.skip(1)))
        } else {
            match items_from(rest) {
                Some((items, end)) => Some((OutlineView::Items(items), end)),
                None => None,
            }
        }
    } else if bytes.len() > 0 && bytes[0] == OPEN_BRACE {
        let rest = trimmed(bytes.skip(1));
        if rest.len() > 0 && rest[0] == CLOSE_BRACE {
            Some((OutlineView::Members(Seq::empty()), rest.skip(1)))
        } else {
            match members_from(rest) {
                Some((members, end)) => Some((OutlineView::Members(members), end)),
                None => None,
            }
        }
    } else {
        None
    }
}

/// The parts of the array or the object that a text is.
pub open spec fn outline(bytes: Seq<u8>) -> Option<OutlineView> {
    match first_outline(bytes) {
        Some((outline, end)) => if trimmed(end).len() == 0 {
            Some(outline)
        } else {
            None
        },
        None => None,
    }
}

/// Takes the values of an array apart, from one of them on.
fn split_items<'a>(bytes: &'a [u8]) -> (r: Option<(Vec<&'a [u8]>, &'a [u8])>)
    ensures
        match r {
            Some((items, end)) => items_from(bytes@) == Some((item_views(items@), end@)),
            None => items_from(bytes@) is None,
        },
{
    let mut items: Vec<&'a [u8]> = Vec::new();
    let mut rest = bytes;
    assert(item_views(items@) =~= Seq::empty());
    assert(items_from(rest@) matches Some((more, _)) ==> item_views(items@) + more =~= more);
    loop
        invariant
            items_from(bytes@) == (match items_from(rest@) {
                Some((more, end)) => Some((item_views(items@) + more, end)),
                None => None,
            }),
        decreases rest@.len(),
    {
        let (value, next) = match split_value(rest) {
            Some(split) => split,
            None => return None,
        };
        let next = trim(next);
        if next.len() == 0 {
            return None;
        }
        let ghost before = item_views(items@);
        items.push(value);
        assert(item_views(items@) =~= before + seq![value@]);
        if next[0] == CLOSE_BRACKET {
            return Some((items, after(next, 1)));
        }
        if next[0] != COMMA {
            return None;
        }
        let next = after(next, 1);
        assert(items_from(next@) matches Some((more, _)) ==> before + (seq![value@] + more) =~= item_views(
            items@,
        ) + more);
        rest = next;
    }
}

/// Takes a member apart.
fn split_member<'a>(bytes: &'a [u8]) -> (r: Option<(String, &'a [u8], &'a [u8])>)
    ensures
        match r {
            Some((name, value, rest)) => first_member(bytes@) == Some(((name@, value@), rest@))
                && rest@.len() < bytes@.len(),
            None => first_member(bytes@) is None,
        },
{
    let bytes = trim(bytes);
    if bytes.len() == 0 || bytes[0] != QUOTE {
        return None;
    }
    let (name, rest) = match split_value(bytes) {
        Some(split) => split,
        None => return None,
    };
    let name = match read_json(name) {
        Ok(Json::Text(name)) => name,
        _ => return None,
    };
    let rest = trim(rest);
    if rest.len() == 0 || rest[0] != COLON {
        return None;
    }
    match split_value(after(rest, 1)) {
        Some((value, rest)) => Some((name, value, rest)),
        None => None,
    }
}

/// Takes the members of an object apart, from one of them on.
fn split_members<'a>(bytes: &'a [u8]) -> (r: Option<(Vec<(String, &'a [u8])>, &'a [u8])>)
    ensures
        match r {
            Some((members, end)) => members_from(bytes@) == Some((member_views(members@), end@)),
            None => members_from(bytes@) is None,
        },
{
    let mut members: Vec<(String, &'a [u8])> = Vec::new();
    let mut rest = bytes;
    assert(member_views(members@) =~= Seq::empty());
    assert(members_from(rest@) matches Some((more, _)) ==> member_views(members@) + more =~= more);
    loop
        invariant
            members_from(bytes@) == (match members_from(rest@) {
                Some((more, end)) => Some((member_views(members@) + more, end)),
                None => None,
            }),
        decreases rest@.len(),
    {
        let (name, value, next) = match split_member(rest) {
            Some(split) => split,
            None => return None,
        };
        let next = trim(next);
        if next.len() == 0 {
            return None;
        }
        let ghost before = member_views(members@);
        let ghost member = (name@, value@);
        members.push((name, value));
        assert(member_views(members@) =~= before + seq![member]);
        if next[0] == CLOSE_BRACE {
            return Some((members, after(next, 1)));
        }
        if next[0] != COMMA {
            return None;
        }
        let next = after(next, 1);
        assert(members_from(next@) matches Some((more, _)) ==> before + (seq![member] + more)
            =~= member_views(members@) + more);
        rest = next;
    }
}

/// Takes the array or the object at the start of a text apart.
fn split_outline<'a>(bytes: &'a [u8]) -> (r: Option<(Outline<'a>, &'a [u8])>)
    ensures
        match r {
            Some((outline, end)) => first_outline(bytes@) == Some((outline@, end@)),
            None => first_outline(bytes@) is None,
        },
{
    let bytes = trim(bytes);
    if bytes.len() == 0 {
        return None;
    }
    if bytes[0] == OPEN_BRACKET {
        let rest = trim(after(bytes, 1));
        if rest.len() > 0 && rest[0] == CLOSE_BRACKET {
            let items: Vec<&'a [u8]> = Vec::new();
            assert(item_views(items@) =~= Seq::empty());
            return Some((Outline::Items(items), after(rest, 1)));
        }
        match split_items(rest) {
            Some((items, end)) => Some((Outline::Items(items), end)),
            None => None,
        }
    } else if bytes[0] == OPEN_BRACE {
        let rest = trim(after(bytes, 1));
        if rest.len() > 0 && rest[0] == CLOSE_BRACE {
            let members: Vec<(String, &'a [u8])> = Vec::new();
            assert(member_views(members@) =~= Seq::empty());
            return Some((Outline::Members(members), after(rest, 1)));
        }
        match split_members(rest) {
            Some((members, end)) => Some((Outline::Members(members), end)),
            None => None,
        }
    } else {
        None
    }
}

/// Takes the array or the object that a text is apart.
pub fn outline_of<'a>(bytes: &'a [u8]) -> (r: Option<Outline<'a>>)
    ensures
        decode::seen(r) == outline(bytes@),
{
    match split_outline(bytes) {
        Some((outline, end)) => if trim(end).len() == 0 {
            Some(outline)
        } else {
            None
        },
        None => None,
    }
}

/// The values under a name, which has two forms, in their order.
pub open spec fn values_under(
    members: Seq<(Seq<char>, Seq<u8>)>,
    name: Seq<char>,
    other: Seq<char>,
) -> Seq<Seq<u8>>
    decreases members.len(),
{
    if members.len() == 0 {
        Seq::empty()
    } else {
        let before = values_under(members.drop_last(), name, other);
        if members.last().0 == name || members.last().0 == other {
            before.push(members.last().1)
        } else {
            before
        }
    }
}

impl OutlineView {
    /// The values given for a field of a struct: those under its name, which has
    /// two forms, in an object, and that in its place in an array that has an
    /// item for each of the `count` fields.
    pub open spec fn values(self, name: Seq<char>, other: Seq<char>, place: int, count: int) -> Seq<
        Seq<u8>,
    > {
        match self {
            OutlineView::Items(items) => if items.len() == count && 0 <= place < count {
                seq![items[place]]
            } else {
                Seq::empty()
            },
            OutlineView::Members(members) => values_under(members, name, other),
        }
    }

    /// The value of a field that must be there, and only once.
    pub open spec fn field(self, name: Seq<char>, place: int, count: int) -> Option<Seq<u8>> {
        self.field_or(name, name, place, count)
    }

    /// The value of a field whose name has two forms, and that must be there
    /// once in the one or the other.
    pub open spec fn field_or(self, name: Seq<char>, other: Seq<char>, place: int, count: int) -> Option<
        Seq<u8>,
    > {
        let values = self.values(name, other, place, count);
        if values.len() == 1 {
            Some(values[0])
        } else {
            None
        }
    }
}

impl<'a> Outline<'a> {
    /// The values given for a field of a struct.
    pub fn values(&self, name: &str, other: &str, place: usize, count: usize) -> (r: Vec<&'a [u8]>)
        ensures
            item_views(r@) == self@.values(name@, other@, place as int, count as int),
    {
        let mut r: Vec<&'a [u8]> = Vec::new();
        assert(item_views(r@) =~= Seq::empty());
        match self {
            Outline::Items(items) => {
                if items.len() == count && place < count {
                    r.push(items[place]);
                    assert(item_views(r@) =~= seq![items@[place as int]@]);
                }
            },
            Outline::Members(members) => {
                let ghost views = member_views(members@);
                assert(views.take(0) =~= Seq::empty());
                for i in 0..members.len()
                    invariant
                        views == member_views(members@),
                        item_views(r@) == values_under(views.take(i as int), name@, other@),
                {
                    assert(views.take(i + 1).drop_last() =~= views.take(i as int));
                    if same(members[i].0.as_str(), name) || same(members[i].0.as_str(), other) {
                        let ghost before = item_views(r@);
                        r.push(members[i].1);
                        assert(item_views(r@) =~= before.push(members@[i as int].1@));
                    }
                }
                assert(views.take(members@.len() as int) =~= views);
            },
        }
        r
    }

    /// The value of a field that must be there, and only once.
    pub fn field(&self, name: &str, place: usize, count: usize) -> (r: Option<&'a [u8]>)
        ensures
            match r {
                Some(value) => self@.field(name@, place as int, count as int) == Some(value@),
                None => self@.field(name@, place as int, count as int) is None,
            },
    {
        self.field_or(name, name, place, count)
    }

    /// The value of a field whose name has two forms, and that must be there
    /// once in the one or the other.
    pub fn field_or(&self, name: &str, other: &str, place: usize, count: usize) -> (r: Option<&'a [u8]>)
        ensures
            match r {
                Some(value) => self@.field_or(name@, other@, place as int, count as int) == Some(value@),
                None => self@.field_or(name@, other@, place as int, count as int) is None,
            },
    {
        let values = self.values(name, other, place, count);
        if values.len() == 1 {
            Some(values[0])
        } else {
            None
        }
    }
}

/// A type whose values can be read out of a JSON text, field by field.
pub trait FromText: View + Sized {
    /// What a text stands for, if for anything.
    spec fn read_text(bytes: Seq<u8>) -> Option<Self::V>;

    /// Reads a value.
    fn from_text(bytes: &[u8]) -> (r: Option<Self>)
        ensures
            decode::seen(r) == Self::read_text(bytes@),
    ;
}

/// What the values of an array stand for: nothing, if one of them does not stand
/// for a `T`.
pub open spec fn values_read<T: FromText>(items: Seq<Seq<u8>>) -> Option<Seq<T::V>> {
    if forall|i: int| 0 <= i < items.len() ==> T::read_text(#[trigger] items[i]) is Some {
        Some(items.map_values(|t: Seq<u8>| T::read_text(t)->Some_0))
    } else {
        None
    }
}

/// What an array stands for.
pub open spec fn list_read<T: FromText>(bytes: Seq<u8>) -> Option<Seq<T::V>> {
    match outline(bytes) {
        Some(OutlineView::Items(items)) => values_read::<T>(items),
        _ => None,
    }
}

/// Reads an array.
pub fn list_from_text<T: FromText>(bytes: &[u8]) -> (r: Option<Vec<T>>)
    ensures
        decode::list_seen(r) == list_read::<T>(bytes@),
{
    let items = match outline_of(bytes) {
        Some(Outline::Items(items)) => items,
        _ => return None,
    };
    let ghost views = item_views(items@);
    let mut list: Vec<T> = Vec::new();
    for i in 0..items.len()
        invariant
            views == item_views(items@),
            list_read::<T>(bytes@) == values_read::<T>(views),
            list@.len() == i,
            forall|k: int| 0 <= k < i ==> T::read_text(#[trigger] views[k]) == Some(list@[k]@),
    {
        match T::from_text(items[i]) {
            Some(value) => {
                list.push(value);
            },
            None => {
                assert(T::read_text(views[i as int]) is None);
                return None;
            },
        }
    }
    assert(decode::all_seen(list@) =~= values_read::<T>(views)->Some_0);
    Some(list)
}

/// What a text stands for.
pub open spec fn value_of<T: FromJson>(bytes: Seq<u8>) -> Option<T::V> {
    match json::json_document(bytes) {
        Ok(document) => T::read(document),
        Err(_) => None,
    }
}

/// Reads a value out of a text.
pub fn read_text<T: FromJson>(bytes: &[u8]) -> (r: Option<T>)
    ensures
        decode::seen(r) == value_of::<T>(bytes@),
{
    match read_json(bytes) {
        Ok(document) => T::from_json(&document),
        Err(_) => None,
    }
}

/// What the field `name`, which must be there once, stands for.
pub open spec fn field_value<T: FromJson>(outline: OutlineView, name: Seq<char>, place: int, count: int) -> Option<
    T::V,
> {
    match outline.field(name, place, count) {
        Some(bytes) => value_of::<T>(bytes),
        None => None,
    }
}

/// Reads the field `name`, which must be there once.
pub fn read_field<T: FromJson>(outline: &Outline, name: &str, place: usize, count: usize) -> (r: Option<T>)
    ensures
        decode::seen(r) == field_value::<T>(outline@, name@, place as int, count as int),
{
    match outline.field(name, place, count) {
        Some(bytes) => read_text::<T>(bytes),
        None => None,
    }
}

/// What the field `name`, which may be absent or null, but not twice there,
/// stands for.
pub open spec fn optional_field_value<T: FromJson>(
    outline: OutlineView,
    name: Seq<char>,
    place: int,
    count: int,
) -> Option<Option<T::V>> {
    let values = outline.values(name, name, place, count);
    if values.len() == 0 {
        Some(None)
    } else if values.len() > 1 {
        None
    } else {
        match json::json_document(values[0]) {
            Ok(JsonView::Null) => Some(None),
            Ok(document) => match T::read(document) {
                Some(value) => Some(Some(value)),
                None => None,
            },
            Err(_) => None,
        }
    }
}

/// Reads the field `name`, which may be absent or null, but not twice there.
pub fn read_optional_field<T: FromJson>(outline: &Outline, name: &str, place: usize, count: usize) -> (r: Option<
    Option<T>,
>)
    ensures
        (match r {
            Some(v) => Some(decode::seen(v)),
            None => None,
        }) == optional_field_value::<T>(outline@, name@, place as int, count as int),
{
    let values = outline.values(name, name, place, count);
    if values.len() == 0 {
        return Some(None);
    }
    if values.len() > 1 {
        return None;
    }
    match read_json(values[0]) {
        Ok(Json::Null) => Some(None),
        Ok(document) => match T::from_json(&document) {
            Some(value) => Some(Some(value)),
            None => None,
        },
        Err(_) => None,
    }
}

/// A text as the only value in as many arrays, one in the other.
pub open spec fn wrapped(bytes: Seq<u8>, levels: nat) -> Seq<u8>
    decreases levels,
{
    if levels == 0 {
        bytes
    } else {
        seq![OPEN_BRACKET] + wrapped(bytes, (levels - 1) as nat) + seq![CLOSE_BRACKET]
    }
}

/// What stands as the only value in as many arrays, one in the other.
pub open spec fn unwrapped(document: JsonView, levels: nat) -> Option<JsonView>
    decreases levels,
{
    if levels == 0 {
        Some(document)
    } else {
        match document {
            JsonView::Array(items) => if items.len() == 1 {
                unwrapped(items[0], (levels - 1) as nat)
            } else {
                None
            },
            _ => None,
        }
    }
}

/// The document that a text is, where it stands at this level of a larger text:
/// the levels above it count for how deep it may be nested.
pub open spec fn document_below(bytes: Seq<u8>, levels: nat) -> Option<JsonView> {
    match json::json_document(wrapped(bytes, levels)) {
        Ok(document) => unwrapped(document, levels),
        Err(_) => None,
    }
}

fn wrap(bytes: &[u8], levels: u8) -> (r: Vec<u8>)
    ensures
        r@ == wrapped(bytes@, levels as nat),
    decreases levels,
{
    if levels == 0 {
        return slice_to_vec(bytes);
    }
    let inner = wrap(bytes, levels - 1);
    let mut r: Vec<u8> = vec![OPEN_BRACKET];
    let mut inner = inner;
    let ghost within = inner@;
    r.append(&mut inner);
    r.push(CLOSE_BRACKET);
    assert(r@ =~= seq![OPEN_BRACKET] + within + seq![CLOSE_BRACKET]);
    r
}

fn unwrap_arrays(document: Json, levels: u8) -> (r: Option<Json>)
    ensures
        decode::seen(r) == unwrapped(document@, levels as nat),
    decreases levels,
{
    if levels == 0 {
        return Some(document);
    }
    proof {
        reveal_with_fuel(<Json as View>::view, 2);
    }
    match document {
        Json::Array(items) => {
            let mut items = items;
            if items.len() != 1 {
                return None;
            }
            match items.pop() {
                Some(inner) => unwrap_arrays(inner, levels - 1),
                None => None,
            }
        },
        _ => None,
    }
}

/// Reads the document that a text is, where it stands at this level of a larger
/// text.
pub fn read_below(bytes: &[u8], levels: u8) -> (r: Option<Json>)
    ensures
        decode::seen(r) == document_below(bytes@, levels as nat),
{
    match read_json(wrap(bytes, levels).as_slice()) {
        Ok(document) => unwrap_arrays(document, levels),
        Err(_) => None,
    }
}

} // verus!
