//! What the texts of the service say.
use vstd::prelude::*;

use crate::backend::reply::EnvelopeView;
use crate::backend::reply::NewApiResponse;
use crate::backend::reply::V1ControlResponse;
use crate::backend::reply::V1ControlView;
use crate::backend::reply::V1Device;
use crate::backend::reply::V1DeviceView;
use crate::backend::reply::V1DevicesResponse;
use crate::backend::reply::V1DevicesView;
use crate::backend::reply::V1StateResponse;
use crate::backend::reply::V1StateView;
use crate::decode;
use crate::json;
use crate::json::Json;
use crate::json::JsonView;
use crate::outline;
use crate::outline::FromText;
use crate::outline::OutlineView;

verus! {

/// Whether a member goes by one of two names.
pub open spec fn goes_by(member: (Seq<char>, Seq<u8>), name: Seq<char>, other: Seq<char>) -> bool {
    member.0 == name || member.0 == other
}

proof fn no_values(members: Seq<(Seq<char>, Seq<u8>)>, name: Seq<char>, other: Seq<char>)
    requires
        forall|j: int| 0 <= j < members.len() ==> !goes_by(#[trigger] members[j], name, other),
    ensures
        outline::values_under(members, name, other).len() == 0,
    decreases members.len(),
{
    if members.len() > 0 {
        let rest = members.drop_last();
        assert(!goes_by(members[members.len() - 1], name, other));
        assert forall|j: int| 0 <= j < rest.len() implies !goes_by(#[trigger] rest[j], name, other) by {
            assert(!goes_by(members[j], name, other));
        }
        no_values(rest, name, other);
    }
}

proof fn one_value(members: Seq<(Seq<char>, Seq<u8>)>, name: Seq<char>, other: Seq<char>, i: int)
    requires
        0 <= i < members.len(),
        goes_by(members[i], name, other),
        forall|j: int| 0 <= j < members.len() && j != i ==> !goes_by(#[trigger] members[j], name, other),
    ensures
        outline::values_under(members, name, other) == seq![members[i].1],
    decreases members.len(),
{
    let rest = members.drop_last();
    if i == members.len() - 1 {
        assert forall|j: int| 0 <= j < rest.len() implies !goes_by(#[trigger] rest[j], name, other) by {
            assert(!goes_by(members[j], name, other));
        }
        no_values(rest, name, other);
        assert(outline::values_under(members, name, other) =~= seq![members[i].1]);
    } else {
        assert(!goes_by(members[members.len() - 1], name, other));
        assert forall|j: int| 0 <= j < rest.len() && j != i implies !goes_by(#[trigger] rest[j], name, other) by {
            assert(!goes_by(members[j], name, other));
        }
        one_value(rest, name, other, i);
    }
}

proof fn some_values(members: Seq<(Seq<char>, Seq<u8>)>, name: Seq<char>, other: Seq<char>, i: int, k: int)
    requires
        0 <= i <= k < members.len(),
        goes_by(members[i], name, other),
        goes_by(members[k], name, other),
    ensures
        outline::values_under(members, name, other).len() >= (if i < k {
            2int
        } else {
            1
        }),
    decreases members.len(),
{
    let rest = members.drop_last();
    if k < rest.len() {
        some_values(rest, name, other, i, k);
    } else if i < k {
        some_values(rest, name, other, i, i);
    }
}

/// A field of an object is the member that goes by its name, or by its other name
/// where it has one. It must be there, and only once.
pub proof fn fields_go_by_their_names(
    members: Seq<(Seq<char>, Seq<u8>)>,
    name: Seq<char>,
    other: Seq<char>,
    i: int,
    k: int,
    place: int,
    count: int,
)
    ensures
        ({
            let field = OutlineView::Members(members).field_or(name, other, place, count);
            &&& (forall|j: int| 0 <= j < members.len() ==> !goes_by(#[trigger] members[j], name, other))
                ==> field is None
            &&& 0 <= i < members.len() && goes_by(members[i], name, other) && (forall|j: int|
                0 <= j < members.len() && j != i ==> !goes_by(#[trigger] members[j], name, other)) ==> field
                == Some(members[i].1)
            &&& 0 <= i < k < members.len() && goes_by(members[i], name, other) && goes_by(
                members[k],
                name,
                other,
            ) ==> field is None
        }),
        OutlineView::Members(members).field(name, place, count) == OutlineView::Members(members).field_or(
            name,
            name,
            place,
            count,
        ),
{
    if forall|j: int| 0 <= j < members.len() ==> !goes_by(#[trigger] members[j], name, other) {
        no_values(members, name, other);
    }
    if 0 <= i < members.len() && goes_by(members[i], name, other) && (forall|j: int|
        0 <= j < members.len() && j != i ==> !goes_by(#[trigger] members[j], name, other)) {
        one_value(members, name, other, i);
    }
    if 0 <= i < k < members.len() && goes_by(members[i], name, other) && goes_by(members[k], name, other) {
        some_values(members, name, other, i, k);
    }
}

/// In an array a field goes by its place, if the array has as many items as there
/// are fields.
pub proof fn fields_go_by_their_places(
    items: Seq<Seq<u8>>,
    name: Seq<char>,
    other: Seq<char>,
    place: int,
    count: int,
)
    requires
        0 <= place < count,
    ensures
        OutlineView::Items(items).field_or(name, other, place, count) == (if items.len() == count {
            Some(items[place])
        } else {
            None
        }),
{
}

/// Whether a text is a document with this value.
pub open spec fn says(bytes: Option<Seq<u8>>, value: JsonView) -> bool {
    bytes matches Some(bytes) && json::json_document(bytes) == Ok::<JsonView, Seq<char>>(value)
}

/// An envelope of the v2 API has a message, a code and a payload, which may also
/// be called data. A request ID may be there.
pub proof fn envelopes_have_their_fields(bytes: Seq<u8>, fields: OutlineView, envelope: EnvelopeView)
    requires
        outline::outline(bytes) == Some(fields),
        outline::optional_field_value::<String>(fields, "requestId"@, 0, 4) is Some,
    ensures
        NewApiResponse::read_text(bytes) == Some(envelope) <==> {
            &&& says(fields.field("msg"@, 1, 4), JsonView::Text(envelope.msg))
            &&& says(fields.field("code"@, 2, 4), JsonView::Unsigned(envelope.code as u64))
            &&& fields.field_or("payload"@, "data"@, 3, 4) is Some && outline::document_below(
                fields.field_or("payload"@, "data"@, 3, 4)->Some_0,
                1,
            ) == Some(envelope.payload)
        },
{
}

/// A device of a v1 list has an identifier, a model and a name.
pub proof fn v1_devices_have_their_fields(bytes: Seq<u8>, fields: OutlineView, d: V1DeviceView)
    requires
        outline::outline(bytes) == Some(fields),
    ensures
        V1Device::read_text(bytes) == Some(d) <==> {
            &&& says(fields.field("device"@, 0, 3), JsonView::Text(d.device))
            &&& says(fields.field("model"@, 1, 3), JsonView::Text(d.model))
            &&& says(fields.field("deviceName"@, 2, 3), JsonView::Text(d.device_name))
        },
{
}

/// The reply to a command over the legacy API has a code and a message.
pub proof fn control_replies_have_their_fields(bytes: Seq<u8>, fields: OutlineView, control: V1ControlView)
    requires
        outline::outline(bytes) == Some(fields),
    ensures
        V1ControlResponse::read_text(bytes) == Some(control) <==> {
            &&& says(fields.field("code"@, 0, 2), JsonView::Unsigned(control.code as u64))
            &&& says(fields.field("message"@, 1, 2), JsonView::Text(control.message))
        },
{
}

/// The other replies of the legacy API have data, a code and a message. A list has
/// its devices and a state its properties below the data.
pub proof fn legacy_replies_have_their_fields(
    bytes: Seq<u8>,
    fields: OutlineView,
    list: V1DevicesView,
    state: V1StateView,
    data: Seq<u8>,
    inner: OutlineView,
)
    requires
        outline::outline(bytes) == Some(fields),
        fields.field("data"@, 0, 3) == Some(data),
        outline::outline(data) == Some(inner),
    ensures
        V1DevicesResponse::read_text(bytes) == Some(list) <==> {
            &&& inner.field("devices"@, 0, 1) is Some && outline::list_read::<V1Device>(
                inner.field("devices"@, 0, 1)->Some_0,
            ) == Some(list.devices)
            &&& says(fields.field("code"@, 1, 3), JsonView::Unsigned(list.code as u64))
            &&& says(fields.field("message"@, 2, 3), JsonView::Text(list.message))
        },
        V1StateResponse::read_text(bytes) == Some(state) <==> {
            &&& inner.field("properties"@, 0, 1) is Some && outline::document_below(
                inner.field("properties"@, 0, 1)->Some_0,
                2,
            ) is Some && decode::read_list::<Json>(
                outline::document_below(inner.field("properties"@, 0, 1)->Some_0, 2)->Some_0,
            ) == Some(state.properties)
            &&& says(fields.field("code"@, 1, 3), JsonView::Unsigned(state.code as u64))
            &&& says(fields.field("message"@, 2, 3), JsonView::Text(state.message))
        },
{
}

/// Blanks before a value do not matter. An empty array has no items, and an empty
/// object no members.
pub proof fn blanks_do_not_matter(blank: u8, bytes: Seq<u8>)
    requires
        blank == 32 || blank == 9 || blank == 10 || blank == 13,
    ensures
        outline::outline(seq![blank] + bytes) == outline::outline(bytes),
        outline::outline(seq![91u8, blank, 93]) == Some(OutlineView::Items(Seq::empty())),
        outline::outline(seq![123u8, blank, 125]) == Some(OutlineView::Members(Seq::empty())),
        bytes.len() > 0 && bytes[0] != 32 && bytes[0] != 9 && bytes[0] != 10 && bytes[0] != 13 ==> outline::trimmed(
            bytes,
        ) == bytes,
{
    reveal_with_fuel(outline::trimmed, 3);
    assert((seq![blank] + bytes).skip(1) =~= bytes);
    assert(outline::trimmed(seq![blank] + bytes) == outline::trimmed(bytes));
    let a = seq![91u8, blank, 93];
    assert(a.skip(1) =~= seq![blank, 93]);
    assert(seq![blank, 93u8].skip(1) =~= seq![93u8]);
    assert(seq![93u8].skip(1) =~= Seq::empty());
    let o = seq![123u8, blank, 125];
    assert(o.skip(1) =~= seq![blank, 125]);
    assert(seq![blank, 125u8].skip(1) =~= seq![125u8]);
    assert(seq![125u8].skip(1) =~= Seq::empty());
}

/// Whether a text is one value, and is so too before a mark that may follow it.
pub open spec fn is_value(value: Seq<u8>, rest: Seq<u8>) -> bool {
    &&& value.len() > 0
    &&& outline::json_extent(value + rest) == Some(value.len())
    &&& value[0] != 32 && value[0] != 9 && value[0] != 10 && value[0] != 13
}

/// An array is taken apart into its values, in order, and an object into its
/// members, each with its name.
pub proof fn texts_are_taken_apart(
    v: Seq<u8>,
    w: Seq<u8>,
    k: Seq<u8>,
    name: Seq<char>,
    l: Seq<u8>,
    other: Seq<char>,
)
    requires
        is_value(v, seq![93]),
        is_value(w, seq![44] + v + seq![93]),
        v[0] != 93,
        w[0] != 93,
        is_value(k, seq![58] + v + seq![125]),
        k[0] == 34,
        json::json_document(k) == Ok::<JsonView, Seq<char>>(JsonView::Text(name)),
        is_value(v, seq![125]),
        is_value(l, seq![58] + w + (seq![44] + (k + (seq![58] + v + seq![125])))),
        is_value(w, seq![44] + (k + (seq![58] + v + seq![125]))),
        l[0] == 34,
        json::json_document(l) == Ok::<JsonView, Seq<char>>(JsonView::Text(other)),
    ensures
        outline::outline(seq![91] + v + seq![93]) == Some(OutlineView::Items(seq![v])),
        outline::outline(seq![91] + w + seq![44] + v + seq![93]) == Some(OutlineView::Items(seq![w, v])),
        outline::outline(seq![123] + k + seq![58] + v + seq![125]) == Some(
            OutlineView::Members(seq![(name, v)]),
        ),
        outline::outline(
            seq![123] + (l + (seq![58] + w + (seq![44] + (k + (seq![58] + v + seq![125]))))),
        ) == Some(OutlineView::Members(seq![(other, w), (name, v)])),
{
    reveal_with_fuel(outline::trimmed, 2);
    reveal_with_fuel(outline::items_from, 3);
    reveal_with_fuel(outline::members_from, 3);
    let empty = Seq::<u8>::empty();
    // [v]
    let a = seq![91u8] + v + seq![93u8];
    let a1 = v + seq![93u8];
    assert(a.skip(1) =~= a1);
    assert(a1[0] == v[0]);
    assert(outline::trimmed(a1) == a1);
    assert(a1.take(v.len() as int) =~= v);
    assert(a1.skip(v.len() as int) =~= seq![93u8]);
    assert(seq![93u8].skip(1) =~= empty);
    assert(outline::trimmed(seq![93u8]) == seq![93u8]);
    assert(outline::items_from(a1) == Some((seq![v], empty)));
    assert(outline::trimmed(a) == a);
    // [w, v]
    let b = seq![91u8] + w + seq![44u8] + v + seq![93u8];
    let b1 = w + (seq![44u8] + v + seq![93u8]);
    let b2 = seq![44u8] + v + seq![93u8];
    assert(b.skip(1) =~= b1);
    assert(b1[0] == w[0]);
    assert(outline::trimmed(b1) == b1);
    assert(b1.take(w.len() as int) =~= w);
    assert(b1.skip(w.len() as int) =~= b2);
    assert(b2.skip(1) =~= a1);
    assert(b2[0] == 44);
    assert(outline::trimmed(b2) == b2);
    assert(seq![w] + seq![v] =~= seq![w, v]);
    assert(outline::items_from(b1) == Some((seq![w, v], empty)));
    assert(outline::trimmed(b) == b);
    // {k: v}
    let c = seq![123u8] + k + seq![58u8] + v + seq![125u8];
    let c1 = k + (seq![58u8] + v + seq![125u8]);
    let c2 = seq![58u8] + v + seq![125u8];
    let c3 = v + seq![125u8];
    assert(c.skip(1) =~= c1);
    assert(c1[0] == 34);
    assert(outline::trimmed(c1) == c1);
    assert(c1.take(k.len() as int) =~= k);
    assert(c1.skip(k.len() as int) =~= c2);
    assert(c2[0] == 58);
    assert(outline::trimmed(c2) == c2);
    assert(c2.skip(1) =~= c3);
    assert(c3.take(v.len() as int) =~= v);
    assert(c3.skip(v.len() as int) =~= seq![125u8]);
    assert(seq![125u8].skip(1) =~= empty);
    assert(outline::trimmed(seq![125u8]) == seq![125u8]);
    assert(outline::first_member(c1) == Some(((name, v), seq![125u8])));
    assert(outline::members_from(c1) == Some((seq![(name, v)], empty)));
    assert(outline::trimmed(c) == c);
    assert(outline::trimmed(empty) == empty);
    // {l: w, k: v}
    let d4 = seq![44u8] + c1;
    let d3 = w + d4;
    let d2 = seq![58u8] + w + d4;
    let d1 = l + d2;
    let d = seq![123u8] + d1;
    assert(d.skip(1) =~= d1);
    assert(d1[0] == 34);
    assert(outline::trimmed(d1) == d1);
    assert(d1.take(l.len() as int) =~= l);
    assert(d1.skip(l.len() as int) =~= d2);
    assert(d2[0] == 58);
    assert(outline::trimmed(d2) == d2);
    assert(d2.skip(1) =~= d3);
    assert(d3.take(w.len() as int) =~= w);
    assert(d3.skip(w.len() as int) =~= d4);
    assert(d4[0] == 44);
    assert(outline::trimmed(d4) == d4);
    assert(d4.skip(1) =~= c1);
    assert(outline::first_member(d1) == Some(((other, w), d4)));
    assert(seq![(other, w)] + seq![(name, v)] =~= seq![(other, w), (name, v)]);
    assert(outline::members_from(d1) == Some((seq![(other, w), (name, v)], empty)));
    assert(outline::trimmed(d) == d);
}

/// What stands below others in a larger text is read as if it stood in as many
/// arrays.
pub proof fn documents_below_others(bytes: Seq<u8>, document: JsonView)
    ensures
        outline::document_below(bytes, 0) == Some(document) <==> json::json_document(bytes) == Ok::<
            JsonView,
            Seq<char>,
        >(document),
        json::json_document(seq![91] + bytes + seq![93]) == Ok::<JsonView, Seq<char>>(
            JsonView::Array(seq![document]),
        ) ==> outline::document_below(bytes, 1) == Some(document),
        json::json_document(seq![91] + (seq![91] + bytes + seq![93]) + seq![93]) == Ok::<JsonView, Seq<char>>(
            JsonView::Array(seq![JsonView::Array(seq![document])]),
        ) ==> outline::document_below(bytes, 2) == Some(document),
        json::json_document(seq![91] + bytes + seq![93]) is Err ==> outline::document_below(bytes, 1) is None,
{
    reveal_with_fuel(outline::wrapped, 3);
    reveal_with_fuel(outline::unwrapped, 3);
}

/// A list of devices is read item by item, in order, and only if each can be read.
pub proof fn v1_lists_are_read_item_by_item(bytes: Seq<u8>, items: Seq<Seq<u8>>, list: Seq<V1DeviceView>)
    requires
        outline::outline(bytes) == Some(OutlineView::Items(items)),
    ensures
        outline::list_read::<V1Device>(bytes) == Some(list) <==> items.len() == list.len() && (forall|i: int|
            0 <= i < list.len() ==> V1Device::read_text(#[trigger] items[i]) == Some(list[i])),
{
    if items.len() == list.len() && (forall|i: int|
        0 <= i < list.len() ==> V1Device::read_text(#[trigger] items[i]) == Some(list[i])) {
        assert(outline::values_read::<V1Device>(items)->Some_0 =~= list);
    }
    if outline::list_read::<V1Device>(bytes) == Some(list) {
        assert forall|i: int| 0 <= i < list.len() implies V1Device::read_text(#[trigger] items[i]) == Some(
            list[i],
        ) by {
            assert(list[i] == V1Device::read_text(items[i])->Some_0);
        }
    }
}

} // verus!
