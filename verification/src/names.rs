//! A map from names to values that keeps the order of first insertion.
use vstd::prelude::*;

use crate::text;
use crate::text::comes_before;
use crate::text::same;

verus! {

/// Values by name. Each name occurs once; a name keeps its place when its
/// value is replaced.
#[derive(Debug)]
pub struct NameMap<V> {
    entries: Vec<(String, V)>,
}

/// Whether `entries` has an entry under `name`.
pub open spec fn has_name<V>(entries: Seq<(String, V)>, name: Seq<char>) -> bool {
    exists|i: int| 0 <= i < entries.len() && #[trigger] entries[i].0@ == name
}

/// A position of `name` in `entries`.
pub open spec fn place<V>(entries: Seq<(String, V)>, name: Seq<char>) -> int {
    choose|i: int| 0 <= i < entries.len() && #[trigger] entries[i].0@ == name
}

/// Whether no name occurs twice.
pub open spec fn distinct_names<V>(entries: Seq<(String, V)>) -> bool {
    forall|i: int, j: int|
        0 <= i < j < entries.len() ==> #[trigger] entries[i].0@ != #[trigger] entries[j].0@
}

/// The entries as a map.
pub open spec fn by_name<V>(entries: Seq<(String, V)>) -> Map<Seq<char>, V> {
    Map::new(|name: Seq<char>| has_name(entries, name), |name: Seq<char>| entries[place(entries, name)].1)
}

/// Where no name occurs twice, the map has under each name the value that
/// stands beside it.
pub proof fn by_name_at<V>(entries: Seq<(String, V)>, i: int)
    requires
        distinct_names(entries),
        0 <= i < entries.len(),
    ensures
        by_name(entries).contains_key(entries[i].0@),
        by_name(entries)[entries[i].0@] == entries[i].1,
        place(entries, entries[i].0@) == i,
{
    let j = place(entries, entries[i].0@);
    assert(0 <= j < entries.len() && entries[j].0@ == entries[i].0@);
}

/// One more entry, under a name that is not there yet.
pub proof fn by_name_push<V>(entries: Seq<(String, V)>, name: String, value: V)
    requires
        distinct_names(entries),
        !has_name(entries, name@),
    ensures
        distinct_names(entries.push((name, value))),
        by_name(entries.push((name, value))) == by_name(entries).insert(name@, value),
{
    let more = entries.push((name, value));
    assert(more[entries.len() as int].0@ == name@);
    assert forall|k: Seq<char>| has_name(more, k) == (has_name(entries, k) || k == name@) by {
        if has_name(entries, k) {
            let i = place(entries, k);
            assert(more[i].0@ == k);
        }
        if has_name(more, k) {
            let i = place(more, k);
            if i < entries.len() {
                assert(entries[i].0@ == k);
            }
        }
    }
    assert forall|k: Seq<char>| has_name(more, k) implies by_name(more)[k] == by_name(entries).insert(
        name@,
        value,
    )[k] by {
        let i = place(more, k);
        by_name_at(more, i);
        if i < entries.len() {
            assert(entries[i].0@ == k);
            by_name_at(entries, i);
        }
    }
    assert(by_name(more) =~= by_name(entries).insert(name@, value));
}

/// Another value under a name that is there.
pub proof fn by_name_update<V>(entries: Seq<(String, V)>, i: int, name: String, value: V)
    requires
        distinct_names(entries),
        0 <= i < entries.len(),
        entries[i].0@ == name@,
    ensures
        distinct_names(entries.update(i, (name, value))),
        by_name(entries.update(i, (name, value))) == by_name(entries).insert(name@, value),
{
    let changed = entries.update(i, (name, value));
    assert forall|j: int| 0 <= j < entries.len() implies #[trigger] changed[j].0@ == entries[j].0@ by {}
    assert forall|k: Seq<char>| has_name(changed, k) == has_name(entries, k) by {
        if has_name(entries, k) {
            assert(changed[place(entries, k)].0@ == k);
        }
        if has_name(changed, k) {
            assert(entries[place(changed, k)].0@ == k);
        }
    }
    assert(entries[i].0@ == name@);
    assert forall|k: Seq<char>| has_name(changed, k) implies by_name(changed)[k] == by_name(entries).insert(
        name@,
        value,
    )[k] by {
        let j = place(changed, k);
        by_name_at(changed, j);
        by_name_at(entries, j);
    }
    assert(by_name(changed) =~= by_name(entries).insert(name@, value));
}

/// Where no name occurs twice, the map has as many names as there are entries.
pub proof fn by_name_len<V>(entries: Seq<(String, V)>)
    requires
        distinct_names(entries),
    ensures
        by_name(entries).dom().finite(),
        by_name(entries).dom().len() == entries.len(),
    decreases entries.len(),
{
    if entries.len() == 0 {
        assert(by_name(entries).dom() =~= Set::empty());
    } else {
        let before = entries.drop_last();
        let last = entries.last();
        by_name_len(before);
        assert(!has_name(before, last.0@)) by {
            if has_name(before, last.0@) {
                let i = place(before, last.0@);
                assert(entries[i].0@ == entries[entries.len() - 1].0@);
            }
        }
        by_name_push(before, last.0, last.1);
        assert(before.push(last) =~= entries);
        assert(by_name(entries).dom() =~= by_name(before).dom().insert(last.0@));
    }
}

impl<V> View for NameMap<V> {
    type V = Map<Seq<char>, V>;

    open spec fn view(&self) -> Map<Seq<char>, V> {
        by_name(self.entries())
    }
}

impl<V> NameMap<V> {
    /// The entries, in the order of first insertion.
    pub closed spec fn entries(&self) -> Seq<(String, V)> {
        self.entries@
    }

    #[verifier::type_invariant]
    spec fn no_name_twice(&self) -> bool {
        distinct_names(self.entries@)
    }

    /// Gives the proofs the fact that no name occurs twice.
    pub(crate) fn note_distinct(&self)
        ensures
            distinct_names(self.entries()),
    {
        proof {
            use_type_invariant(self);
        }
    }

    /// A map without entries.
    pub fn new() -> (r: NameMap<V>)
        ensures
            r@ == Map::<Seq<char>, V>::empty(),
            r.entries() == Seq::<(String, V)>::empty(),
    {
        let entries: Vec<(String, V)> = Vec::new();
        assert(by_name(entries@) =~= Map::empty());
        NameMap { entries }
    }

    /// How many names there are.
    pub fn len(&self) -> (r: usize)
        ensures
            r == self.entries().len(),
            r == self@.dom().len(),
    {
        proof {
            use_type_invariant(self);
            by_name_len(self.entries@);
        }
        self.entries.len()
    }

    /// Whether there are no names.
    pub fn is_empty(&self) -> (r: bool)
        ensures
            r == (self.entries().len() == 0),
            r == (self@ == Map::<Seq<char>, V>::empty()),
    {
        proof {
            use_type_invariant(self);
            by_name_len(self.entries@);
            if self.entries@.len() == 0 {
                assert(self@ =~= Map::empty());
            }
        }
        self.entries.len() == 0
    }

    /// The position of `name`.
    fn find(&self, name: &str) -> (r: Option<usize>)
        ensures
            match r {
                Some(i) => i < self.entries@.len() && self.entries@[i as int].0@ == name@,
                None => !has_name(self.entries@, name@),
            },
    {
        for i in 0..self.entries.len()
            invariant
                forall|j: int| 0 <= j < i ==> #[trigger] self.entries@[j].0@ != name@,
        {
            if same(self.entries[i].0.as_str(), name) {
                return Some(i);
            }
        }
        None
    }

    /// The value under `name`.
    pub fn get(&self, name: &str) -> (r: Option<&V>)
        ensures
            match r {
                Some(v) => self@.contains_key(name@) && *v == self@[name@],
                None => !self@.contains_key(name@),
            },
    {
        match self.find(name) {
            Some(i) => {
                proof {
                    use_type_invariant(self);
                    by_name_at(self.entries@, i as int);
                }
                Some(&self.entries[i].1)
            },
            None => None,
        }
    }

    /// Whether there is a value under `name`.
    pub fn contains_key(&self, name: &str) -> (r: bool)
        ensures
            r == self@.contains_key(name@),
    {
        self.get(name).is_some()
    }

    /// Puts `value` under `name` and gives back what stood there.
    pub fn insert(&mut self, name: String, value: V) -> (r: Option<V>)
        ensures
            final(self)@ == old(self)@.insert(name@, value),
            match r {
                Some(v) => old(self)@.contains_key(name@) && v == old(self)@[name@],
                None => !old(self)@.contains_key(name@),
            },
            final(self).entries() == (if old(self)@.contains_key(name@) {
                old(self).entries().update(place(old(self).entries(), name@), (name, value))
            } else {
                old(self).entries().push((name, value))
            }),
    {
        proof {
            use_type_invariant(&*self);
        }
        let found = self.find(name.as_str());
        let ghost before = self.entries@;
        let mut entries: Vec<(String, V)> = Vec::new();
        std::mem::swap(&mut entries, &mut self.entries);
        match found {
            Some(i) => {
                proof {
                    by_name_at(before, i as int);
                    by_name_update(before, i as int, name, value);
                }
                let old_entry = entries.remove(i);
                entries.insert(i, (name, value));
                assert(entries@ =~= before.update(i as int, (name, value)));
                self.entries = entries;
                Some(old_entry.1)
            },
            None => {
                proof {
                    by_name_push(before, name, value);
                }
                entries.push((name, value));
                self.entries = entries;
                None
            },
        }
    }

    /// The entry at position `i`.
    pub fn entry(&self, i: usize) -> (r: (&str, &V))
        requires
            i < self.entries().len(),
        ensures
            r.0@ == self.entries()[i as int].0@,
            *r.1 == self.entries()[i as int].1,
    {
        (self.entries[i].0.as_str(), &self.entries[i].1)
    }
}

impl<V: Clone> Clone for NameMap<V> {
    fn clone(&self) -> (r: NameMap<V>)
        ensures
            r.entries().len() == self.entries().len(),
            forall|i: int|
                0 <= i < r.entries().len() ==> (#[trigger] r.entries()[i]).0 == self.entries()[i].0 && cloned(
                    self.entries()[i].1,
                    r.entries()[i].1,
                ),
            r@.dom() == self@.dom(),
            forall|name: Seq<char>| #[trigger] r@.contains_key(name) ==> cloned(self@[name], r@[name]),
    {
        proof {
            use_type_invariant(self);
        }
        let mut entries: Vec<(String, V)> = Vec::new();
        for i in 0..self.entries.len()
            invariant
                distinct_names(self.entries@),
                entries@.len() == i,
                forall|k: int|
                    0 <= k < i ==> (#[trigger] entries@[k]).0 == self.entries@[k].0 && cloned(
                        self.entries@[k].1,
                        entries@[k].1,
                    ),
        {
            entries.push((self.entries[i].0.clone(), self.entries[i].1.clone()));
        }
        proof {
            assert forall|i: int, j: int| 0 <= i < j < entries@.len() implies #[trigger] entries@[i].0@
                != #[trigger] entries@[j].0@ by {
                assert(self.entries@[i].0@ != self.entries@[j].0@);
            }
            assert forall|name: Seq<char>| has_name(entries@, name) == has_name(self.entries@, name) by {
                if has_name(entries@, name) {
                    assert(self.entries@[place(entries@, name)].0@ == name);
                }
                if has_name(self.entries@, name) {
                    assert(entries@[place(self.entries@, name)].0@ == name);
                }
            }
            assert(by_name(entries@).dom() =~= by_name(self.entries@).dom());
            assert forall|name: Seq<char>| #[trigger] by_name(entries@).contains_key(name) implies cloned(
                by_name(self.entries@)[name],
                by_name(entries@)[name],
            ) by {
                let i = place(entries@, name);
                assert(entries@[i].0@ == name);
                by_name_at(entries@, i);
                by_name_at(self.entries@, i);
            }
        }
        NameMap { entries }
    }
}

/// `entries`, which are in the order of their names, with one more entry in its
/// place. It comes after those that have the same name.
pub open spec fn put_in_order<V>(entries: Seq<(Seq<char>, V)>, entry: (Seq<char>, V)) -> Seq<
    (Seq<char>, V),
>
    decreases entries.len(),
{
    if entries.len() > 0 && text::precedes(entry.0, entries.last().0) {
        put_in_order(entries.drop_last(), entry).push(entries.last())
    } else {
        entries.push(entry)
    }
}

/// The entries in the order of their names.
pub open spec fn in_order<V>(entries: Seq<(Seq<char>, V)>) -> Seq<(Seq<char>, V)>
    decreases entries.len(),
{
    if entries.len() == 0 {
        Seq::empty()
    } else {
        put_in_order(in_order(entries.drop_last()), entries.last())
    }
}

/// Whether each name comes before all later ones.
pub open spec fn ascending<V>(entries: Seq<(Seq<char>, V)>) -> bool {
    forall|i: int, j: int|
        0 <= i < j < entries.len() ==> text::precedes(#[trigger] entries[i].0, #[trigger] entries[j].0)
}

/// Whether no name occurs twice.
pub open spec fn no_name_twice<V>(entries: Seq<(Seq<char>, V)>) -> bool {
    forall|i: int, j: int|
        0 <= i < j < entries.len() ==> #[trigger] entries[i].0 != #[trigger] entries[j].0
}

proof fn put_in_order_holds<V>(entries: Seq<(Seq<char>, V)>, entry: (Seq<char>, V))
    ensures
        put_in_order(entries, entry).len() == entries.len() + 1,
        forall|e: (Seq<char>, V)| #[trigger]
            put_in_order(entries, entry).contains(e) <==> entries.contains(e) || e == entry,
    decreases entries.len(),
{
    let r = put_in_order(entries, entry);
    if entries.len() > 0 && text::precedes(entry.0, entries.last().0) {
        let shorter = entries.drop_last();
        put_in_order_holds(shorter, entry);
        let inner = put_in_order(shorter, entry);
        assert forall|e: (Seq<char>, V)| #[trigger] r.contains(e) <==> entries.contains(e) || e == entry by {
            if r.contains(e) {
                let i = choose|i: int| 0 <= i < r.len() && r[i] == e;
                if i < inner.len() {
                    assert(inner[i] == e);
                    assert(inner.contains(e));
                    if e != entry {
                        let j = choose|j: int| 0 <= j < shorter.len() && shorter[j] == e;
                        assert(entries[j] == e);
                    }
                } else {
                    assert(entries[entries.len() - 1] == e);
                }
            }
            if entries.contains(e) {
                let i = choose|i: int| 0 <= i < entries.len() && entries[i] == e;
                if i < shorter.len() {
                    assert(shorter[i] == e);
                    assert(inner.contains(e));
                    let j = choose|j: int| 0 <= j < inner.len() && inner[j] == e;
                    assert(r[j] == e);
                } else {
                    assert(r[inner.len() as int] == e);
                }
            }
            if e == entry {
                assert(inner.contains(e));
                let j = choose|j: int| 0 <= j < inner.len() && inner[j] == e;
                assert(r[j] == e);
            }
        }
    } else {
        assert forall|e: (Seq<char>, V)| #[trigger] r.contains(e) <==> entries.contains(e) || e == entry by {
            if entries.contains(e) {
                let i = choose|i: int| 0 <= i < entries.len() && entries[i] == e;
                assert(r[i] == e);
            }
            if e == entry {
                assert(r[entries.len() as int] == e);
            }
            if r.contains(e) {
                let i = choose|i: int| 0 <= i < r.len() && r[i] == e;
                if i < entries.len() {
                    assert(entries[i] == e);
                }
            }
        }
    }
}

proof fn put_in_order_ascends<V>(entries: Seq<(Seq<char>, V)>, entry: (Seq<char>, V))
    requires
        ascending(entries),
        forall|i: int| 0 <= i < entries.len() ==> #[trigger] entries[i].0 != entry.0,
    ensures
        ascending(put_in_order(entries, entry)),
    decreases entries.len(),
{
    let r = put_in_order(entries, entry);
    if entries.len() > 0 && text::precedes(entry.0, entries.last().0) {
        let shorter = entries.drop_last();
        put_in_order_ascends(shorter, entry);
        put_in_order_holds(shorter, entry);
        let inner = put_in_order(shorter, entry);
        assert forall|i: int, j: int| 0 <= i < j < r.len() implies text::precedes(
            #[trigger] r[i].0,
            #[trigger] r[j].0,
        ) by {
            if j == inner.len() {
                assert(inner.contains(inner[i]));
                if inner[i] != entry {
                    let k = choose|k: int| 0 <= k < shorter.len() && shorter[k] == inner[i];
                    assert(entries[k] == inner[i]);
                }
            }
        }
    } else {
        assert forall|i: int, j: int| 0 <= i < j < r.len() implies text::precedes(
            #[trigger] r[i].0,
            #[trigger] r[j].0,
        ) by {
            if j == entries.len() {
                text::precedes_total(entry.0, entries.last().0);
                if i < entries.len() - 1 {
                    text::precedes_transitive(entries[i].0, entries.last().0, entry.0);
                }
            }
        }
    }
}

/// Putting entries in order keeps each of them and adds none.
pub proof fn in_order_keeps<V>(entries: Seq<(Seq<char>, V)>)
    ensures
        in_order(entries).len() == entries.len(),
        forall|e: (Seq<char>, V)| #[trigger] in_order(entries).contains(e) <==> entries.contains(e),
    decreases entries.len(),
{
    if entries.len() > 0 {
        let shorter = entries.drop_last();
        in_order_keeps(shorter);
        put_in_order_holds(in_order(shorter), entries.last());
        assert forall|e: (Seq<char>, V)| #[trigger]
            in_order(entries).contains(e) <==> entries.contains(e) by {
            if shorter.contains(e) {
                let i = choose|i: int| 0 <= i < shorter.len() && shorter[i] == e;
                assert(entries[i] == e);
            }
            if e == entries.last() {
                assert(entries[entries.len() - 1] == e);
            }
            if entries.contains(e) && e != entries.last() {
                let i = choose|i: int| 0 <= i < entries.len() && entries[i] == e;
                assert(shorter[i] == e);
            }
        }
    }
}

/// Entries with different names come to stand in the strict order of their
/// names.
pub proof fn in_order_ascends<V>(entries: Seq<(Seq<char>, V)>)
    requires
        no_name_twice(entries),
    ensures
        ascending(in_order(entries)),
    decreases entries.len(),
{
    if entries.len() > 0 {
        let shorter = entries.drop_last();
        in_order_ascends(shorter);
        in_order_keeps(shorter);
        assert forall|i: int| 0 <= i < in_order(shorter).len() implies #[trigger] in_order(shorter)[i].0
            != entries.last().0 by {
            assert(in_order(shorter).contains(in_order(shorter)[i]));
            let j = choose|j: int| 0 <= j < shorter.len() && shorter[j] == in_order(shorter)[i];
            assert(entries[j].0 != entries[entries.len() - 1].0);
        }
        put_in_order_ascends(in_order(shorter), entries.last());
    }
}

/// The entries with their positions in place of their values.
pub open spec fn numbered(names: Seq<String>) -> Seq<(Seq<char>, usize)> {
    Seq::new(names.len(), |i: int| (names[i]@, i as usize))
}

/// The positions of `names`, each with the name that stands there.
pub open spec fn picked(names: Seq<String>, positions: Seq<usize>) -> Seq<(Seq<char>, usize)> {
    positions.map_values(|i: usize| (names[i as int]@, i))
}

proof fn put_in_order_maps<V, W>(
    entries: Seq<(Seq<char>, V)>,
    entry: (Seq<char>, V),
    f: spec_fn((Seq<char>, V)) -> (Seq<char>, W),
)
    requires
        forall|e: (Seq<char>, V)| #[trigger] f(e).0 == e.0,
    ensures
        put_in_order(entries.map_values(f), f(entry)) == put_in_order(entries, entry).map_values(f),
    decreases entries.len(),
{
    if entries.len() > 0 && text::precedes(entry.0, entries.last().0) {
        put_in_order_maps(entries.drop_last(), entry, f);
        assert(entries.map_values(f).drop_last() =~= entries.drop_last().map_values(f));
    }
    assert(put_in_order(entries.map_values(f), f(entry)) =~= put_in_order(entries, entry).map_values(f));
}

/// Changing the values does not change the order of the names.
pub proof fn in_order_maps<V, W>(
    entries: Seq<(Seq<char>, V)>,
    f: spec_fn((Seq<char>, V)) -> (Seq<char>, W),
)
    requires
        forall|e: (Seq<char>, V)| #[trigger] f(e).0 == e.0,
    ensures
        in_order(entries.map_values(f)) == in_order(entries).map_values(f),
    decreases entries.len(),
{
    if entries.len() > 0 {
        in_order_maps(entries.drop_last(), f);
        put_in_order_maps(in_order(entries.drop_last()), entries.last(), f);
        assert(entries.map_values(f).drop_last() =~= entries.drop_last().map_values(f));
    }
    assert(in_order(entries.map_values(f)) =~= in_order(entries).map_values(f));
}

/// The positions of `names` in the order of the names.
pub(crate) fn name_order(names: &Vec<String>) -> (r: Vec<usize>)
    ensures
        picked(names@, r@) == in_order(numbered(names@)),
        forall|k: int| 0 <= k < r@.len() ==> #[trigger] r@[k] < names@.len(),
        r@.len() == names@.len(),
{
    let mut order: Vec<usize> = Vec::new();
    assert(picked(names@, order@) =~= in_order(numbered(names@).take(0)));
    for i in 0..names.len()
        invariant
            order@.len() == i,
            forall|k: int| 0 <= k < order@.len() ==> #[trigger] order@[k] < i,
            picked(names@, order@) == in_order(numbered(names@).take(i as int)),
    {
        let ghost before = order@;
        let ghost entry = (names@[i as int]@, i);
        let mut at: usize = order.len();
        assert(before.take(at as int) =~= before);
        assert(picked(names@, before.skip(at as int)) =~= Seq::empty());
        assert(put_in_order(picked(names@, before), entry) =~= put_in_order(
            picked(names@, before.take(at as int)),
            entry,
        ) + picked(names@, before.skip(at as int)));
        while at > 0 && comes_before(names[i].as_str(), names[order[at - 1]].as_str())
            invariant
                at <= order@.len(),
                order@ == before,
                i < names@.len(),
                entry == (names@[i as int]@, i),
                forall|k: int| 0 <= k < order@.len() ==> #[trigger] order@[k] < i,
                put_in_order(picked(names@, before), entry) == put_in_order(
                    picked(names@, before.take(at as int)),
                    entry,
                ) + picked(names@, before.skip(at as int)),
            decreases at,
        {
            proof {
                let p = picked(names@, before.take(at as int));
                assert(p.drop_last() =~= picked(names@, before.take(at - 1)));
                assert(p.last() == (names@[before[at - 1] as int]@, before[at - 1]));
                assert(picked(names@, before.skip(at - 1)) =~= seq![p.last()] + picked(
                    names@,
                    before.skip(at as int),
                ));
                assert(put_in_order(p, entry) + picked(names@, before.skip(at as int)) =~= put_in_order(
                    p.drop_last(),
                    entry,
                ) + picked(names@, before.skip(at - 1)));
            }
            at = at - 1;
        }
        order.insert(at, i);
        proof {
            let p = picked(names@, before.take(at as int));
            assert(put_in_order(p, entry) =~= p.push(entry));
            assert(picked(names@, order@) =~= p.push(entry) + picked(names@, before.skip(at as int)));
            assert(numbered(names@).take(i + 1).drop_last() =~= numbered(names@).take(i as int));
            assert(numbered(names@).take(i + 1).last() == entry);
        }
    }
    assert(numbered(names@).take(names@.len() as int) =~= numbered(names@));
    order
}

} // verus!
