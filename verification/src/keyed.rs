//! A map from texts to values that is walked in the order of its keys.
use crate::text::{is_text_before, same_text};
use vstd::prelude::*;

verus! {

broadcast use crate::model::group_views;

/// Whether each text of the sequence stands before all that follow it.
pub open spec fn ascending(keys: Seq<Seq<char>>) -> bool {
    forall|i: int, j: int|
        0 <= i < j < keys.len() ==> crate::text::text_before(#[trigger] keys[i], #[trigger] keys[j])
}

/// The keys of a map in ascending order.
pub open spec fn ordered_keys<V>(map: Map<Seq<char>, V>) -> Seq<Seq<char>> {
    choose|keys: Seq<Seq<char>>| ascending(keys) && #[trigger] keys.to_set() == map.dom()
}

/// The values of a map in the order of their keys.
pub open spec fn ordered_values<V>(map: Map<Seq<char>, V>) -> Seq<V> {
    Seq::new(ordered_keys(map).len(), |i: int| map[ordered_keys(map)[i]])
}

/// The keys, in order, whose values satisfy `wanted`.
pub open spec fn keys_with<V>(map: Map<Seq<char>, V>, wanted: spec_fn(V) -> bool) -> Seq<Seq<char>> {
    ordered_keys(map).filter(|key: Seq<char>| wanted(map[key]))
}

/// The first key, in order, whose value satisfies `wanted`.
pub open spec fn first_key_with<V>(map: Map<Seq<char>, V>, wanted: spec_fn(V) -> bool) -> Option<
    Seq<char>,
> {
    if keys_with(map, wanted).len() > 0 {
        Some(keys_with(map, wanted)[0])
    } else {
        None
    }
}

/// The part of a map whose values satisfy `wanted`.
pub open spec fn kept<V>(map: Map<Seq<char>, V>, wanted: spec_fn(V) -> bool) -> Map<Seq<char>, V> {
    Map::new(|key: Seq<char>| map.contains_key(key) && wanted(map[key]), |key: Seq<char>| map[key])
}

/// Two ascending sequences with the same members are the same sequence.
pub proof fn ascending_is_unique(a: Seq<Seq<char>>, b: Seq<Seq<char>>)
    requires
        ascending(a),
        ascending(b),
        a.to_set() == b.to_set(),
    ensures
        a == b,
    decreases a.len(),
{
    if a.len() == 0 {
        if b.len() > 0 {
            assert(b.to_set().contains(b[0]));
            assert(a.to_set().contains(b[0]));
        }
        assert(a =~= b);
    } else {
        assert(a.to_set().contains(a[0]));
        assert(b.to_set().contains(a[0]));
        assert(b.to_set().contains(b[0]));
        assert(a.to_set().contains(b[0]));
        let i = choose|i: int| 0 <= i < b.len() && b[i] == a[0];
        let j = choose|j: int| 0 <= j < a.len() && a[j] == b[0];
        crate::text::text_before_is_irreflexive(a[0]);
        if i > 0 && j > 0 {
            crate::text::text_before_is_transitive(a[0], b[0], a[0]);
        }
        assert(a[0] == b[0]);
        let rest_a = a.drop_first();
        let rest_b = b.drop_first();
        assert(ascending(rest_a)) by {
            assert forall|i: int, j: int| 0 <= i < j < rest_a.len() implies crate::text::text_before(
                #[trigger] rest_a[i],
                #[trigger] rest_a[j],
            ) by {
                assert(crate::text::text_before(a[i + 1], a[j + 1]));
            }
        }
        assert(ascending(rest_b)) by {
            assert forall|i: int, j: int| 0 <= i < j < rest_b.len() implies crate::text::text_before(
                #[trigger] rest_b[i],
                #[trigger] rest_b[j],
            ) by {
                assert(crate::text::text_before(b[i + 1], b[j + 1]));
            }
        }
        assert forall|key: Seq<char>| rest_a.to_set().contains(key) <==> rest_b.to_set().contains(
            key,
        ) by {
            if rest_a.contains(key) {
                let n = choose|n: int| 0 <= n < rest_a.len() && rest_a[n] == key;
                assert(a[n + 1] == key);
                assert(a.to_set().contains(key));
                assert(b.to_set().contains(key));
                let m = choose|m: int| 0 <= m < b.len() && b[m] == key;
                if m == 0 {
                    assert(crate::text::text_before(a[0], a[n + 1]));
                }
                assert(rest_b[m - 1] == key);
            }
            if rest_b.contains(key) {
                let n = choose|n: int| 0 <= n < rest_b.len() && rest_b[n] == key;
                assert(b[n + 1] == key);
                assert(b.to_set().contains(key));
                assert(a.to_set().contains(key));
                let m = choose|m: int| 0 <= m < a.len() && a[m] == key;
                if m == 0 {
                    assert(crate::text::text_before(b[0], b[n + 1]));
                }
                assert(rest_a[m - 1] == key);
            }
        }
        assert(rest_a.to_set() =~= rest_b.to_set());
        ascending_is_unique(rest_a, rest_b);
        assert(a =~= seq![a[0]] + rest_a);
        assert(b =~= seq![b[0]] + rest_b);
    }
}

/// The keys in order are ascending, and they are the keys of the map, if it is the view of a
/// [`KeyedMap`].
pub open spec fn orderable<V>(map: Map<Seq<char>, V>) -> bool {
    exists|keys: Seq<Seq<char>>| ascending(keys) && #[trigger] keys.to_set() == map.dom()
}

/// The first key whose value satisfies `wanted` is a key of the map, and its value does.
pub proof fn first_key_is_held<V>(map: Map<Seq<char>, V>, wanted: spec_fn(V) -> bool)
    requires
        orderable(map),
        first_key_with(map, wanted) is Some,
    ensures
        map.contains_key(first_key_with(map, wanted)->0),
        wanted(map[first_key_with(map, wanted)->0]),
{
    let keys = ordered_keys(map);
    assert(ascending(keys) && keys.to_set() == map.dom());
    let found = keys_with(map, wanted);
    assert(found.contains(found[0]));
    filter_members(keys, |key: Seq<char>| wanted(map[key]), found[0]);
    assert(keys.to_set().contains(found[0]));
}

/// One key with its value.
#[derive(Debug, PartialEq, Eq)]
pub struct Entry<V> {
    pub key: String,
    pub value: V,
}

/// A map from texts to values, held in the order of its keys.
#[derive(Debug, PartialEq, Eq)]
pub struct KeyedMap<V: View> {
    entries: Vec<Entry<V>>,
}

spec fn entry_keys<V>(entries: Seq<Entry<V>>) -> Seq<Seq<char>> {
    Seq::new(entries.len(), |i: int| entries[i].key@)
}

spec fn entry_map<V: View>(entries: Seq<Entry<V>>) -> Map<Seq<char>, V::V> {
    Map::new(
        |key: Seq<char>| entry_keys(entries).contains(key),
        |key: Seq<char>| entries[entry_keys(entries).index_of(key)].value@,
    )
}

proof fn entry_map_at<V: View>(entries: Seq<Entry<V>>, i: int)
    requires
        ascending(entry_keys(entries)),
        0 <= i < entries.len(),
    ensures
        entry_map(entries).contains_key(entries[i].key@),
        entry_map(entries)[entries[i].key@] == entries[i].value@,
{
    let keys = entry_keys(entries);
    assert(keys[i] == entries[i].key@);
    let j = keys.index_of(keys[i]);
    assert(0 <= j < keys.len() && keys[j] == keys[i]);
    crate::text::text_before_is_irreflexive(keys[i]);
    if i < j {
        assert(crate::text::text_before(keys[i], keys[j]));
    } else if j < i {
        assert(crate::text::text_before(keys[j], keys[i]));
    }
}

proof fn entry_order<V: View>(entries: Seq<Entry<V>>)
    requires
        ascending(entry_keys(entries)),
    ensures
        ordered_keys(entry_map(entries)) == entry_keys(entries),
        ordered_values(entry_map(entries)) == Seq::new(entries.len(), |i: int| entries[i].value@),
{
    let map = entry_map(entries);
    let keys = entry_keys(entries);
    assert(keys.to_set() =~= map.dom());
    let chosen = ordered_keys(map);
    assert(ascending(chosen) && chosen.to_set() == map.dom());
    ascending_is_unique(chosen, keys);
    assert forall|i: int| 0 <= i < entries.len() implies map[keys[i]] == entries[i].value@ by {
        entry_map_at(entries, i);
    }
    assert(ordered_values(map) =~= Seq::new(entries.len(), |i: int| entries[i].value@));
}

impl<V: View> View for KeyedMap<V> {
    type V = Map<Seq<char>, V::V>;

    closed spec fn view(&self) -> Map<Seq<char>, V::V> {
        entry_map(self.entries@)
    }
}

impl<V: View> KeyedMap<V> {
    #[verifier::type_invariant]
    spec fn in_order(self) -> bool {
        ascending(entry_keys(self.entries@))
    }

    /// How many keys the map holds.
    pub closed spec fn count(&self) -> nat {
        self.entries@.len()
    }

    /// A map without keys.
    pub fn new() -> (map: Self)
        ensures
            map@ == Map::<Seq<char>, V::V>::empty(),
            map.count() == 0,
    {
        let map = KeyedMap { entries: Vec::new() };
        assert(map@ =~= Map::<Seq<char>, V::V>::empty());
        map
    }

    /// How many keys the map holds.
    pub fn len(&self) -> (count: usize)
        ensures
            count == self.count(),
    {
        self.entries.len()
    }

    /// The position of the first key that does not stand before `key`.
    fn position(&self, key: &str) -> (at: usize)
        ensures
            at <= self.entries@.len(),
            forall|i: int|
                0 <= i < at ==> crate::text::text_before(
                    (#[trigger] self.entries@[i]).key@,
                    key@,
                ),
            at < self.entries@.len() ==> !crate::text::text_before(
                self.entries@[at as int].key@,
                key@,
            ),
    {
        let mut at: usize = 0;
        while at < self.entries.len() && is_text_before(self.entries[at].key.as_str(), key)
            invariant
                at <= self.entries@.len(),
                forall|i: int|
                    0 <= i < at ==> crate::text::text_before(
                        (#[trigger] self.entries@[i]).key@,
                        key@,
                    ),
            decreases self.entries@.len() - at,
        {
            at += 1;
        }
        at
    }

    /// The position of `key`, if the map holds it.
    fn find(&self, key: &str) -> (found: Option<usize>)
        ensures
            match found {
                Some(at) => at < self.entries@.len() && self.entries@[at as int].key@ == key@
                    && self@.contains_key(key@) && self@[key@] == self.entries@[at as int].value@,
                None => !self@.contains_key(key@),
            },
    {
        proof {
            use_type_invariant(self);
        }
        let ghost keys = entry_keys(self.entries@);
        for at in 0..self.entries.len()
            invariant
                keys == entry_keys(self.entries@),
                ascending(keys),
                forall|i: int| 0 <= i < at ==> #[trigger] keys[i] != key@,
        {
            if same_text(self.entries[at].key.as_str(), key) {
                proof {
                    entry_map_at(self.entries@, at as int);
                }
                return Some(at);
            }
            assert(keys[at as int] != key@);
        }
        assert(!keys.contains(key@));
        None
    }

    /// The value of `key`.
    pub fn get(&self, key: &str) -> (value: Option<&V>)
        ensures
            crate::model::opt_view(value) == self@.get(key@),
    {
        match self.find(key) {
            Some(at) => Some(&self.entries[at].value),
            None => None,
        }
    }

    /// Whether the map holds `key`.
    pub fn contains_key(&self, key: &str) -> (found: bool)
        ensures
            found == self@.contains_key(key@),
    {
        self.find(key).is_some()
    }

    /// Sets the value of `key`.
    pub fn insert(&mut self, key: String, value: V)
        ensures
            final(self)@ == old(self)@.insert(key@, value@),
            final(self).count() == old(self).count() + (if old(self)@.contains_key(key@) {
                0nat
            } else {
                1
            }),
    {
        proof {
            use_type_invariant(&*self);
        }
        let ghost before = self.entries@;
        let at = self.position(key.as_str());
        let held = at < self.entries.len() && same_text(
            self.entries[at].key.as_str(),
            key.as_str(),
        );
        let mut entries: Vec<Entry<V>> = Vec::new();
        std::mem::swap(&mut entries, &mut self.entries);
        let ghost new_entry = Entry { key, value };
        if held {
            entries[at] = Entry { key, value };
            proof {
                replaced_entry(before, at as int, new_entry);
            }
        } else {
            entries.insert(at, Entry { key, value });
            proof {
                added_entry(before, at as int, new_entry);
            }
        }
        self.entries = entries;
    }

    /// Takes `key` out of the map.
    pub fn remove(&mut self, key: &str) -> (value: Option<V>)
        ensures
            crate::model::opt_view(value) == old(self)@.get(key@),
            final(self)@ == old(self)@.remove(key@),
            final(self).count() == old(self).count() - (if old(self)@.contains_key(key@) {
                1nat
            } else {
                0
            }),
    {
        proof {
            use_type_invariant(&*self);
        }
        let ghost before = self.entries@;
        match self.find(key) {
            Some(at) => {
                let mut entries: Vec<Entry<V>> = Vec::new();
                std::mem::swap(&mut entries, &mut self.entries);
                let entry = entries.remove(at);
                proof {
                    removed_entry(before, at as int);
                }
                self.entries = entries;
                Some(entry.value)
            },
            None => {
                assert(self@ =~= self@.remove(key@));
                None
            },
        }
    }

    /// All keys in order.
    pub fn keys(&self) -> (keys: Vec<String>)
        ensures
            crate::model::views(keys@) == ordered_keys(self@),
            keys@.len() == self.count(),
    {
        proof {
            use_type_invariant(self);
            entry_order(self.entries@);
        }
        let mut keys: Vec<String> = Vec::new();
        for i in 0..self.entries.len()
            invariant
                keys@.len() == i,
                forall|j: int| 0 <= j < i ==> (#[trigger] keys@[j])@ == self.entries@[j].key@,
        {
            keys.push(self.entries[i].key.clone());
        }
        assert(crate::model::views(keys@) =~= ordered_keys(self@));
        keys
    }

    /// Changes the values that satisfy `wanted`.
    pub fn change_where<F: Fn(&V) -> bool, G: Fn(&V) -> V>(
        &mut self,
        test: F,
        change: G,
        Ghost(wanted): Ghost<spec_fn(V::V) -> bool>,
        Ghost(changed): Ghost<spec_fn(V::V) -> V::V>,
    ) -> (keys: Vec<String>)
        requires
            forall|v: &V| #[trigger] test.requires((v,)),
            forall|v: &V, b: bool| #[trigger] test.ensures((v,), b) ==> b == wanted(v@),
            forall|v: &V| #[trigger] change.requires((v,)),
            forall|v: &V, w: V| #[trigger] change.ensures((v,), w) ==> w@ == changed(v@),
        ensures
            crate::model::views(keys@) == keys_with(old(self)@, wanted),
            final(self)@ == changed_where(old(self)@, wanted, changed),
            final(self).count() == old(self).count(),
    {
        let keys = self.keys_where(test, Ghost(wanted));
        let ghost before = self@;
        let ghost hit = crate::model::views(keys@);
        let ghost pred = |key: Seq<char>| wanted(before[key]);
        proof {
            use_type_invariant(&*self);
            entry_order(self.entries@);
            assert(ordered_keys(before).to_set() == before.dom());
            assert forall|key: Seq<char>| #![auto] hit.contains(key) <==> before.contains_key(key)
                && wanted(before[key]) by {
                filter_members(ordered_keys(before), pred, key);
                if ordered_keys(before).contains(key) {
                    assert(ordered_keys(before).to_set().contains(key));
                }
                if before.contains_key(key) {
                    assert(ordered_keys(before).to_set().contains(key));
                }
            }
            assert(self@ =~= partly_changed(before, hit.take(0), changed));
        }
        for i in 0..keys.len()
            invariant
                hit == crate::model::views(keys@),
                forall|key: Seq<char>| #![auto] hit.contains(key) <==> before.contains_key(key)
                    && wanted(before[key]),
                forall|v: &V| #[trigger] change.requires((v,)),
                forall|v: &V, w: V| #[trigger] change.ensures((v,), w) ==> w@ == changed(v@),
                forall|a: int, b: int| 0 <= a < b < hit.len() ==> hit[a] != hit[b],
                self@ == partly_changed(before, hit.take(i as int), changed),
                self.count() == old(self).count(),
        {
            proof {
                assert(hit[i as int] == keys@[i as int]@);
                assert(hit.contains(hit[i as int]));
                assert(!hit.take(i as int).contains(hit[i as int]));
            }
            if let Some(value) = self.get(keys[i].as_str()) {
                let value = change(value);
                self.insert(keys[i].clone(), value);
            }
            proof {
                let head = hit.take(i as int);
                let longer = hit.take(i + 1);
                assert(longer =~= head.push(hit[i as int]));
                assert forall|key: Seq<char>| #![auto] longer.contains(key) <==> head.contains(key)
                    || key == hit[i as int] by {
                    if head.contains(key) {
                        let n = choose|n: int| 0 <= n < head.len() && head[n] == key;
                        assert(longer[n] == key);
                    }
                    assert(longer[i as int] == hit[i as int]);
                }
                assert(self@ =~= partly_changed(before, longer, changed));
            }
        }
        proof {
            assert(hit.take(hit.len() as int) =~= hit);
            assert(self@ =~= changed_where(before, wanted, changed));
        }
        keys
    }

    /// The keys, in order, whose values satisfy `wanted`.
    pub fn keys_where<F: Fn(&V) -> bool>(
        &self,
        test: F,
        Ghost(wanted): Ghost<spec_fn(V::V) -> bool>,
    ) -> (keys: Vec<String>)
        requires
            forall|v: &V| #[trigger] test.requires((v,)),
            forall|v: &V, b: bool| #[trigger] test.ensures((v,), b) ==> b == wanted(v@),
        ensures
            crate::model::views(keys@) == keys_with(self@, wanted),
            keys@.len() <= self.count(),
            forall|a: int, b: int|
                0 <= a < b < keys_with(self@, wanted).len() ==> keys_with(self@, wanted)[a]
                    != keys_with(self@, wanted)[b],
    {
        proof {
            use_type_invariant(self);
            entry_order(self.entries@);
        }
        let ghost order = ordered_keys(self@);
        let ghost pred = |key: Seq<char>| wanted(self@[key]);
        let mut keys: Vec<String> = Vec::new();
        for i in 0..self.entries.len()
            invariant
                order == entry_keys(self.entries@),
                ascending(order),
                forall|v: &V| #[trigger] test.requires((v,)),
                forall|v: &V, b: bool| #[trigger] test.ensures((v,), b) ==> b == wanted(v@),
                pred == (|key: Seq<char>| wanted(self@[key])),
                crate::model::views(keys@) == order.take(i as int).filter(pred),
                keys@.len() <= i,
        {
            proof {
                entry_map_at(self.entries@, i as int);
                let head = order.take(i + 1);
                assert(head.drop_last() =~= order.take(i as int));
                assert(head.last() == self.entries@[i as int].key@);
                reveal(Seq::filter);
            }
            if test(&self.entries[i].value) {
                keys.push(self.entries[i].key.clone());
            }
        }
        proof {
            assert(order.take(self.entries@.len() as int) =~= order);
            filter_keeps_apart(order, pred);
        }
        keys
    }

    /// The first key, in order, whose value satisfies `wanted`.
    pub fn first_key_where<F: Fn(&V) -> bool>(
        &self,
        test: F,
        Ghost(wanted): Ghost<spec_fn(V::V) -> bool>,
    ) -> (key: Option<String>)
        requires
            forall|v: &V| #[trigger] test.requires((v,)),
            forall|v: &V, b: bool| #[trigger] test.ensures((v,), b) ==> b == wanted(v@),
        ensures
            crate::model::opt_view(key) == first_key_with(self@, wanted),
            orderable(self@),
    {
        proof {
            use_type_invariant(self);
            entry_order(self.entries@);
            assert(entry_keys(self.entries@).to_set() =~= self@.dom());
        }
        let mut keys = self.keys_where(test, Ghost(wanted));
        if keys.len() > 0 {
            let key = keys.remove(0);
            assert(crate::model::views(keys@.insert(0, key)).len() > 0);
            Some(key)
        } else {
            None
        }
    }

    /// Copies the values out in the order of their keys.
    pub fn values(&self) -> (values: Vec<V>) where V: Clone
        requires
            crate::model::clone_keeps_view::<V>(),
        ensures
            crate::model::views(values@) == ordered_values(self@),
    {
        proof {
            use_type_invariant(self);
            entry_order(self.entries@);
        }
        let mut values: Vec<V> = Vec::new();
        for i in 0..self.entries.len()
            invariant
                crate::model::clone_keeps_view::<V>(),
                values@.len() == i,
                forall|j: int| 0 <= j < i ==> (#[trigger] values@[j])@ == self.entries@[j].value@,
        {
            let value = self.entries[i].value.clone();
            assert(cloned(self.entries@[i as int].value, value));
            values.push(value);
        }
        assert(crate::model::views(values@) =~= ordered_values(self@));
        values
    }

    /// Keeps only the values that satisfy `wanted`.
    pub fn retain<F: Fn(&V) -> bool>(
        &mut self,
        test: F,
        Ghost(wanted): Ghost<spec_fn(V::V) -> bool>,
    )
        requires
            forall|v: &V| #[trigger] test.requires((v,)),
            forall|v: &V, b: bool| #[trigger] test.ensures((v,), b) ==> b == wanted(v@),
        ensures
            final(self)@ == kept(old(self)@, wanted),
            final(self).count() <= old(self).count(),
    {
        let mut at: usize = 0;
        let ghost before = self@;
        let ghost order = ordered_keys(self@);
        proof {
            use_type_invariant(&*self);
            entry_order(self.entries@);
        }
        let ghost unwanted = |key: Seq<char>| !wanted(before[key]);
        let mut dropped: Vec<String> = Vec::new();
        for i in 0..self.entries.len()
            invariant
                self@ == before,
                order == entry_keys(self.entries@),
                ascending(order),
                forall|v: &V| #[trigger] test.requires((v,)),
                forall|v: &V, b: bool| #[trigger] test.ensures((v,), b) ==> b == wanted(v@),
                unwanted == (|key: Seq<char>| !wanted(before[key])),
                crate::model::views(dropped@) == order.take(i as int).filter(unwanted),
        {
            proof {
                entry_map_at(self.entries@, i as int);
                let head = order.take(i + 1);
                assert(head.drop_last() =~= order.take(i as int));
                assert(head.last() == self.entries@[i as int].key@);
                reveal(Seq::filter);
            }
            if !test(&self.entries[i].value) {
                dropped.push(self.entries[i].key.clone());
            }
        }
        assert(order.take(self.entries@.len() as int) =~= order);
        let ghost gone = crate::model::views(dropped@);
        while at < dropped.len()
            invariant
                at <= dropped@.len(),
                gone == crate::model::views(dropped@),
                self@ == before.remove_keys(gone.take(at as int).to_set()),
                self.count() <= old(self).count(),
            decreases dropped@.len() - at,
        {
            let ghost head = gone.take(at as int);
            let _ = self.remove(dropped[at].as_str());
            proof {
                let longer = gone.take(at + 1);
                assert(longer =~= head.push(gone[at as int]));
                assert forall|key: Seq<char>| longer.to_set().contains(key) <==> (
                head.to_set().contains(key) || key == gone[at as int]) by {
                    if head.contains(key) {
                        let n = choose|n: int| 0 <= n < head.len() && head[n] == key;
                        assert(longer[n] == key);
                    }
                    if key == gone[at as int] {
                        assert(longer[at as int] == key);
                    }
                }
                assert(self@ =~= before.remove_keys(longer.to_set()));
            }
            at += 1;
        }
        proof {
            assert(gone.take(dropped@.len() as int) =~= gone);
            assert forall|key: Seq<char>| before.contains_key(key) implies (gone.contains(key)
                <==> !wanted(before[key])) by {
                filter_members(order, unwanted, key);
                assert(order.to_set() == before.dom());
                assert(order.to_set().contains(key));
            }
            assert(self@ =~= kept(before, wanted));
        }
    }
}

/// The map with the values at `keys` changed.
spec fn partly_changed<V>(
    map: Map<Seq<char>, V>,
    keys: Seq<Seq<char>>,
    changed: spec_fn(V) -> V,
) -> Map<Seq<char>, V> {
    Map::new(
        |key: Seq<char>| map.contains_key(key),
        |key: Seq<char>|
            if keys.contains(key) {
                changed(map[key])
            } else {
                map[key]
            },
    )
}

/// The map with the values that satisfy `wanted` changed.
pub open spec fn changed_where<V>(
    map: Map<Seq<char>, V>,
    wanted: spec_fn(V) -> bool,
    changed: spec_fn(V) -> V,
) -> Map<Seq<char>, V> {
    Map::new(
        |key: Seq<char>| map.contains_key(key),
        |key: Seq<char>|
            if wanted(map[key]) {
                changed(map[key])
            } else {
                map[key]
            },
    )
}

proof fn filter_keeps_apart(keys: Seq<Seq<char>>, wanted: spec_fn(Seq<char>) -> bool)
    requires
        ascending(keys),
    ensures
        forall|a: int, b: int|
            0 <= a < b < keys.filter(wanted).len() ==> keys.filter(wanted)[a] != keys.filter(
                wanted,
            )[b],
    decreases keys.len(),
{
    reveal(Seq::filter);
    if keys.len() > 0 {
        let head = keys.drop_last();
        assert(ascending(head)) by {
            assert forall|i: int, j: int| 0 <= i < j < head.len() implies crate::text::text_before(
                #[trigger] head[i],
                #[trigger] head[j],
            ) by {
                assert(head[i] == keys[i] && head[j] == keys[j]);
            }
        }
        filter_keeps_apart(head, wanted);
        let rest = head.filter(wanted);
        assert forall|a: int| 0 <= a < rest.len() implies rest[a] != keys.last() by {
            assert(rest.contains(rest[a]));
            filter_members(head, wanted, rest[a]);
            let n = choose|n: int| 0 <= n < head.len() && head[n] == rest[a];
            assert(crate::text::text_before(keys[n], keys[keys.len() - 1]));
            crate::text::text_before_is_irreflexive(keys.last());
        }
    }
}

/// What a filtered sequence holds.
pub proof fn filter_members<A>(items: Seq<A>, wanted: spec_fn(A) -> bool, item: A)
    ensures
        items.filter(wanted).contains(item) <==> items.contains(item) && wanted(item),
    decreases items.len(),
{
    reveal(Seq::filter);
    if items.len() > 0 {
        let head = items.drop_last();
        filter_members(head, wanted, item);
        assert(items =~= head.push(items.last()));
        if items.contains(item) {
            let n = choose|n: int| 0 <= n < items.len() && items[n] == item;
            if n < head.len() {
                assert(head[n] == item);
            }
        }
        if head.contains(item) {
            let n = choose|n: int| 0 <= n < head.len() && head[n] == item;
            assert(items[n] == item);
        }
        let kept_head = head.filter(wanted);
        if wanted(items.last()) {
            let all = kept_head.push(items.last());
            if kept_head.contains(item) {
                let n = choose|n: int| 0 <= n < kept_head.len() && kept_head[n] == item;
                assert(all[n] == item);
            }
            if item == items.last() {
                assert(all[kept_head.len() as int] == item);
                assert(items[items.len() - 1] == item);
            }
            if all.contains(item) {
                let n = choose|n: int| 0 <= n < all.len() && all[n] == item;
                if n < kept_head.len() {
                    assert(kept_head[n] == item);
                }
            }
        }
    }
}

proof fn replaced_entry<V: View>(entries: Seq<Entry<V>>, at: int, entry: Entry<V>)
    requires
        ascending(entry_keys(entries)),
        0 <= at < entries.len(),
        entries[at].key@ == entry.key@,
    ensures
        ascending(entry_keys(entries.update(at, entry))),
        entry_map(entries.update(at, entry)) == entry_map(entries).insert(entry.key@, entry.value@),
        entry_map(entries).contains_key(entry.key@),
{
    let after = entries.update(at, entry);
    assert(entry_keys(after) =~= entry_keys(entries));
    entry_map_at(entries, at);
    assert forall|key: Seq<char>| entry_map(after).contains_key(key) implies entry_map(after)[key]
        == entry_map(entries).insert(entry.key@, entry.value@)[key] by {
        let keys = entry_keys(after);
        let i = choose|i: int| 0 <= i < keys.len() && keys[i] == key;
        entry_map_at(after, i);
        entry_map_at(entries, i);
        entry_map_at(after, at);
    }
    assert(entry_map(after) =~= entry_map(entries).insert(entry.key@, entry.value@));
}

proof fn added_entry<V: View>(entries: Seq<Entry<V>>, at: int, entry: Entry<V>)
    requires
        ascending(entry_keys(entries)),
        0 <= at <= entries.len(),
        forall|i: int|
            0 <= i < at ==> crate::text::text_before((#[trigger] entries[i]).key@, entry.key@),
        at < entries.len() ==> !crate::text::text_before(entries[at].key@, entry.key@),
        at < entries.len() ==> entries[at].key@ != entry.key@,
    ensures
        ascending(entry_keys(entries.insert(at, entry))),
        entry_map(entries.insert(at, entry)) == entry_map(entries).insert(entry.key@, entry.value@),
        !entry_map(entries).contains_key(entry.key@),
{
    let after = entries.insert(at, entry);
    let keys = entry_keys(after);
    let old_keys = entry_keys(entries);
    assert forall|i: int| at <= i < entries.len() implies crate::text::text_before(
        entry.key@,
        #[trigger] old_keys[i],
    ) by {
        crate::text::text_before_is_total(entries[at].key@, entry.key@);
        if i > at {
            assert(crate::text::text_before(old_keys[at], old_keys[i]));
            crate::text::text_before_is_transitive(entry.key@, old_keys[at], old_keys[i]);
        }
    }
    assert forall|i: int, j: int| 0 <= i < j < keys.len() implies crate::text::text_before(
        #[trigger] keys[i],
        #[trigger] keys[j],
    ) by {
        if j < at {
            assert(keys[i] == old_keys[i] && keys[j] == old_keys[j]);
        } else if j == at {
            assert(keys[i] == entries[i].key@);
        } else if i < at {
            assert(keys[i] == old_keys[i] && keys[j] == old_keys[j - 1]);
        } else if i == at {
            assert(keys[j] == old_keys[j - 1]);
        } else {
            assert(keys[i] == old_keys[i - 1] && keys[j] == old_keys[j - 1]);
        }
    }
    if old_keys.contains(entry.key@) {
        let i = choose|i: int| 0 <= i < old_keys.len() && old_keys[i] == entry.key@;
        crate::text::text_before_is_irreflexive(entry.key@);
        if i < at {
            assert(crate::text::text_before(entries[i].key@, entry.key@));
        } else {
            assert(crate::text::text_before(entry.key@, old_keys[i]));
        }
    }
    assert forall|key: Seq<char>| keys.contains(key) <==> (old_keys.contains(key) || key
        == entry.key@) by {
        if keys.contains(key) {
            let i = choose|i: int| 0 <= i < keys.len() && keys[i] == key;
            if i < at {
                assert(old_keys[i] == key);
            } else if i > at {
                assert(old_keys[i - 1] == key);
            }
        }
        if old_keys.contains(key) {
            let i = choose|i: int| 0 <= i < old_keys.len() && old_keys[i] == key;
            if i < at {
                assert(keys[i] == key);
            } else {
                assert(keys[i + 1] == key);
            }
        }
        assert(keys[at] == entry.key@);
    }
    assert forall|key: Seq<char>| keys.contains(key) implies entry_map(after)[key] == entry_map(
        entries,
    ).insert(entry.key@, entry.value@)[key] by {
        let i = choose|i: int| 0 <= i < keys.len() && keys[i] == key;
        entry_map_at(after, i);
        if i < at {
            entry_map_at(entries, i);
        } else if i > at {
            entry_map_at(entries, i - 1);
        }
    }
    assert(entry_map(after) =~= entry_map(entries).insert(entry.key@, entry.value@));
}

proof fn removed_entry<V: View>(entries: Seq<Entry<V>>, at: int)
    requires
        ascending(entry_keys(entries)),
        0 <= at < entries.len(),
    ensures
        ascending(entry_keys(entries.remove(at))),
        entry_map(entries.remove(at)) == entry_map(entries).remove(entries[at].key@),
{
    let after = entries.remove(at);
    let keys = entry_keys(after);
    let old_keys = entry_keys(entries);
    assert forall|i: int, j: int| 0 <= i < j < keys.len() implies crate::text::text_before(
        #[trigger] keys[i],
        #[trigger] keys[j],
    ) by {
        let a = if i < at { i } else { i + 1 };
        let b = if j < at { j } else { j + 1 };
        assert(keys[i] == old_keys[a] && keys[j] == old_keys[b]);
    }
    crate::text::text_before_is_irreflexive(old_keys[at]);
    assert forall|key: Seq<char>| keys.contains(key) <==> (old_keys.contains(key) && key
        != old_keys[at]) by {
        if keys.contains(key) {
            let i = choose|i: int| 0 <= i < keys.len() && keys[i] == key;
            let a = if i < at { i } else { i + 1 };
            assert(old_keys[a] == key);
            if a < at {
                assert(crate::text::text_before(old_keys[a], old_keys[at]));
            } else {
                assert(crate::text::text_before(old_keys[at], old_keys[a]));
            }
        }
        if old_keys.contains(key) && key != old_keys[at] {
            let i = choose|i: int| 0 <= i < old_keys.len() && old_keys[i] == key;
            if i < at {
                assert(keys[i] == key);
            } else {
                assert(keys[i - 1] == key);
            }
        }
    }
    assert forall|key: Seq<char>| keys.contains(key) implies entry_map(after)[key] == entry_map(
        entries,
    )[key] by {
        let i = choose|i: int| 0 <= i < keys.len() && keys[i] == key;
        entry_map_at(after, i);
        entry_map_at(entries, if i < at { i } else { i + 1 });
    }
    assert(entry_map(after) =~= entry_map(entries).remove(old_keys[at]));
}

proof fn one_more_in_order(keys: Seq<Seq<char>>, key: Seq<char>) -> (more: Seq<Seq<char>>)
    requires
        ascending(keys),
        !keys.contains(key),
    ensures
        ascending(more),
        more.to_set() == keys.to_set().insert(key),
    decreases keys.len(),
{
    if keys.len() == 0 {
        let more = seq![key];
        assert(more[0] == key);
        assert(more.to_set() =~= keys.to_set().insert(key));
        more
    } else if crate::text::text_before(keys.last(), key) {
        let more = keys.push(key);
        assert forall|i: int, j: int| 0 <= i < j < more.len() implies crate::text::text_before(
            #[trigger] more[i],
            #[trigger] more[j],
        ) by {
            if j == keys.len() && i < keys.len() - 1 {
                assert(crate::text::text_before(keys[i], keys.last()));
                crate::text::text_before_is_transitive(keys[i], keys.last(), key);
            }
        }
        assert(more.to_set() =~= keys.to_set().insert(key)) by {
            assert forall|k: Seq<char>| keys.to_set().insert(key).contains(k) implies
                more.to_set().contains(k) by {
                if k == key {
                    assert(more[keys.len() as int] == k);
                } else {
                    let i = choose|i: int| 0 <= i < keys.len() && keys[i] == k;
                    assert(more[i] == k);
                }
            }
            assert forall|k: Seq<char>| more.to_set().contains(k) implies
                keys.to_set().insert(key).contains(k) by {
                let i = choose|i: int| 0 <= i < more.len() && more[i] == k;
                if i < keys.len() {
                    assert(keys[i] == k);
                }
            }
        }
        more
    } else {
        let head = keys.drop_last();
        let last = keys.last();
        assert(keys[keys.len() - 1] == last);
        assert forall|i: int, j: int| 0 <= i < j < head.len() implies crate::text::text_before(
            #[trigger] head[i],
            #[trigger] head[j],
        ) by {
            assert(head[i] == keys[i] && head[j] == keys[j]);
        }
        if head.contains(key) {
            let i = choose|i: int| 0 <= i < head.len() && head[i] == key;
            assert(keys[i] == key);
        }
        let inner = one_more_in_order(head, key);
        crate::text::text_before_is_total(last, key);
        let more = inner.push(last);
        assert forall|i: int| 0 <= i < inner.len() implies crate::text::text_before(
            #[trigger] inner[i],
            last,
        ) by {
            assert(inner.to_set().contains(inner[i]));
            if inner[i] != key {
                assert(head.to_set().contains(inner[i]));
                let k = choose|k: int| 0 <= k < head.len() && head[k] == inner[i];
                assert(crate::text::text_before(keys[k], keys[keys.len() - 1]));
            }
        }
        assert forall|i: int, j: int| 0 <= i < j < more.len() implies crate::text::text_before(
            #[trigger] more[i],
            #[trigger] more[j],
        ) by {
            if j < inner.len() {
                assert(more[i] == inner[i] && more[j] == inner[j]);
            } else {
                assert(more[i] == inner[i]);
            }
        }
        assert(more.to_set() =~= keys.to_set().insert(key)) by {
            assert forall|k: Seq<char>| keys.to_set().insert(key).contains(k) implies
                more.to_set().contains(k) by {
                if k == last {
                    assert(more[inner.len() as int] == k);
                } else {
                    if k != key {
                        let i = choose|i: int| 0 <= i < keys.len() && keys[i] == k;
                        assert(head[i] == k);
                        assert(head.to_set().contains(k));
                    }
                    assert(inner.to_set().contains(k));
                    let i = choose|i: int| 0 <= i < inner.len() && inner[i] == k;
                    assert(more[i] == k);
                }
            }
            assert forall|k: Seq<char>| more.to_set().contains(k) implies
                keys.to_set().insert(key).contains(k) by {
                let i = choose|i: int| 0 <= i < more.len() && more[i] == k;
                if i < inner.len() {
                    assert(inner[i] == k);
                    assert(inner.to_set().contains(k));
                    if k != key {
                        assert(head.to_set().contains(k));
                        let n = choose|n: int| 0 <= n < head.len() && head[n] == k;
                        assert(keys[n] == k);
                    }
                }
            }
        }
        more
    }
}

proof fn finite_sets_can_be_ordered(keys: Set<Seq<char>>) -> (ordered: Seq<Seq<char>>)
    requires
        keys.finite(),
    ensures
        ascending(ordered),
        ordered.to_set() == keys,
    decreases keys.len(),
{
    if keys.len() == 0 {
        let ordered = Seq::<Seq<char>>::empty();
        assert(ordered.to_set() =~= keys);
        ordered
    } else {
        let key = keys.choose();
        let rest = finite_sets_can_be_ordered(keys.remove(key));
        if rest.contains(key) {
            assert(rest.to_set().contains(key));
        }
        let ordered = one_more_in_order(rest, key);
        assert(ordered.to_set() =~= keys);
        ordered
    }
}

/// The keys of a finite map can be put in order.
pub proof fn finite_maps_can_be_ordered<V>(map: Map<Seq<char>, V>)
    requires
        map.dom().finite(),
    ensures
        orderable(map),
        ordered_keys(map).to_set() == map.dom(),
{
    let keys = finite_sets_can_be_ordered(map.dom());
    assert(ascending(keys) && keys.to_set() == map.dom());
}

/// The keys whose values satisfy `wanted` are those of a finite map that do.
pub proof fn keys_with_are_found<V>(map: Map<Seq<char>, V>, wanted: spec_fn(V) -> bool)
    requires
        map.dom().finite(),
    ensures
        forall|key: Seq<char>| #[trigger]
            keys_with(map, wanted).contains(key) <==> map.contains_key(key) && wanted(map[key]),
{
    finite_maps_can_be_ordered(map);
    assert forall|key: Seq<char>| #[trigger]
        keys_with(map, wanted).contains(key) <==> map.contains_key(key) && wanted(map[key]) by {
        filter_members(ordered_keys(map), |key: Seq<char>| wanted(map[key]), key);
        assert(ordered_keys(map).contains(key) <==> ordered_keys(map).to_set().contains(key));
    }
}

/// The keys whose values satisfy `wanted` are all different.
pub proof fn keys_with_are_apart<V>(map: Map<Seq<char>, V>, wanted: spec_fn(V) -> bool)
    requires
        map.dom().finite(),
    ensures
        keys_with(map, wanted).no_duplicates(),
{
    finite_maps_can_be_ordered(map);
    filter_keeps_apart(ordered_keys(map), |key: Seq<char>| wanted(map[key]));
}

/// The list of a map's values holds each of them under its key once, in the order of the keys.
pub proof fn values_are_listed_once<V>(map: Map<Seq<char>, V>)
    requires
        map.dom().finite(),
    ensures
        ordered_values(map).len() == map.dom().len(),
        forall|key: Seq<char>| #[trigger]
            map.contains_key(key) ==> ordered_values(map).contains(map[key]),
        forall|i: int|
            0 <= i < ordered_values(map).len() ==> map.contains_key(ordered_keys(map)[i])
                && #[trigger] ordered_values(map)[i] == map[ordered_keys(map)[i]],
        forall|i: int, j: int|
            0 <= i < j < ordered_keys(map).len() ==> crate::text::text_before(
                #[trigger] ordered_keys(map)[i],
                #[trigger] ordered_keys(map)[j],
            ),
{
    finite_maps_can_be_ordered(map);
    let keys = ordered_keys(map);
    assert(keys.no_duplicates()) by {
        assert forall|i: int, j: int| 0 <= i < j < keys.len() implies keys[i] != keys[j] by {
            crate::text::text_before_is_irreflexive(keys[i]);
        }
    }
    keys.unique_seq_to_set();
    assert forall|key: Seq<char>| #[trigger] map.contains_key(key) implies ordered_values(
        map,
    ).contains(map[key]) by {
        assert(keys.to_set().contains(key));
        let i = choose|i: int| 0 <= i < keys.len() && keys[i] == key;
        assert(ordered_values(map)[i] == map[key]);
    }
    assert forall|i: int| 0 <= i < keys.len() implies map.contains_key(#[trigger] keys[i]) by {
        assert(keys.to_set().contains(keys[i]));
    }
}

} // verus!
