//! What the emitted declarations do when they run: the wrapper with its
//! stepping operation, and the three shims, written as the Rust that they
//! stand for.

use vstd::prelude::*;

verus! {

/// The wrapper of the list-like transform, for items of type `T`. It owns
/// the items that it has not handed out yet and hands each of them out once.
pub struct ListWrapper<T> {
    /// The items that are left, the next one last.
    rest: Vec<T>,
}

/// One call of the stepping operation on the items that are left: the item
/// that is handed out, if any, and the items that are left after it.
pub open spec fn step<T>(remaining: Seq<T>) -> (Option<T>, Seq<T>) {
    if remaining.len() > 0 {
        (Some(remaining[0]), remaining.drop_first())
    } else {
        (None, remaining)
    }
}

/// The items that are left after `calls` calls of the stepping operation.
pub open spec fn after_steps<T>(remaining: Seq<T>, calls: nat) -> Seq<T>
    decreases calls,
{
    if calls == 0 {
        remaining
    } else {
        step(after_steps(remaining, (calls - 1) as nat)).1
    }
}

impl<T> ListWrapper<T> {
    /// The items that the wrapper has not handed out yet, in the order in
    /// which it will hand them out.
    pub closed spec fn remaining(&self) -> Seq<T> {
        self.rest@.reverse()
    }

    /// The conversion from a vector: the wrapper holds the items of the
    /// vector, in the vector's order, none left out and none twice.
    pub fn from(vec: Vec<T>) -> (list: Self)
        ensures
            list.remaining() == vec@,
    {
        let mut vec = vec;
        let ghost items = vec@;
        let mut rest: Vec<T> = Vec::new();
        while vec.len() > 0
            invariant
                vec@ + rest@.reverse() == items,
            decreases vec.len(),
        {
            let ghost before = vec@;
            let ghost stacked = rest@;
            let item = vec.pop().unwrap();
            rest.push(item);
            proof {
                assert(rest@.reverse() =~= seq![item] + stacked.reverse());
                assert(before =~= vec@ + seq![item]);
                assert(vec@ + rest@.reverse() =~= before + stacked.reverse());
            }
        }
        proof {
            assert(vec@ + rest@.reverse() =~= rest@.reverse());
        }
        ListWrapper { rest }
    }

    /// The stepping operation: the next item, which the wrapper then holds
    /// no longer, or nothing once no item is left.
    pub fn next(&mut self) -> (item: Option<T>)
        ensures
            (item, final(self).remaining()) == step(old(self).remaining()),
    {
        let ghost before = self.rest@;
        let item = self.rest.pop();
        proof {
            if before.len() > 0 {
                assert(self.rest@.reverse() =~= before.reverse().drop_first());
            }
        }
        item
    }
}

/// The wrapper hands out the items that it was made from, each once and in
/// their order, then nothing, and nothing again at every later call: call
/// number `calls`, counted from zero, yields the item at that place where
/// there is one, and nothing where there is none.
pub proof fn stepping_keeps_order<T>(items: Seq<T>, calls: nat)
    ensures
        after_steps(items, calls) == if calls <= items.len() {
            items.skip(calls as int)
        } else {
            Seq::empty()
        },
        step(after_steps(items, calls)).0 == if calls < items.len() {
            Some(items[calls as int])
        } else {
            None
        },
    decreases calls,
{
    if calls == 0 {
        assert(items.skip(0) =~= items);
    } else {
        let earlier = (calls - 1) as nat;
        stepping_keeps_order(items, earlier);
        if calls <= items.len() {
            assert(items.skip(earlier as int).drop_first() =~= items.skip(calls as int));
        } else if earlier == items.len() {
            assert(items.skip(earlier as int) =~= Seq::<T>::empty());
        }
    }
}

impl<T> ListWrapper<T> {
    /// The array bridge at run time: the shim calls the stepping operation
    /// until nothing comes back and collects what came. The array holds the
    /// items that the wrapper had left, in their order; the wrapper is used
    /// up.
    pub fn into_js_array(self) -> (items: Vec<T>)
        ensures
            items@ == self.remaining(),
    {
        let mut list = self;
        let mut items: Vec<T> = Vec::new();
        loop
            invariant
                items@ + list.remaining() == self.remaining(),
            decreases list.remaining().len(),
        {
            let ghost collected = items@;
            let ghost left = list.remaining();
            match list.next() {
                Some(item) => {
                    items.push(item);
                    proof {
                        assert(left =~= seq![item] + list.remaining());
                        assert(items@ + list.remaining() =~= collected + left);
                    }
                },
                None => {
                    proof {
                        assert(items@ + list.remaining() =~= items@);
                    }
                    return items;
                },
            }
        }
    }
}

/// One named property of a foreign value.
#[derive(Clone, Debug, PartialEq, Eq)]
pub struct Property {
    pub name: String,
    pub value: String,
}

/// A foreign value as the object shim sees one: a value with named
/// properties.
#[derive(Clone, Debug, PartialEq, Eq)]
pub struct Record {
    pub properties: Vec<Property>,
}

/// The value of the first property of the given name, if there is one.
pub open spec fn property_value(properties: Seq<Property>, name: Seq<char>) -> Option<Seq<char>>
    decreases properties.len(),
{
    if properties.len() == 0 {
        None
    } else if properties[0].name@ == name {
        Some(properties[0].value@)
    } else {
        property_value(properties.drop_first(), name)
    }
}

/// What the foreign side reads where a value has no property of the name
/// that is asked for.
pub open spec fn undefined() -> Seq<char> {
    "undefined"@
}

impl Record {
    /// The key under which the object shim files the value: what the value
    /// holds under the key property.
    pub open spec fn key(self, property: Seq<char>) -> Seq<char> {
        match property_value(self.properties@, property) {
            Some(value) => value,
            None => undefined(),
        }
    }

    /// Reads the key property off the value.
    pub fn read_key(&self, property: &str) -> (key: String)
        ensures
            key@ == self.key(property@),
    {
        let wanted = String::from_str(property);
        let mut i: usize = 0;
        assert(self.properties@.skip(0) =~= self.properties@);
        while i < self.properties.len()
            invariant
                i <= self.properties.len(),
                wanted@ == property@,
                property_value(self.properties@, property@) == property_value(
                    self.properties@.skip(i as int),
                    property@,
                ),
            decreases self.properties.len() - i,
        {
            let ghost left = self.properties@.skip(i as int);
            assert(left[0] == self.properties[i as int]);
            if self.properties[i].name == wanted {
                return self.properties[i].value.clone();
            }
            assert(left.drop_first() =~= self.properties@.skip(i + 1));
            i += 1;
        }
        String::from_str("undefined")
    }
}

/// One entry of a foreign record: a key, and the value filed under it.
#[derive(Clone, Debug, PartialEq, Eq)]
pub struct Entry {
    pub key: String,
    pub value: Record,
}

/// A foreign record: values filed under keys, the keys in the order in
/// which they were first filed.
#[derive(Clone, Debug, PartialEq, Eq)]
pub struct ForeignObject {
    pub entries: Vec<Entry>,
}

/// Whether the entry at place `at` has the key `key`.
pub open spec fn keyed_at(entries: Seq<Entry>, at: int, key: Seq<char>) -> bool {
    0 <= at < entries.len() && entries[at].key@ == key
}

/// No key stands in two of the entries.
pub open spec fn distinct_keys(entries: Seq<Entry>) -> bool {
    forall|i: int, j: int|
        0 <= i < j < entries.len() ==> #[trigger] entries[i].key@ != #[trigger] entries[j].key@
}

impl ForeignObject {
    /// No key stands in two entries.
    pub open spec fn wf(self) -> bool {
        distinct_keys(self.entries@)
    }
}

impl View for ForeignObject {
    type V = Map<Seq<char>, Record>;

    /// The record as a map from each key to the value of the entry with
    /// that key.
    open spec fn view(&self) -> Map<Seq<char>, Record> {
        Map::new(
            |key: Seq<char>| exists|at: int| keyed_at(self.entries@, at, key),
            |key: Seq<char>| self.entries[choose|at: int| keyed_at(self.entries@, at, key)].value,
        )
    }
}

/// The keys of the entries, in the order of the entries.
pub open spec fn keys_of(entries: Seq<Entry>) -> Seq<Seq<char>> {
    entries.map_values(|entry: Entry| entry.key@)
}

/// The keys of the items, each at the place where it first occurs.
pub open spec fn first_keys(items: Seq<Record>, property: Seq<char>) -> Seq<Seq<char>>
    decreases items.len(),
{
    if items.len() == 0 {
        Seq::empty()
    } else {
        let earlier = first_keys(items.drop_last(), property);
        let key = items.last().key(property);
        if earlier.contains(key) {
            earlier
        } else {
            earlier.push(key)
        }
    }
}

/// What the object shim makes of the items in their order: each item is
/// filed under its key, and of two items with one key the later one stays.
pub open spec fn record_of(items: Seq<Record>, property: Seq<char>) -> Map<Seq<char>, Record>
    decreases items.len(),
{
    if items.len() == 0 {
        Map::empty()
    } else {
        record_of(items.drop_last(), property).insert(items.last().key(property), items.last())
    }
}

/// Whether the entries stand for the map: every entry is in the map under
/// its key, and every key of the map has an entry.
spec fn stands_for(entries: Seq<Entry>, map: Map<Seq<char>, Record>) -> bool {
    &&& forall|at: int|
        0 <= at < entries.len() ==> map.contains_key(#[trigger] entries[at].key@)
            && map[entries[at].key@] == entries[at].value
    &&& forall|key: Seq<char>| #[trigger]
        map.contains_key(key) ==> exists|at: int| keyed_at(entries, at, key)
}

/// Filing an item keeps every key of the map covered by an entry: the keys
/// that had an entry keep it, and the key of the item has the entry at
/// `at`.
proof fn keys_stay_covered(
    before: Seq<Entry>,
    after: Seq<Entry>,
    map: Map<Seq<char>, Record>,
    key: Seq<char>,
    item: Record,
    at: int,
)
    requires
        forall|other: Seq<char>| #[trigger]
            map.contains_key(other) ==> exists|i: int| keyed_at(before, i, other),
        before.len() <= after.len(),
        forall|i: int| 0 <= i < before.len() ==> (#[trigger] after[i]).key@ == before[i].key@,
        keyed_at(after, at, key),
    ensures
        forall|other: Seq<char>| #[trigger]
            map.insert(key, item).contains_key(other) ==> exists|i: int|
                keyed_at(after, i, other),
{
    assert forall|other: Seq<char>| #[trigger]
        map.insert(key, item).contains_key(other) implies exists|i: int|
        keyed_at(after, i, other) by {
        if other == key {
            assert(keyed_at(after, at, other));
        } else {
            let i = choose|i: int| keyed_at(before, i, other);
            assert(after[i].key@ == before[i].key@);
            assert(keyed_at(after, i, other));
        }
    }
}

/// The place of the entry with the given key, if there is one.
fn place_of(entries: &Vec<Entry>, key: &String) -> (place: Option<usize>)
    ensures
        match place {
            Some(at) => keyed_at(entries@, at as int, key@),
            None => forall|at: int| !keyed_at(entries@, at, key@),
        },
{
    let mut i: usize = 0;
    while i < entries.len()
        invariant
            i <= entries.len(),
            forall|at: int| 0 <= at < i ==> !keyed_at(entries@, at, key@),
        decreases entries.len() - i,
    {
        if entries[i].key == *key {
            return Some(i);
        }
        i += 1;
    }
    None
}

impl ListWrapper<Record> {
    /// The object bridge at run time: the shim calls the stepping operation
    /// until nothing comes back, reads the key property of each item and
    /// files the item under what it read. The record holds, under each key,
    /// the last of the wrapper's items with that key; the wrapper is used
    /// up.
    pub fn into_js_object(self, key_property: &str) -> (object: ForeignObject)
        ensures
            object.wf(),
            object@ == record_of(self.remaining(), key_property@),
            keys_of(object.entries@) == first_keys(self.remaining(), key_property@),
    {
        let mut list = self;
        let mut entries: Vec<Entry> = Vec::new();
        let ghost mut filed: Seq<Record> = Seq::empty();
        proof {
            assert(filed + list.remaining() =~= self.remaining());
        }
        loop
            invariant
                filed + list.remaining() == self.remaining(),
                distinct_keys(entries@),
                stands_for(entries@, record_of(filed, key_property@)),
                keys_of(entries@) == first_keys(filed, key_property@),
            decreases list.remaining().len(),
        {
            let ghost left = list.remaining();
            let ghost map = record_of(filed, key_property@);
            let ghost before = entries@;
            match list.next() {
                Some(item) => {
                    let key = item.read_key(key_property);
                    let ghost next = filed.push(item);
                    proof {
                        assert(next.drop_last() =~= filed);
                        assert(left =~= seq![item] + list.remaining());
                        assert(next + list.remaining() =~= filed + left);
                    }
                    match place_of(&entries, &key) {
                        Some(at) => {
                            entries.set(at, Entry { key, value: item });
                            proof {
                                assert(keys_of(entries@) =~= keys_of(before));
                                assert(keys_of(before)[at as int] == key@);
                                assert forall|i: int| 0 <= i < entries.len() implies (
                                #[trigger] entries[i].key@) == before[i].key@ by {}
                                keys_stay_covered(before, entries@, map, key@, item, at as int);
                            }
                        },
                        None => {
                            entries.push(Entry { key, value: item });
                            proof {
                                assert(keys_of(entries@) =~= keys_of(before).push(key@));
                                assert forall|i: int| 0 <= i < before.len() implies keys_of(
                                    before,
                                )[i] != key@ by {
                                    assert(!keyed_at(before, i, key@));
                                }
                                assert forall|i: int, j: int|
                                    0 <= i < j < entries.len() implies #[trigger] entries@[i].key@
                                    != #[trigger] entries@[j].key@ by {
                                    if j == before.len() {
                                        assert(!keyed_at(before, i, key@));
                                    } else {
                                        assert(entries@[i] == before[i]);
                                        assert(entries@[j] == before[j]);
                                    }
                                }
                                assert forall|i: int| 0 <= i < entries.len() implies map.insert(
                                    key@,
                                    item,
                                ).contains_key(#[trigger] entries[i].key@) && map.insert(
                                    key@,
                                    item,
                                )[entries[i].key@] == entries[i].value by {
                                    if i < before.len() {
                                        assert(!keyed_at(before, i, key@));
                                        assert(entries[i] == before[i]);
                                    }
                                }
                                keys_stay_covered(
                                    before,
                                    entries@,
                                    map,
                                    key@,
                                    item,
                                    before.len() as int,
                                );
                            }
                        },
                    }
                    proof {
                        filed = next;
                    }
                },
                None => {
                    let object = ForeignObject { entries };
                    proof {
                        assert(filed + list.remaining() =~= filed);
                        assert forall|key: Seq<char>| object@.contains_key(key) implies #[trigger]
                            map.contains_key(key) && map[key] == object@[key] by {
                            let at = choose|at: int| keyed_at(object.entries@, at, key);
                            assert(map.contains_key(object.entries[at].key@));
                        }
                        assert(object@ =~= map);
                    }
                    return object;
                },
            }
        }
    }
}

/// Last write wins: an item behind which no item has the same key is what
/// the record holds under that key.
pub proof fn last_write_wins(items: Seq<Record>, property: Seq<char>, at: int)
    requires
        0 <= at < items.len(),
        forall|later: int|
            at < later < items.len() ==> (#[trigger] items[later]).key(property) != items[at].key(
                property,
            ),
    ensures
        record_of(items, property).contains_key(items[at].key(property)),
        record_of(items, property)[items[at].key(property)] == items[at],
    decreases items.len(),
{
    if at < items.len() - 1 {
        let front = items.drop_last();
        assert(items.last() == items[items.len() - 1]);
        assert forall|later: int| at < later < front.len() implies (#[trigger] front[later]).key(
            property,
        ) != front[at].key(property) by {
            assert(front[later] == items[later]);
        }
        last_write_wins(front, property, at);
    }
}

/// The record has a key exactly where one of the items has it.
pub proof fn record_keys(items: Seq<Record>, property: Seq<char>, key: Seq<char>)
    ensures
        record_of(items, property).contains_key(key) <==> exists|at: int|
            0 <= at < items.len() && (#[trigger] items[at]).key(property) == key,
    decreases items.len(),
{
    if items.len() > 0 {
        let front = items.drop_last();
        record_keys(front, property, key);
        if record_of(front, property).contains_key(key) {
            let at = choose|at: int|
                0 <= at < front.len() && (#[trigger] front[at]).key(property) == key;
            assert(items[at].key(property) == key);
        }
        if items.last().key(property) == key {
            assert(items[items.len() - 1].key(property) == key);
        }
        if exists|at: int| 0 <= at < items.len() && (#[trigger] items[at]).key(property) == key {
            let at = choose|at: int|
                0 <= at < items.len() && (#[trigger] items[at]).key(property) == key;
            if at < front.len() {
                assert(front[at].key(property) == key);
            }
        }
    }
}

/// The foreign view of an enum value: the value's discriminant, seen under
/// the declared type name.
#[derive(Clone, Copy, Debug, PartialEq, Eq, Structural)]
pub struct ForeignEnum {
    pub discriminant: u32,
}

/// The reinterpreting shim: it hands back what it was given, unchanged.
pub fn reinterpret(thing: u32) -> (view: ForeignEnum)
    ensures
        view.discriminant == thing,
{
    ForeignEnum { discriminant: thing }
}

/// The enum bridge at run time: the value is cast to its discriminant and
/// handed to the shim, so the foreign view of every variant holds that
/// variant's discriminant.
pub fn into_js_enum(discriminant: u32) -> (view: ForeignEnum)
    ensures
        view == (ForeignEnum { discriminant }),
{
    reinterpret(discriminant)
}

} // verus!
