//! A finite map keyed by strings.

use vstd::prelude::*;
use vstd::string::*;
use vstd::utf8::{decode_utf8, encode_utf8, encode_utf8_decode_utf8};

verus! {

/// A finite map from strings to values.
///
/// The bindings are kept as a list in ascending order of their keys, so that
/// no key occurs twice and two maps with the same bindings hold the same
/// list. Contracts speak of the map through its view, a `Map` from the
/// characters of a key to the value stored under it.
#[derive(Debug, PartialEq)]
pub struct StringMap<V> {
    entries: Vec<(String, V)>,
}

/// Whether `left` comes before `right`, with `at` as the first position at
/// which they differ: `left` has the smaller byte there, or ends there while
/// `right` goes on.
pub open spec fn precedes_at(left: Seq<u8>, right: Seq<u8>, at: int) -> bool {
    &&& 0 <= at <= left.len()
    &&& at < right.len()
    &&& forall|i: int| 0 <= i < at ==> left[i] == right[i]
    &&& (at == left.len() || left[at] < right[at])
}

/// Whether `left` comes before `right` in the order of the bytes.
pub open spec fn precedes(left: Seq<u8>, right: Seq<u8>) -> bool {
    exists|at: int| precedes_at(left, right, at)
}

/// Whether the key `left` comes before the key `right`: whether its UTF-8
/// encoding comes before that of `right`.
pub open spec fn key_precedes(left: Seq<char>, right: Seq<char>) -> bool {
    precedes(encode_utf8(left), encode_utf8(right))
}

/// Whether the keys of `entries` ascend.
pub open spec fn ascending<V>(entries: Seq<(String, V)>) -> bool {
    forall|i: int, j: int|
        0 <= i < j < entries.len() ==> key_precedes(
            (#[trigger] entries[i]).0@,
            (#[trigger] entries[j]).0@,
        )
}

/// Whether some entry of `entries` has the key `key`.
pub open spec fn has_key<V>(entries: Seq<(String, V)>, key: Seq<char>) -> bool {
    exists|i: int| 0 <= i < entries.len() && (#[trigger] entries[i]).0@ == key
}

/// Whether no two entries of `entries` share a key.
pub open spec fn keys_distinct<V>(entries: Seq<(String, V)>) -> bool {
    forall|i: int, j: int|
        0 <= i < j < entries.len() ==> (#[trigger] entries[i]).0@ != (#[trigger] entries[j]).0@
}

/// Whether `entries` lists the map `map`: every entry is a binding of the
/// map, every key of the map has an entry, and no key has two.
pub open spec fn lists<V>(entries: Seq<(String, V)>, map: Map<Seq<char>, V>) -> bool {
    &&& keys_distinct(entries)
    &&& forall|i: int|
        0 <= i < entries.len() ==> map.contains_key((#[trigger] entries[i]).0@) && map[entries[i].0@]
            == entries[i].1
    &&& forall|key: Seq<char>| #[trigger] map.contains_key(key) ==> has_key(entries, key)
}

/// The position of an entry of `entries` with the key `key`.
spec fn position_of<V>(entries: Seq<(String, V)>, key: Seq<char>) -> int {
    choose|i: int| 0 <= i < entries.len() && (#[trigger] entries[i]).0@ == key
}

/// The map that a list of entries stands for.
spec fn map_of<V>(entries: Seq<(String, V)>) -> Map<Seq<char>, V> {
    Map::new(
        |key: Seq<char>| has_key(entries, key),
        |key: Seq<char>| entries[position_of(entries, key)].1,
    )
}

/// Where the entry at `i` of a list stood before an entry came in at `slot`:
/// in its place, when the entry at `slot` was `replaced`; else one to the
/// left, from `slot` on.
spec fn origin(slot: int, replaced: bool, i: int) -> int {
    if replaced || i < slot {
        i
    } else {
        i - 1
    }
}

/// What comes before differs.
proof fn lemma_precedes_differs(left: Seq<u8>, right: Seq<u8>)
    requires
        precedes(left, right),
    ensures
        left != right,
{
    let at = choose|at: int| precedes_at(left, right, at);
    assert(precedes_at(left, right, at));
}

/// What comes before something that comes before a third comes before the
/// third.
proof fn lemma_precedes_transitive(first: Seq<u8>, second: Seq<u8>, third: Seq<u8>)
    requires
        precedes(first, second),
        precedes(second, third),
    ensures
        precedes(first, third),
{
    let i = choose|at: int| precedes_at(first, second, at);
    let j = choose|at: int| precedes_at(second, third, at);
    let at = if i <= j {
        i
    } else {
        j
    };
    assert(precedes_at(first, third, at));
}

/// Keys with the same bytes are the same key.
proof fn lemma_bytes_tell_keys_apart(left: Seq<char>, right: Seq<char>)
    requires
        encode_utf8(left) == encode_utf8(right),
    ensures
        left == right,
{
    encode_utf8_decode_utf8(left);
    encode_utf8_decode_utf8(right);
    assert(decode_utf8(encode_utf8(left)) == left);
    assert(decode_utf8(encode_utf8(right)) == right);
}

/// Ascending keys are distinct.
proof fn lemma_ascending_is_distinct<V>(entries: Seq<(String, V)>)
    requires
        ascending(entries),
    ensures
        keys_distinct(entries),
{
    assert forall|i: int, j: int| 0 <= i < j < entries.len() implies (#[trigger] entries[i]).0@ != (
    #[trigger] entries[j]).0@ by {
        lemma_precedes_differs(encode_utf8(entries[i].0@), encode_utf8(entries[j].0@));
    }
}

/// In a list without repeated keys, the entry at `i` is the binding of its key.
proof fn lemma_entry_is_binding<V>(entries: Seq<(String, V)>, i: int)
    requires
        keys_distinct(entries),
        0 <= i < entries.len(),
    ensures
        map_of(entries).contains_key(entries[i].0@),
        map_of(entries)[entries[i].0@] == entries[i].1,
{
    let key = entries[i].0@;
    let found = position_of(entries, key);
    assert(has_key(entries, key));
    assert(found == i) by {
        if found < i {
            assert(entries[found].0@ != entries[i].0@);
        } else if i < found {
            assert(entries[i].0@ != entries[found].0@);
        }
    }
}

/// A list with ascending keys lists the map that it stands for.
proof fn lemma_lists_own_map<V>(entries: Seq<(String, V)>)
    requires
        ascending(entries),
    ensures
        lists(entries, map_of(entries)),
{
    lemma_ascending_is_distinct(entries);
    assert forall|i: int| 0 <= i < entries.len() implies map_of(entries).contains_key(
        (#[trigger] entries[i]).0@,
    ) && map_of(entries)[entries[i].0@] == entries[i].1 by {
        lemma_entry_is_binding(entries, i);
    }
}

/// An entry that comes into a list at `slot`, in place of the entry with its
/// key or between its neighbours in the order, keeps the keys ascending and
/// binds its key in the map.
proof fn lemma_bind<V>(
    before: Seq<(String, V)>,
    after: Seq<(String, V)>,
    slot: int,
    replaced: bool,
)
    requires
        ascending(before),
        0 <= slot <= before.len(),
        replaced ==> slot < before.len() && before[slot].0@ == after[slot].0@ && after
            =~= before.update(slot, after[slot]),
        !replaced ==> after =~= before.insert(slot, after[slot]),
        !replaced ==> forall|i: int|
            0 <= i < slot ==> key_precedes((#[trigger] before[i]).0@, after[slot].0@),
        !replaced && slot < before.len() ==> key_precedes(after[slot].0@, before[slot].0@),
    ensures
        ascending(after),
        map_of(after) == map_of(before).insert(after[slot].0@, after[slot].1),
{
    let key = after[slot].0@;
    let value = after[slot].1;
    assert forall|i: int| 0 <= i < after.len() && i != slot implies (#[trigger] after[i])
        == before[origin(slot, replaced, i)] by {}
    assert forall|i: int, j: int| 0 <= i < j < after.len() implies key_precedes(
        (#[trigger] after[i]).0@,
        (#[trigger] after[j]).0@,
    ) by {
        let from = origin(slot, replaced, i);
        let to = origin(slot, replaced, j);
        if replaced {
            assert(key_precedes(before[from].0@, before[to].0@));
        } else if i == slot {
            assert(key_precedes(key, before[slot].0@));
            if slot < to {
                assert(key_precedes(before[slot].0@, before[to].0@));
                lemma_precedes_transitive(
                    encode_utf8(key),
                    encode_utf8(before[slot].0@),
                    encode_utf8(before[to].0@),
                );
            }
        } else if j == slot {
            assert(key_precedes(before[from].0@, key));
        } else {
            assert(key_precedes(before[from].0@, before[to].0@));
        }
    }
    lemma_ascending_is_distinct(before);
    lemma_ascending_is_distinct(after);
    let target = map_of(before).insert(key, value);
    assert forall|k: Seq<char>| map_of(after).contains_key(k) <==> target.contains_key(k) by {
        if has_key(after, k) && k != key {
            let i = position_of(after, k);
            assert(before[origin(slot, replaced, i)].0@ == k);
        }
        if has_key(before, k) && k != key {
            let j = position_of(before, k);
            let i = if replaced || j < slot {
                j
            } else {
                j + 1
            };
            assert(after[i] == before[origin(slot, replaced, i)]);
            assert(after[i].0@ == k);
        }
        if k == key {
            assert(after[slot].0@ == k);
        }
    }
    assert forall|k: Seq<char>| map_of(after).contains_key(k) implies map_of(after)[k]
        == target[k] by {
        let i = position_of(after, k);
        lemma_entry_is_binding(after, i);
        if i != slot {
            assert(after[i].0@ != after[slot].0@) by {
                if i < slot {
                    assert(after[i].0@ != after[slot].0@);
                } else {
                    assert(after[slot].0@ != after[i].0@);
                }
            }
            lemma_entry_is_binding(before, origin(slot, replaced, i));
        }
    }
    assert(map_of(after) =~= target);
}

/// A key that stands between the entries before `slot` and the entry at
/// `slot` is the key of no entry.
proof fn lemma_between_is_absent<V>(entries: Seq<(String, V)>, slot: int, key: Seq<char>)
    requires
        ascending(entries),
        0 <= slot <= entries.len(),
        forall|i: int| 0 <= i < slot ==> key_precedes((#[trigger] entries[i]).0@, key),
        slot < entries.len() ==> key_precedes(key, entries[slot].0@),
    ensures
        !has_key(entries, key),
{
    assert forall|i: int| 0 <= i < entries.len() implies (#[trigger] entries[i]).0@ != key by {
        if i < slot {
            lemma_precedes_differs(encode_utf8(entries[i].0@), encode_utf8(key));
        } else {
            if slot < i {
                assert(key_precedes(entries[slot].0@, entries[i].0@));
                lemma_precedes_transitive(
                    encode_utf8(key),
                    encode_utf8(entries[slot].0@),
                    encode_utf8(entries[i].0@),
                );
            }
            lemma_precedes_differs(encode_utf8(key), encode_utf8(entries[i].0@));
        }
    }
}

/// Two lists with ascending keys that list the same map have the same keys
/// at their first `upto` positions.
proof fn lemma_keys_agree<V>(
    one: Seq<(String, V)>,
    other: Seq<(String, V)>,
    map: Map<Seq<char>, V>,
    upto: nat,
)
    requires
        ascending(one),
        ascending(other),
        lists(one, map),
        lists(other, map),
        upto <= one.len(),
        upto <= other.len(),
    ensures
        forall|i: int| 0 <= i < upto ==> (#[trigger] one[i]).0@ == other[i].0@,
    decreases upto,
{
    if upto > 0 {
        lemma_keys_agree(one, other, map, (upto - 1) as nat);
        let last = upto - 1;
        let ours = one[last].0@;
        let theirs = other[last].0@;
        assert(map.contains_key(ours));
        assert(map.contains_key(theirs));
        let there = choose|i: int| 0 <= i < other.len() && (#[trigger] other[i]).0@ == ours;
        let here = choose|i: int| 0 <= i < one.len() && (#[trigger] one[i]).0@ == theirs;
        if there < last {
            assert(one[there].0@ != one[last].0@);
        }
        if here < last {
            assert(other[here].0@ != other[last].0@);
        }
        if last < there && last < here {
            assert(key_precedes(other[last].0@, other[there].0@));
            assert(key_precedes(one[last].0@, one[here].0@));
            lemma_precedes_transitive(
                encode_utf8(theirs),
                encode_utf8(ours),
                encode_utf8(theirs),
            );
            lemma_precedes_differs(encode_utf8(theirs), encode_utf8(theirs));
        }
    }
}

/// A map has one list with ascending keys only: two such lists of the same
/// map have the same length and, position by position, the same key and the
/// same value.
pub proof fn lemma_ascending_list_is_unique<V>(
    one: Seq<(String, V)>,
    other: Seq<(String, V)>,
    map: Map<Seq<char>, V>,
)
    requires
        ascending(one),
        ascending(other),
        lists(one, map),
        lists(other, map),
    ensures
        one.len() == other.len(),
        forall|i: int|
            0 <= i < one.len() ==> (#[trigger] one[i]).0@ == other[i].0@ && one[i].1 == other[i].1,
{
    let shared = if one.len() <= other.len() {
        one.len()
    } else {
        other.len()
    };
    lemma_keys_agree(one, other, map, shared);
    if shared < one.len() {
        assert(map.contains_key(one[shared as int].0@));
        let there = choose|i: int|
            0 <= i < other.len() && (#[trigger] other[i]).0@ == one[shared as int].0@;
        assert(one[there].0@ != one[shared as int].0@);
    }
    if shared < other.len() {
        assert(map.contains_key(other[shared as int].0@));
        let here = choose|i: int|
            0 <= i < one.len() && (#[trigger] one[i]).0@ == other[shared as int].0@;
        assert(other[here].0@ != other[shared as int].0@);
    }
}

/// How one key stands to another.
enum Rank {
    Before,
    Same,
    After,
}

/// How `left` stands to `right` in the order of the keys.
fn rank(left: &str, right: &str) -> (rank: Rank)
    ensures
        match rank {
            Rank::Before => key_precedes(left@, right@),
            Rank::Same => left@ == right@,
            Rank::After => key_precedes(right@, left@),
        },
{
    let ours = left.as_bytes();
    let theirs = right.as_bytes();
    let mut i: usize = 0;
    while i < ours.len() && i < theirs.len()
        invariant
            ours@ == encode_utf8(left@),
            theirs@ == encode_utf8(right@),
            i <= ours@.len(),
            i <= theirs@.len(),
            forall|j: int| 0 <= j < i ==> ours@[j] == theirs@[j],
        decreases ours@.len() - i,
    {
        if ours[i] < theirs[i] {
            assert(precedes_at(ours@, theirs@, i as int));
            return Rank::Before;
        }
        if theirs[i] < ours[i] {
            assert(precedes_at(theirs@, ours@, i as int));
            return Rank::After;
        }
        i += 1;
    }
    if i < theirs.len() {
        assert(precedes_at(ours@, theirs@, i as int));
        Rank::Before
    } else if i < ours.len() {
        assert(precedes_at(theirs@, ours@, i as int));
        Rank::After
    } else {
        proof {
            assert(ours@ =~= theirs@);
            lemma_bytes_tell_keys_apart(left@, right@);
        }
        Rank::Same
    }
}

impl<V> View for StringMap<V> {
    type V = Map<Seq<char>, V>;

    closed spec fn view(&self) -> Map<Seq<char>, V> {
        map_of(self.entries@)
    }
}

impl<V: DeepView> DeepView for StringMap<V> {
    type V = Map<Seq<char>, V::V>;

    open spec fn deep_view(&self) -> Map<Seq<char>, V::V> {
        self@.map_values(|value: V| value.deep_view())
    }
}

impl<V> StringMap<V> {
    #[verifier::type_invariant]
    spec fn well_formed(&self) -> bool {
        ascending(self.entries@)
    }

    /// The place of `key` among `entries`: the position of its entry, with
    /// `true`; or, with `false`, the position at which its entry would stand.
    fn locate(entries: &Vec<(String, V)>, key: &str) -> (place: (usize, bool))
        requires
            ascending(entries@),
        ensures
            place.0 <= entries@.len(),
            place.1 ==> place.0 < entries@.len() && entries@[place.0 as int].0@ == key@,
            !place.1 ==> !has_key(entries@, key@),
            !place.1 ==> forall|i: int|
                0 <= i < place.0 ==> key_precedes((#[trigger] entries@[i]).0@, key@),
            !place.1 && place.0 < entries@.len() ==> key_precedes(
                key@,
                entries@[place.0 as int].0@,
            ),
    {
        let mut i: usize = 0;
        while i < entries.len()
            invariant
                i <= entries@.len(),
                ascending(entries@),
                forall|j: int| 0 <= j < i ==> key_precedes((#[trigger] entries@[j]).0@, key@),
            decreases entries@.len() - i,
        {
            match rank(entries[i].0.as_str(), key) {
                Rank::Before => {},
                Rank::Same => {
                    return (i, true);
                },
                Rank::After => {
                    proof {
                        lemma_between_is_absent(entries@, i as int, key@);
                    }
                    return (i, false);
                },
            }
            i += 1;
        }
        proof {
            lemma_between_is_absent(entries@, i as int, key@);
        }
        (i, false)
    }

    /// The empty map.
    pub fn new() -> (map: Self)
        ensures
            map@ == Map::<Seq<char>, V>::empty(),
    {
        let map = StringMap { entries: Vec::new() };
        assert(map@ =~= Map::<Seq<char>, V>::empty());
        map
    }

    /// Binds `key` to `value`, in place of what `key` was bound to before.
    pub fn insert(&mut self, key: String, value: V)
        ensures
            final(self)@ == old(self)@.insert(key@, value),
    {
        proof {
            use_type_invariant(&*self);
        }
        let mut entries: Vec<(String, V)> = Vec::new();
        std::mem::swap(&mut entries, &mut self.entries);
        let ghost before = entries@;
        let (slot, found) = Self::locate(&entries, key.as_str());
        if found {
            entries.set(slot, (key, value));
        } else {
            entries.insert(slot, (key, value));
        }
        proof {
            lemma_bind(before, entries@, slot as int, found);
        }
        self.entries = entries;
    }

    /// Whether `key` is bound.
    pub fn contains_key(&self, key: &str) -> (bound: bool)
        ensures
            bound == self@.contains_key(key@),
    {
        proof {
            use_type_invariant(self);
        }
        Self::locate(&self.entries, key).1
    }

    /// The value that `key` is bound to, if it is bound.
    pub fn get(&self, key: &str) -> (value: Option<&V>)
        ensures
            value == (if self@.contains_key(key@) {
                Some(&self@[key@])
            } else {
                None
            }),
    {
        proof {
            use_type_invariant(self);
            lemma_ascending_is_distinct(self.entries@);
        }
        let (slot, found) = Self::locate(&self.entries, key);
        if found {
            proof {
                lemma_entry_is_binding(self.entries@, slot as int);
            }
            Some(&self.entries[slot].1)
        } else {
            None
        }
    }

    /// The bindings of the map, each once, in ascending order of the keys.
    pub fn into_entries(self) -> (entries: Vec<(String, V)>)
        ensures
            lists(entries@, self@),
            ascending(entries@),
    {
        proof {
            use_type_invariant(&self);
            lemma_lists_own_map(self.entries@);
        }
        self.entries
    }
}

impl<V: Clone> Clone for StringMap<V> {
    /// A map with the same keys, each bound to a clone of its value.
    fn clone(&self) -> (copy: Self)
        ensures
            copy@.dom() == self@.dom(),
            forall|key: Seq<char>|
                self@.contains_key(key) ==> cloned(self@[key], #[trigger] copy@[key]),
    {
        proof {
            use_type_invariant(self);
        }
        let mut entries: Vec<(String, V)> = Vec::new();
        let mut i: usize = 0;
        while i < self.entries.len()
            invariant
                i <= self.entries@.len(),
                entries@.len() == i,
                forall|j: int|
                    0 <= j < i ==> (#[trigger] entries@[j]).0@ == self.entries@[j].0@ && cloned(
                        self.entries@[j].1,
                        entries@[j].1,
                    ),
            decreases self.entries@.len() - i,
        {
            let key = self.entries[i].0.clone();
            let value = self.entries[i].1.clone();
            entries.push((key, value));
            i += 1;
        }
        proof {
            let ours = self.entries@;
            let theirs = entries@;
            assert(ascending(theirs)) by {
                assert forall|a: int, b: int| 0 <= a < b < theirs.len() implies key_precedes(
                    (#[trigger] theirs[a]).0@,
                    (#[trigger] theirs[b]).0@,
                ) by {
                    assert(key_precedes(ours[a].0@, ours[b].0@));
                }
            }
            lemma_ascending_is_distinct(ours);
            lemma_ascending_is_distinct(theirs);
            assert forall|key: Seq<char>| has_key(ours, key) == has_key(theirs, key) by {
                if has_key(ours, key) {
                    assert(theirs[position_of(ours, key)].0@ == key);
                }
                if has_key(theirs, key) {
                    assert(ours[position_of(theirs, key)].0@ == key);
                }
            }
            assert(map_of(theirs).dom() =~= map_of(ours).dom());
            assert forall|key: Seq<char>| map_of(ours).contains_key(key) implies cloned(
                map_of(ours)[key],
                #[trigger] map_of(theirs)[key],
            ) by {
                let at = position_of(ours, key);
                lemma_entry_is_binding(ours, at);
                lemma_entry_is_binding(theirs, at);
            }
        }
        StringMap { entries }
    }
}

} // verus!
