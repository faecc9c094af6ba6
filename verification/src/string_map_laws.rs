//! What holds of every map from text to values.

use vstd::prelude::*;

use crate::string_map;
use crate::string_map::StringMap;

verus! {

/// Whether `value` is what `entries` say last of `key`.
pub open spec fn is_last_value<V>(entries: Seq<(String, V)>, key: Seq<char>, value: V) -> bool {
    exists|i: int|
        {
            &&& 0 <= i < entries.len()
            &&& (#[trigger] entries[i]).0@ == key
            &&& entries[i].1 == value
            &&& forall|j: int| i < j < entries.len() ==> (#[trigger] entries[j]).0@ != key
        }
}

/// Whether `map` holds, of each key that `entries` speak of, what they say last of it, and nothing
/// else.
pub open spec fn holds_last_values<V>(map: Map<Seq<char>, V>, entries: Seq<(String, V)>) -> bool {
    &&& forall|key: Seq<char>| #[trigger]
        map.contains_key(key) ==> is_last_value(entries, key, map[key])
    &&& forall|i: int|
        0 <= i < entries.len() ==> map.contains_key((#[trigger] entries[i]).0@)
}

pub(crate) proof fn lemma_inserted_last<V>(entries: Seq<(String, V)>)
    ensures
        holds_last_values(string_map::inserted(entries), entries),
    decreases entries.len(),
{
    let map = string_map::inserted(entries);
    if entries.len() > 0 {
        let init = entries.drop_last();
        let last = entries.len() - 1;
        lemma_inserted_last(init);
        assert forall|key: Seq<char>| #[trigger] map.contains_key(key) implies is_last_value(
            entries,
            key,
            map[key],
        ) by {
            if key == entries[last].0@ {
                assert(entries[last].1 == map[key]);
            } else {
                assert(string_map::inserted(init).contains_key(key));
                let i = choose|i: int|
                    {
                        &&& 0 <= i < init.len()
                        &&& (#[trigger] init[i]).0@ == key
                        &&& init[i].1 == map[key]
                        &&& forall|j: int| i < j < init.len() ==> (#[trigger] init[j]).0@ != key
                    };
                assert(entries[i] == init[i]);
                assert forall|j: int| i < j < entries.len() implies (#[trigger] entries[j]).0@
                    != key by {
                    if j < last {
                        assert(entries[j] == init[j]);
                    }
                }
            }
        }
        assert forall|i: int| 0 <= i < entries.len() implies map.contains_key(
            (#[trigger] entries[i]).0@,
        ) by {
            if i < last {
                assert(entries[i] == init[i]);
            }
        }
    }
}

/// A new map gives nothing for any key.
pub proof fn law_new_map_is_empty<V>(map: &StringMap<V>, key: &str, r: Option<&V>)
    requires
        call_ensures(StringMap::<V>::new, (), *map),
        call_ensures(StringMap::<V>::get, (map, key), r),
    ensures
        r is None,
{
}

/// After an insertion the key gives the value that was inserted, whatever it gave before, and every
/// other key gives what it gave before.
pub proof fn law_insertion_sets_one_key<V>(
    map: &mut StringMap<V>,
    key: String,
    value: V,
    other: &str,
    before: Option<&V>,
    after: Option<&V>,
)
    requires
        call_ensures(StringMap::<V>::insert, (map, key, value), ()),
        call_ensures(StringMap::<V>::get, (&*old(map), other), before),
        call_ensures(StringMap::<V>::get, (&*final(map), other), after),
    ensures
        other@ == key@ ==> (after matches Some(given) && *given == value),
        other@ != key@ ==> after == before,
{
}

/// A map that is made from entries gives, of each key, what the entries say last of it, and nothing
/// for a key that they do not speak of.
pub proof fn law_last_entry_of_a_key_stays<V>(
    entries: Vec<(String, V)>,
    map: &StringMap<V>,
    key: &str,
    r: Option<&V>,
)
    requires
        call_ensures(StringMap::<V>::from_entries, (entries,), *map),
        call_ensures(StringMap::<V>::get, (map, key), r),
    ensures
        match r {
            Some(value) => is_last_value(entries@, key@, *value),
            None => forall|i: int| 0 <= i < entries@.len() ==> (#[trigger] entries@[i]).0@ != key@,
        },
{
    lemma_inserted_last(entries@);
}

/// The entries of a map are one for each key that gives a value, with this value.
pub proof fn law_entries_are_what_the_map_gives<V>(
    map: StringMap<V>,
    entries: Vec<(String, V)>,
    key: &str,
    r: Option<&V>,
)
    requires
        call_ensures(StringMap::<V>::get, (&map, key), r),
        call_ensures(StringMap::<V>::into_entries, (map,), entries),
    ensures
        forall|i: int, j: int|
            0 <= i < entries@.len() && 0 <= j < entries@.len() && (#[trigger] entries@[i]).0@ == (
            #[trigger] entries@[j]).0@ ==> i == j,
        forall|i: int|
            0 <= i < entries@.len() && (#[trigger] entries@[i]).0@ == key@ ==> (r matches Some(value)
                && *value == entries@[i].1),
        r is Some ==> exists|i: int| 0 <= i < entries@.len() && (#[trigger] entries@[i]).0@ == key@,
{
    lemma_inserted_last(entries@);
    assert forall|i: int, j: int|
        0 <= i < entries@.len() && 0 <= j < entries@.len() && (#[trigger] entries@[i]).0@ == (
        #[trigger] entries@[j]).0@ implies i == j by {
        if i < j {
            assert(entries@[i].0@ != entries@[j].0@);
        } else if j < i {
            assert(entries@[j].0@ != entries@[i].0@);
        }
    }
    assert forall|i: int| 0 <= i < entries@.len() && (#[trigger] entries@[i]).0@ == key@ implies (r
        matches Some(value) && *value == entries@[i].1) by {
        assert(map@.contains_key(key@));
        assert(is_last_value(entries@, key@, map@[key@]));
        let k = choose|k: int|
            {
                &&& 0 <= k < entries@.len()
                &&& (#[trigger] entries@[k]).0@ == key@
                &&& entries@[k].1 == map@[key@]
                &&& forall|j: int| k < j < entries@.len() ==> (#[trigger] entries@[j]).0@ != key@
            };
        assert(entries@[i].0@ == entries@[k].0@);
    }
    if r is Some {
        assert(is_last_value(entries@, key@, map@[key@]));
    }
}

} // verus!
