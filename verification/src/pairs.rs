//! Lists of pairs of byte strings, as the native layer's lists hold them,
//! and the search for the first entry with a given key.

use vstd::prelude::*;

use crate::text::bytes_eq;

verus! {

/// The entries of a list as plain values: the two byte strings of each.
pub open spec fn pairs_view(entries: Seq<(Vec<u8>, Vec<u8>)>) -> Seq<(Seq<u8>, Seq<u8>)> {
    entries.map_values(|e: (Vec<u8>, Vec<u8>)| (e.0@, e.1@))
}

/// The first byte string of each entry: its name.
pub open spec fn names_of(entries: Seq<(Seq<u8>, Seq<u8>)>) -> Seq<Seq<u8>> {
    entries.map_values(|e: (Seq<u8>, Seq<u8>)| e.0)
}

/// The second byte string of each entry: the path of a port, the value of a
/// camera list entry.
pub open spec fn seconds_of(entries: Seq<(Seq<u8>, Seq<u8>)>) -> Seq<Seq<u8>> {
    entries.map_values(|e: (Seq<u8>, Seq<u8>)| e.1)
}

/// An index at which `needle` stands, with no earlier one, is the first.
pub proof fn first_index_unique<A>(s: Seq<A>, needle: A, i: int)
    requires
        0 <= i < s.len(),
        s[i] == needle,
        forall|j: int| 0 <= j < i ==> s[j] != needle,
    ensures
        s.index_of_first(needle) == Some(i),
{
    s.index_of_first_ensures(needle);
    let k = s.index_of_first(needle).unwrap();
    if k < i {
        assert(s[k] != needle);
    }
}

/// A direct linear scan of `keys`, from index `from` on, for the first one
/// that equals `key`.
pub open spec fn linear_scan(keys: Seq<Seq<u8>>, key: Seq<u8>, from: int) -> Option<int>
    decreases keys.len() - from,
{
    if from < 0 || from >= keys.len() {
        None
    } else if keys[from] == key {
        Some(from)
    } else {
        linear_scan(keys, key, from + 1)
    }
}

/// What a linear scan finds is the first match from `from` on, and it finds
/// nothing only where nothing matches.
proof fn linear_scan_finds_first(keys: Seq<Seq<u8>>, key: Seq<u8>, from: int)
    requires
        0 <= from <= keys.len(),
    ensures
        match linear_scan(keys, key, from) {
            Some(i) => from <= i < keys.len() && keys[i] == key && forall|j: int|
                from <= j < i ==> keys[j] != key,
            None => forall|j: int| from <= j < keys.len() ==> keys[j] != key,
        },
    decreases keys.len() - from,
{
    if from < keys.len() && keys[from] != key {
        linear_scan_finds_first(keys, key, from + 1);
    }
}

/// A linear scan from the start finds what `index_of_first` names.
pub proof fn linear_scan_is_index_of_first(keys: Seq<Seq<u8>>, key: Seq<u8>)
    ensures
        linear_scan(keys, key, 0) == keys.index_of_first(key),
{
    linear_scan_finds_first(keys, key, 0);
    match linear_scan(keys, key, 0) {
        Some(i) => {
            first_index_unique(keys, key, i);
        },
        None => {
            keys.index_of_first_ensures(key);
        },
    }
}

/// The index of the first entry whose name (or, with `second`, whose second
/// byte string) equals `key`.
pub(crate) fn find_first(entries: &Vec<(Vec<u8>, Vec<u8>)>, key: &[u8], second: bool) -> (found: Option<usize>)
    ensures
        !second ==> (match names_of(pairs_view(entries@)).index_of_first(key@) {
            Some(i) => found matches Some(k) && k == i && i < entries@.len(),
            None => found is None,
        }),
        second ==> (match seconds_of(pairs_view(entries@)).index_of_first(key@) {
            Some(i) => found matches Some(k) && k == i && i < entries@.len(),
            None => found is None,
        }),
{
    let ghost keys = if second {
        seconds_of(pairs_view(entries@))
    } else {
        names_of(pairs_view(entries@))
    };
    let mut i: usize = 0;
    while i < entries.len()
        invariant
            i <= entries.len(),
            keys.len() == entries@.len(),
            keys == if second {
                seconds_of(pairs_view(entries@))
            } else {
                names_of(pairs_view(entries@))
            },
            forall|j: int| 0 <= j < i ==> keys[j] != key@,
        decreases entries.len() - i,
    {
        let entry = &entries[i];
        let candidate = if second {
            entry.1.as_slice()
        } else {
            entry.0.as_slice()
        };
        assert(candidate@ == keys[i as int]);
        if bytes_eq(candidate, key) {
            proof {
                first_index_unique(keys, key@, i as int);
            }
            return Some(i);
        }
        i += 1;
    }
    proof {
        keys.index_of_first_ensures(key@);
    }
    None
}

} // verus!
