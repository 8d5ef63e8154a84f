//! Presences as the service reads them back: whatever cannot be read counts as offline.
use vstd::prelude::*;
use std::collections::HashMap;
use crate::data::{offline_presence, spec_offline, UserPresence};

verus! {

broadcast use vstd::std_specs::hash::group_hash_axioms;

/// The presence that a stored one (`None` where none was stored or it could not
/// be read) stands for.
pub open spec fn spec_presence_or_offline(p: Option<UserPresence>) -> UserPresence {
    match p {
        Some(x) => x,
        None => spec_offline(),
    }
}

/// The presence of a user as a lookup gave it.
pub fn presence_or_offline(stored: Option<UserPresence>) -> (r: UserPresence)
    ensures
        r == spec_presence_or_offline(stored),
{
    match stored {
        Some(p) => p,
        None => offline_presence(),
    }
}

/// The presences of the first `n` users of `ids`, each paired with the stored
/// presence at the same place in `results`; where a user comes twice, the later wins.
pub open spec fn spec_bulk(ids: Seq<u128>, results: Seq<Option<UserPresence>>, n: int) -> Map<u128, UserPresence>
    decreases n,
{
    if n <= 0 {
        Map::empty()
    } else {
        spec_bulk(ids, results, n - 1).insert(ids[n - 1], spec_presence_or_offline(results[n - 1]))
    }
}

/// The presences of `ids`, from what a bulk lookup gave for each in turn; a lookup
/// that gave fewer results than there are ids covers only the first ones.
pub fn get_bulk(ids: &Vec<u128>, results: &Vec<Option<UserPresence>>) -> (r: HashMap<u128, UserPresence>)
    ensures
        r@ == spec_bulk(
            ids@,
            results@,
            if ids@.len() <= results@.len() {
                ids@.len() as int
            } else {
                results@.len() as int
            },
        ),
{
    let mut map: HashMap<u128, UserPresence> = HashMap::new();
    let n = if ids.len() <= results.len() {
        ids.len()
    } else {
        results.len()
    };
    let mut i: usize = 0;
    while i < n
        invariant
            i <= n,
            n <= ids@.len(),
            n <= results@.len(),
            map@ == spec_bulk(ids@, results@, i as int),
        decreases n - i,
    {
        let p = match &results[i] {
            Some(x) => x.duplicate(),
            None => offline_presence(),
        };
        map.insert(ids[i], p);
        i = i + 1;
    }
    map
}

/// The presence that a bulk lookup gave for `id`, or offline where it gave none.
pub open spec fn spec_presence_in(m: Map<u128, UserPresence>, id: u128) -> UserPresence {
    if m.contains_key(id) {
        m[id]
    } else {
        spec_offline()
    }
}

/// A user whose presence a bulk lookup found nothing for is shown offline; a user
/// looked up once is shown with what was found for them.
pub proof fn law_bulk_presence_of_unique_user(ids: Seq<u128>, results: Seq<Option<UserPresence>>, n: int, j: int)
    requires
        0 <= j < n <= ids.len(),
        n <= results.len(),
        forall|k: int| 0 <= k < n && k != j ==> ids[k] != ids[j],
    ensures
        spec_presence_in(spec_bulk(ids, results, n), ids[j]) == spec_presence_or_offline(results[j]),
    decreases n,
{
    if n - 1 == j {
    } else {
        law_bulk_presence_of_unique_user(ids, results, n - 1, j);
    }
}

} // verus!
