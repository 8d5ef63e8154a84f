//! Cached friend and member lists: reading them back, and what to cache.
use vstd::prelude::*;
use crate::ids::{GuildId, UserId};
use crate::keys::{friends_cache_key, guild_members_cache_key, CACHE_TTL_SECONDS};
use crate::uuids::{parse_uuid, spec_parse_uuid, spec_uuid_text, uuid_to_string};

verus! {

/// The users named by the cached texts, in order; texts that are not UUIDs are skipped.
pub open spec fn spec_parsed_ids(texts: Seq<Seq<char>>) -> Seq<u128>
    decreases texts.len(),
{
    if texts.len() == 0 {
        Seq::empty()
    } else {
        let prev = spec_parsed_ids(texts.drop_last());
        match spec_parse_uuid(texts.last()) {
            Some(id) => prev.push(id),
            None => prev,
        }
    }
}

/// The views of a list of texts.
pub open spec fn spec_texts(v: Seq<String>) -> Seq<Seq<char>> {
    v.map_values(|s: String| s@)
}

/// The users named by the members of a cached set.
pub fn parse_cached_ids(cached: &Vec<String>) -> (r: Vec<u128>)
    ensures
        r@ == spec_parsed_ids(spec_texts(cached@)),
{
    let mut out: Vec<u128> = Vec::new();
    let mut i: usize = 0;
    while i < cached.len()
        invariant
            i <= cached@.len(),
            out@ == spec_parsed_ids(spec_texts(cached@.take(i as int))),
        decreases cached.len() - i,
    {
        assert(spec_texts(cached@.take(i + 1)).drop_last() =~= spec_texts(cached@.take(i as int)));
        assert(spec_texts(cached@.take(i + 1)).last() == cached@[i as int]@);
        match parse_uuid(cached[i].as_str()) {
            Some(id) => out.push(id),
            None => {},
        }
        i = i + 1;
    }
    assert(cached@.take(i as int) =~= cached@);
    out
}

/// The ids that a cached set answers a lookup with: none where the set is empty
/// (storage is then asked), else those that its members name.
pub fn ids_from_cache(cached: &Vec<String>) -> (r: Option<Vec<u128>>)
    ensures
        r is None <==> cached@.len() == 0,
        r matches Some(v) ==> v@ == spec_parsed_ids(spec_texts(cached@)),
{
    if cached.len() == 0 {
        None
    } else {
        Some(parse_cached_ids(cached))
    }
}

/// The other side of each relationship of `me`, in order.
pub open spec fn spec_other_sides(me: u128, rels: Seq<(u128, u128)>) -> Seq<u128> {
    rels.map_values(|r: (u128, u128)| if r.0 == me { r.1 } else { r.0 })
}

/// The friends of `me`, from their friendships stored as (user, target) pairs with
/// `me` on one side.
pub fn friend_ids(me: UserId, rels: &Vec<(u128, u128)>) -> (r: Vec<u128>)
    ensures
        r@ == spec_other_sides(me.0, rels@),
{
    let mut out: Vec<u128> = Vec::new();
    let mut i: usize = 0;
    while i < rels.len()
        invariant
            i <= rels@.len(),
            out@ == spec_other_sides(me.0, rels@.take(i as int)),
        decreases rels.len() - i,
    {
        let (u, t) = rels[i];
        assert(spec_other_sides(me.0, rels@.take(i + 1)) =~= spec_other_sides(me.0, rels@.take(i as int)).push(
            if u == me.0 { t } else { u },
        ));
        if u == me.0 {
            out.push(t);
        } else {
            out.push(u);
        }
        i = i + 1;
    }
    assert(rels@.take(i as int) =~= rels@);
    out
}

/// A set to cache: its key, its members' texts and how long it lives.
#[derive(Clone, Debug)]
pub struct CacheFill {
    pub key: String,
    pub members: Vec<String>,
    pub ttl_seconds: u64,
}

fn id_texts(ids: &Vec<u128>) -> (r: Vec<String>)
    ensures
        r@.len() == ids@.len(),
        forall|i: int| 0 <= i < ids@.len() ==> #[trigger] r@[i]@ == spec_uuid_text(ids@[i]),
{
    let mut out: Vec<String> = Vec::new();
    let mut i: usize = 0;
    while i < ids.len()
        invariant
            i <= ids@.len(),
            out@.len() == i,
            forall|k: int| 0 <= k < i ==> #[trigger] out@[k]@ == spec_uuid_text(ids@[k]),
        decreases ids.len() - i,
    {
        out.push(uuid_to_string(ids[i]));
        i = i + 1;
    }
    out
}

/// What to cache after reading the friends of `user` from storage: nothing where
/// there are none, else their ids, for a day.
pub fn plan_friends_cache(user: UserId, friends: &Vec<u128>) -> (r: Option<CacheFill>)
    ensures
        r is None <==> friends@.len() == 0,
        r matches Some(f) ==> f.key@ == "user_friends:"@ + spec_uuid_text(user.0) && f.ttl_seconds
            == CACHE_TTL_SECONDS && f.members@.len() == friends@.len() && forall|i: int|
            0 <= i < friends@.len() ==> #[trigger] f.members@[i]@ == spec_uuid_text(friends@[i]),
{
    if friends.len() == 0 {
        return None;
    }
    Some(CacheFill { key: friends_cache_key(user), members: id_texts(friends), ttl_seconds: CACHE_TTL_SECONDS })
}

/// What to cache after reading the members of `guild` from storage: nothing where
/// there are none, else their ids, for a day.
pub fn plan_members_cache(guild: GuildId, members: &Vec<u128>) -> (r: Option<CacheFill>)
    ensures
        r is None <==> members@.len() == 0,
        r matches Some(f) ==> f.key@ == "guild_members:"@ + spec_uuid_text(guild.0) && f.ttl_seconds
            == CACHE_TTL_SECONDS && f.members@.len() == members@.len() && forall|i: int|
            0 <= i < members@.len() ==> #[trigger] f.members@[i]@ == spec_uuid_text(members@[i]),
{
    if members.len() == 0 {
        return None;
    }
    Some(CacheFill { key: guild_members_cache_key(guild), members: id_texts(members), ttl_seconds: CACHE_TTL_SECONDS })
}

/// The two cache entries that a friendship between `a` and `b` touches: `b` in the
/// set of `a`, then `a` in the set of `b`.
pub fn friendship_entries(a: UserId, b: UserId) -> (r: Vec<(String, String)>)
    ensures
        r@.len() == 2,
        r@[0].0@ == "user_friends:"@ + spec_uuid_text(a.0),
        r@[0].1@ == spec_uuid_text(b.0),
        r@[1].0@ == "user_friends:"@ + spec_uuid_text(b.0),
        r@[1].1@ == spec_uuid_text(a.0),
{
    let mut out: Vec<(String, String)> = Vec::new();
    out.push((friends_cache_key(a), uuid_to_string(b.0)));
    out.push((friends_cache_key(b), uuid_to_string(a.0)));
    out
}

/// The cache entry that a membership of `user` in `guild` touches.
pub fn member_entry(guild: GuildId, user: UserId) -> (r: (String, String))
    ensures
        r.0@ == "guild_members:"@ + spec_uuid_text(guild.0),
        r.1@ == spec_uuid_text(user.0),
{
    (guild_members_cache_key(guild), uuid_to_string(user.0))
}

/// Reading back the ids that were cached gives them back, in order: every id
/// written to a cached set (as the text that `parse_uuid` reads back, which its
/// contract states of every UUID text) is found again.
pub proof fn law_cached_ids_read_back(ids: Seq<u128>)
    requires
        forall|i: int| 0 <= i < ids.len() ==> spec_parse_uuid(spec_uuid_text(#[trigger] ids[i])) == Some(ids[i]),
    ensures
        spec_parsed_ids(ids.map_values(|id: u128| spec_uuid_text(id))) == ids,
    decreases ids.len(),
{
    let texts = ids.map_values(|id: u128| spec_uuid_text(id));
    if ids.len() > 0 {
        let prefix = ids.drop_last();
        assert forall|i: int| 0 <= i < prefix.len() implies spec_parse_uuid(spec_uuid_text(#[trigger] prefix[i]))
            == Some(prefix[i]) by {
            assert(prefix[i] == ids[i]);
        }
        law_cached_ids_read_back(prefix);
        assert(texts.drop_last() =~= prefix.map_values(|id: u128| spec_uuid_text(id)));
        assert(spec_parse_uuid(spec_uuid_text(ids[ids.len() - 1])) == Some(ids[ids.len() - 1]));
        assert(prefix.push(ids.last()) =~= ids);
    } else {
        assert(ids =~= Seq::<u128>::empty());
    }
}

} // verus!
