//! Names of the keys and publish topics that the service uses in Redis, and
//! how long each kind of key lives.
use vstd::prelude::*;
use vstd::string::*;
use crate::ids::{ChannelId, GuildId, UserId};
use crate::uuids::{spec_uuid_text, uuid_to_string};

verus! {

/// A login session lives a week after its last use.
pub const SESSION_TTL_SECONDS: u64 = 604800;

/// A connection ticket lives thirty seconds.
pub const TICKET_TTL_SECONDS: u64 = 30;

/// A cached friend or member list lives a day.
pub const CACHE_TTL_SECONDS: u64 = 86400;

fn join(prefix: &str, rest: &str) -> (r: String)
    ensures
        r@ == prefix@ + rest@,
{
    String::from_str(prefix).concat(rest)
}

/// The key under which the session with token `key` is stored.
pub fn build_key(key: &str) -> (r: String)
    ensures
        r@ == "session:"@ + key@,
{
    join("session:", key)
}

/// The key under which the presence of `user` is stored.
pub fn presence_key(user: UserId) -> (r: String)
    ensures
        r@ == "presence:"@ + spec_uuid_text(user.0),
{
    let id = uuid_to_string(user.0);
    join("presence:", id.as_str())
}

/// The key of the cached set of friends of `user`.
pub fn friends_cache_key(user: UserId) -> (r: String)
    ensures
        r@ == "user_friends:"@ + spec_uuid_text(user.0),
{
    let id = uuid_to_string(user.0);
    join("user_friends:", id.as_str())
}

/// The key of the cached set of members of `guild`.
pub fn guild_members_cache_key(guild: GuildId) -> (r: String)
    ensures
        r@ == "guild_members:"@ + spec_uuid_text(guild.0),
{
    let id = uuid_to_string(guild.0);
    join("guild_members:", id.as_str())
}

/// The topic on which events of `channel` are published.
pub fn channel_topic(channel: ChannelId) -> (r: String)
    ensures
        r@ == "channel:"@ + spec_uuid_text(channel.0),
{
    let id = uuid_to_string(channel.0);
    join("channel:", id.as_str())
}

/// The topic on which events of `guild` are published.
pub fn guild_topic(guild: GuildId) -> (r: String)
    ensures
        r@ == "guild:"@ + spec_uuid_text(guild.0),
{
    let id = uuid_to_string(guild.0);
    join("guild:", id.as_str())
}

/// The topic on which events addressed to `user` are published.
pub fn user_topic(user: UserId) -> (r: String)
    ensures
        r@ == "user:"@ + spec_uuid_text(user.0),
{
    let id = uuid_to_string(user.0);
    join("user:", id.as_str())
}

/// The topics on which an event is published to each of `friends`, in order; none
/// where there are no friends.
pub fn friend_topics(friends: &Vec<UserId>) -> (r: Vec<String>)
    ensures
        r@.len() == friends@.len(),
        forall|i: int| 0 <= i < friends@.len() ==> #[trigger] r@[i]@ == "user:"@ + spec_uuid_text(friends@[i].0),
{
    let mut out: Vec<String> = Vec::new();
    let mut i: usize = 0;
    while i < friends.len()
        invariant
            i <= friends@.len(),
            out@.len() == i,
            forall|k: int| 0 <= k < i ==> #[trigger] out@[k]@ == "user:"@ + spec_uuid_text(friends@[k].0),
        decreases friends.len() - i,
    {
        out.push(user_topic(friends[i]));
        i = i + 1;
    }
    out
}

/// Keys built with one prefix from different names are different: no two sessions,
/// presences, caches or topics of one kind share a key.
pub proof fn law_prefixed_names_are_distinct(prefix: Seq<char>, a: Seq<char>, b: Seq<char>)
    requires
        a != b,
    ensures
        prefix + a != prefix + b,
{
    if prefix + a == prefix + b {
        assert((prefix + a).skip(prefix.len() as int) =~= a);
        assert((prefix + b).skip(prefix.len() as int) =~= b);
    }
}

} // verus!
