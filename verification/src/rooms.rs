//! Voice rooms: who is connected to the voice channel of each room, with the media
//! session of each peer, and to whom a peer's audio is forwarded.
use vstd::prelude::*;
use std::collections::HashMap;
use crate::ids::{ChannelId, UserId};

verus! {

broadcast use vstd::std_specs::hash::group_hash_axioms;

/// The place in `peers` of the entry for `user`, if any.
pub open spec fn spec_find<P>(peers: Seq<(u128, P)>, user: u128) -> Option<int>
    decreases peers.len(),
{
    if peers.len() == 0 {
        None
    } else if peers.last().0 == user {
        Some(peers.len() - 1)
    } else {
        spec_find(peers.drop_last(), user)
    }
}

/// No user has two entries.
pub open spec fn spec_unique<P>(peers: Seq<(u128, P)>) -> bool {
    forall|i: int, j: int| 0 <= i < peers.len() && 0 <= j < peers.len() && i != j ==> peers[i].0 != peers[j].0
}

/// The peers after `user` joins with `session`: a user already there has their
/// session replaced in place, a new one is added last.
pub open spec fn spec_with_peer<P>(peers: Seq<(u128, P)>, user: u128, session: P) -> Seq<(u128, P)> {
    match spec_find(peers, user) {
        Some(i) => peers.update(i, (user, session)),
        None => peers.push((user, session)),
    }
}

/// The peers after `user` leaves.
pub open spec fn spec_without_peer<P>(peers: Seq<(u128, P)>, user: u128) -> Seq<(u128, P)> {
    match spec_find(peers, user) {
        Some(i) => peers.remove(i),
        None => peers,
    }
}

/// The users to whom the audio of `sender` is forwarded: every other peer, in the
/// order they joined.
pub open spec fn spec_targets<P>(peers: Seq<(u128, P)>, sender: u128) -> Seq<u128>
    decreases peers.len(),
{
    if peers.len() == 0 {
        Seq::empty()
    } else {
        let prev = spec_targets(peers.drop_last(), sender);
        if peers.last().0 == sender {
            prev
        } else {
            prev.push(peers.last().0)
        }
    }
}

proof fn lemma_find_some<P>(peers: Seq<(u128, P)>, user: u128, i: int)
    requires
        spec_unique(peers),
        0 <= i < peers.len(),
        peers[i].0 == user,
    ensures
        spec_find(peers, user) == Some(i),
    decreases peers.len(),
{
    if i < peers.len() - 1 {
        lemma_find_some(peers.drop_last(), user, i);
    }
}

proof fn lemma_find_none<P>(peers: Seq<(u128, P)>, user: u128)
    requires
        forall|k: int| 0 <= k < peers.len() ==> peers[k].0 != user,
    ensures
        spec_find(peers, user) is None,
    decreases peers.len(),
{
    if peers.len() > 0 {
        lemma_find_none(peers.drop_last(), user);
    }
}

proof fn lemma_find_valid<P>(peers: Seq<(u128, P)>, user: u128)
    ensures
        spec_find(peers, user) matches Some(i) ==> 0 <= i < peers.len() && peers[i].0 == user,
        spec_find(peers, user) is None ==> forall|k: int| 0 <= k < peers.len() ==> peers[k].0 != user,
    decreases peers.len(),
{
    if peers.len() > 0 {
        lemma_find_valid(peers.drop_last(), user);
        if spec_find(peers, user) is None {
            assert forall|k: int| 0 <= k < peers.len() implies peers[k].0 != user by {
                if k < peers.len() - 1 {
                    assert(peers.drop_last()[k] == peers[k]);
                }
            }
        }
    }
}

proof fn lemma_with_peer_unique<P>(peers: Seq<(u128, P)>, user: u128, session: P)
    requires
        spec_unique(peers),
    ensures
        spec_unique(spec_with_peer(peers, user, session)),
{
    lemma_find_valid(peers, user);
}

proof fn lemma_without_peer_unique<P>(peers: Seq<(u128, P)>, user: u128)
    requires
        spec_unique(peers),
    ensures
        spec_unique(spec_without_peer(peers, user)),
        forall|k: int| 0 <= k < spec_without_peer(peers, user).len() ==> #[trigger] spec_without_peer(peers, user)[k].0 != user,
{
    lemma_find_valid(peers, user);
    let r = spec_without_peer(peers, user);
    match spec_find(peers, user) {
        Some(i) => {
            assert forall|a: int, b: int| 0 <= a < r.len() && 0 <= b < r.len() && a != b implies r[a].0 != r[b].0 by {
                let pa = if a < i { a } else { a + 1 };
                let pb = if b < i { b } else { b + 1 };
                assert(r[a] == peers[pa]);
                assert(r[b] == peers[pb]);
            }
            assert forall|k: int| 0 <= k < r.len() implies #[trigger] r[k].0 != user by {
                let pk = if k < i { k } else { k + 1 };
                assert(r[k] == peers[pk]);
            }
        },
        None => {},
    }
}

fn find<P>(peers: &Vec<(u128, P)>, user: u128) -> (r: Option<usize>)
    requires
        spec_unique(peers@),
    ensures
        match r {
            Some(i) => spec_find(peers@, user) == Some(i as int) && i < peers@.len() && peers@[i as int].0
                == user,
            None => spec_find(peers@, user) is None,
        },
{
    let mut i: usize = 0;
    while i < peers.len()
        invariant
            i <= peers@.len(),
            spec_unique(peers@),
            forall|k: int| 0 <= k < i ==> peers@[k].0 != user,
        decreases peers.len() - i,
    {
        if peers[i].0 == user {
            proof {
                lemma_find_some(peers@, user, i as int);
            }
            return Some(i);
        }
        i = i + 1;
    }
    proof {
        lemma_find_none(peers@, user);
    }
    None
}

/// The peers of the room of `channel` in `rooms`, none where it is not open.
pub open spec fn spec_room<P>(rooms: Map<u128, Seq<(u128, P)>>, channel: u128) -> Seq<(u128, P)> {
    if rooms.contains_key(channel) {
        rooms[channel]
    } else {
        Seq::empty()
    }
}

/// The rooms after `user` joins the room of `channel` with `session`.
pub open spec fn spec_after_join<P>(rooms: Map<u128, Seq<(u128, P)>>, channel: u128, user: u128, session: P) -> Map<u128, Seq<(u128, P)>> {
    rooms.insert(channel, spec_with_peer(spec_room(rooms, channel), user, session))
}

/// The rooms after `user` leaves the room of `channel`; a room left empty closes.
pub open spec fn spec_after_leave<P>(rooms: Map<u128, Seq<(u128, P)>>, channel: u128, user: u128) -> Map<u128, Seq<(u128, P)>> {
    if !rooms.contains_key(channel) {
        rooms
    } else if spec_without_peer(rooms[channel], user).len() == 0 {
        rooms.remove(channel)
    } else {
        rooms.insert(channel, spec_without_peer(rooms[channel], user))
    }
}

/// The open voice rooms, each keyed by its channel, with its peers in the order
/// they joined.
pub struct VoiceRooms<P> {
    rooms: HashMap<u128, Vec<(u128, P)>>,
}

impl<P> VoiceRooms<P> {
    /// The rooms: for each open room's channel, its peers with their sessions.
    pub closed spec fn spec_rooms(&self) -> Map<u128, Seq<(u128, P)>> {
        self.rooms@.map_values(|v: Vec<(u128, P)>| v@)
    }

    /// No room holds a user twice.
    #[verifier::type_invariant]
    closed spec fn wf(&self) -> bool {
        forall|c: u128| #[trigger] self.rooms@.contains_key(c) ==> spec_unique(self.rooms@[c]@)
    }

    /// The peers of the room of `channel`, none where it is not open.
    pub open spec fn spec_peers(&self, channel: u128) -> Seq<(u128, P)> {
        spec_room(self.spec_rooms(), channel)
    }

    /// No room is open.
    pub fn new() -> (r: Self)
        ensures
            r.spec_rooms() == Map::<u128, Seq<(u128, P)>>::empty(),
    {
        let r = VoiceRooms { rooms: HashMap::new() };
        assert(r.spec_rooms() =~= Map::<u128, Seq<(u128, P)>>::empty());
        r
    }

    /// Opens the room of `channel` where it is not open yet; an open room stays as it is.
    pub fn get_or_create_room(&mut self, channel: ChannelId)
        ensures
            final(self).spec_rooms() == (if old(self).spec_rooms().contains_key(channel.0) {
                old(self).spec_rooms()
            } else {
                old(self).spec_rooms().insert(channel.0, Seq::empty())
            }),
    {
        proof {
            use_type_invariant(&*self);
        }
        if !self.rooms.contains_key(&channel.0) {
            let mut rooms: HashMap<u128, Vec<(u128, P)>> = HashMap::new();
            std::mem::swap(&mut rooms, &mut self.rooms);
            rooms.insert(channel.0, Vec::new());
            self.rooms = rooms;
            assert(self.spec_rooms() =~= old(self).spec_rooms().insert(channel.0, Seq::empty()));
        }
    }

    /// `user` joins the room of `channel` (opened where needed) with `session`; a
    /// user already in it keeps their place and gets the new session.
    pub fn add_user_to_room(&mut self, channel: ChannelId, user: UserId, session: P)
        ensures
            final(self).spec_rooms() == spec_after_join(old(self).spec_rooms(), channel.0, user.0, session),
    {
        proof {
            use_type_invariant(&*self);
        }
        let mut rooms: HashMap<u128, Vec<(u128, P)>> = HashMap::new();
        std::mem::swap(&mut rooms, &mut self.rooms);
        let taken = rooms.remove(&channel.0);
        let mut peers: Vec<(u128, P)> = match taken {
            Some(v) => v,
            None => Vec::new(),
        };
        assert(peers@ == old(self).spec_peers(channel.0));
        assert(spec_unique(peers@));
        let ghost before = peers@;
        match find(&peers, user.0) {
            Some(i) => {
                peers.set(i, (user.0, session));
            },
            None => {
                proof {
                    lemma_find_valid(before, user.0);
                }
                peers.push((user.0, session));
            },
        }
        assert(peers@ == spec_with_peer(before, user.0, session));
        proof {
            lemma_with_peer_unique(before, user.0, session);
        }
        rooms.insert(channel.0, peers);
        self.rooms = rooms;
        assert(self.spec_rooms() =~= old(self).spec_rooms().insert(
            channel.0,
            spec_with_peer(old(self).spec_peers(channel.0), user.0, session),
        ));
    }

    /// `user` leaves the room of `channel`; a room left empty is closed. Nothing
    /// changes where the room is not open.
    pub fn remove_user_from_room(&mut self, channel: &ChannelId, user: &UserId)
        ensures
            final(self).spec_rooms() == spec_after_leave(old(self).spec_rooms(), channel.0, user.0),
    {
        proof {
            use_type_invariant(&*self);
        }
        let mut rooms: HashMap<u128, Vec<(u128, P)>> = HashMap::new();
        std::mem::swap(&mut rooms, &mut self.rooms);
        let taken = rooms.remove(&channel.0);
        match taken {
            None => {
                self.rooms = rooms;
                assert(self.spec_rooms() =~= old(self).spec_rooms());
            },
            Some(mut peers) => {
                let ghost before = peers@;
                match find(&peers, user.0) {
                    Some(i) => {
                        peers.remove(i);
                    },
                    None => {},
                }
                assert(peers@ == spec_without_peer(before, user.0));
                proof {
                    lemma_without_peer_unique(before, user.0);
                }
                if peers.len() == 0 {
                    self.rooms = rooms;
                    assert(self.spec_rooms() =~= old(self).spec_rooms().remove(channel.0));
                } else {
                    rooms.insert(channel.0, peers);
                    self.rooms = rooms;
                    assert(self.spec_rooms() =~= old(self).spec_rooms().insert(
                        channel.0,
                        spec_without_peer(before, user.0),
                    ));
                }
            },
        }
    }

    /// The users to whom the audio of `sender` in the room of `channel` is forwarded.
    pub fn forward_targets(&self, channel: &ChannelId, sender: &UserId) -> (r: Vec<u128>)
        ensures
            r@ == spec_targets(self.spec_peers(channel.0), sender.0),
    {
        proof {
            use_type_invariant(&*self);
        }
        let mut out: Vec<u128> = Vec::new();
        match self.rooms.get(&channel.0) {
            None => {
                out
            },
            Some(peers) => {
                let mut i: usize = 0;
                while i < peers.len()
                    invariant
                        i <= peers@.len(),
                        out@ == spec_targets(peers@.take(i as int), sender.0),
                    decreases peers.len() - i,
                {
                    assert(peers@.take(i + 1).drop_last() =~= peers@.take(i as int));
                    if peers[i].0 != sender.0 {
                        out.push(peers[i].0);
                    }
                    i = i + 1;
                }
                assert(peers@.take(i as int) =~= peers@);
                out
            },
        }
    }

    /// Whether `user` is a peer of the room of `channel`.
    pub fn has_peer(&self, channel: &ChannelId, user: &UserId) -> (r: bool)
        ensures
            r == spec_find(self.spec_peers(channel.0), user.0) is Some,
    {
        proof {
            use_type_invariant(&*self);
        }
        match self.rooms.get(&channel.0) {
            None => false,
            Some(peers) => find(peers, user.0).is_some(),
        }
    }

    /// The session of `user` in the room of `channel`, if they are a peer of it.
    pub fn get_peer(&self, channel: &ChannelId, user: &UserId) -> (r: Option<&P>)
        ensures
            match spec_find(self.spec_peers(channel.0), user.0) {
                Some(i) => r == Some(&self.spec_peers(channel.0)[i].1),
                None => r is None,
            },
    {
        proof {
            use_type_invariant(&*self);
        }
        match self.rooms.get(&channel.0) {
            None => None,
            Some(peers) => match find(peers, user.0) {
                Some(i) => Some(&peers[i].1),
                None => None,
            },
        }
    }

    /// Whether the room of `channel` is open.
    pub fn has_room(&self, channel: &ChannelId) -> (r: bool)
        ensures
            r == self.spec_rooms().contains_key(channel.0),
    {
        self.rooms.contains_key(&channel.0)
    }
}

/// A peer's audio goes to every other peer of the room and never back to them.
pub proof fn law_audio_reaches_every_other_peer<P>(peers: Seq<(u128, P)>, sender: u128)
    ensures
        !spec_targets(peers, sender).contains(sender),
        forall|k: int| 0 <= k < peers.len() && peers[k].0 != sender ==> spec_targets(peers, sender).contains(
            #[trigger] peers[k].0,
        ),
        forall|t: u128| spec_targets(peers, sender).contains(t) ==> exists|k: int| 0 <= k < peers.len()
            && #[trigger] peers[k].0 == t,
    decreases peers.len(),
{
    if peers.len() > 0 {
        let prev = peers.drop_last();
        law_audio_reaches_every_other_peer(prev, sender);
        let tp = spec_targets(prev, sender);
        let t = spec_targets(peers, sender);
        assert forall|k: int| 0 <= k < peers.len() && peers[k].0 != sender implies t.contains(#[trigger] peers[k].0) by {
            if k < peers.len() - 1 {
                assert(prev[k] == peers[k]);
                assert(tp.contains(prev[k].0));
                let j = choose|j: int| 0 <= j < tp.len() && tp[j] == prev[k].0;
                if peers.last().0 != sender {
                    assert(t[j] == tp[j]);
                }
            } else {
                assert(t[t.len() - 1] == peers.last().0);
            }
        }
        assert forall|x: u128| t.contains(x) implies exists|k: int| 0 <= k < peers.len() && #[trigger] peers[k].0 == x by {
            let j = choose|j: int| 0 <= j < t.len() && t[j] == x;
            if j < tp.len() {
                assert(tp[j] == x);
                assert(tp.contains(x));
                let k = choose|k: int| 0 <= k < prev.len() && #[trigger] prev[k].0 == x;
                assert(peers[k] == prev[k]);
            } else {
                assert(peers[peers.len() - 1].0 == x);
            }
        }
        if t.contains(sender) {
            let j = choose|j: int| 0 <= j < t.len() && t[j] == sender;
            if j < tp.len() {
                assert(tp[j] == sender);
                assert(tp.contains(sender));
            }
        }
    }
}

/// A user who joins a room they were not in and then leaves it leaves the rooms as
/// they were, where the room was closed before or had other peers.
pub proof fn law_join_then_leave_restores<P>(rooms: Map<u128, Seq<(u128, P)>>, channel: u128, user: u128, session: P)
    requires
        rooms.contains_key(channel) ==> rooms[channel].len() > 0,
        spec_find(spec_room(rooms, channel), user) is None,
    ensures
        spec_after_leave(spec_after_join(rooms, channel, user, session), channel, user) == rooms,
{
    let before = spec_room(rooms, channel);
    let joined = before.push((user, session));
    assert(spec_find(joined, user) == Some(before.len() as int));
    assert(joined.remove(before.len() as int) =~= before);
    if rooms.contains_key(channel) {
        assert(rooms.insert(channel, before) =~= rooms);
    } else {
        assert(before.len() == 0);
        assert(rooms.insert(channel, joined).remove(channel) =~= rooms);
    }
}

} // verus!
