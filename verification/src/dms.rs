//! Direct-message channels between two users.
use vstd::prelude::*;
use vstd::string::*;
use std::collections::HashMap;
use crate::clock::Timestamp;
use crate::data::{DMChannel, UserPresence, UserPublic};
use crate::error::AppError;
use crate::events::{Audience, Delivery, ServerEvent};
use crate::ids::{ChannelId, UserId};
use crate::mappers::{profile_of, spec_profile_matches};
use crate::models::{DmChannelMemberModel, DmChannelModel, UserModel};
use crate::presence::spec_presence_in;
use crate::data::offline_presence;

verus! {

broadcast use vstd::std_specs::hash::group_hash_axioms;

/// How to give the requesting user a direct-message channel with the target.
#[derive(Clone, Debug)]
pub enum DmPlan {
    /// Their channel exists; the requester's membership is to be reopened where
    /// `reopen` is set.
    Reuse { channel_id: u128, reopen: bool },
    /// A new channel is stored, open for the requester and closed for the target.
    Create { channel: DmChannelModel, mine: DmChannelMemberModel, theirs: DmChannelMemberModel },
}

/// The index of the first membership of `mine` in `channel_id`, if any.
pub open spec fn spec_first_in(mine: Seq<DmChannelMemberModel>, channel_id: u128) -> Option<int>
    decreases mine.len(),
{
    if mine.len() == 0 {
        None
    } else if mine.last().channel_id == channel_id {
        match spec_first_in(mine.drop_last(), channel_id) {
            Some(i) => Some(i),
            None => Some(mine.len() - 1),
        }
    } else {
        spec_first_in(mine.drop_last(), channel_id)
    }
}

proof fn lemma_first_in(mine: Seq<DmChannelMemberModel>, channel_id: u128, j: int)
    requires
        0 <= j < mine.len(),
        mine[j].channel_id == channel_id,
        forall|k: int| 0 <= k < j ==> mine[k].channel_id != channel_id,
    ensures
        spec_first_in(mine, channel_id) == Some(j),
    decreases mine.len(),
{
    if j < mine.len() - 1 {
        lemma_first_in(mine.drop_last(), channel_id, j);
    } else {
        lemma_first_none(mine.drop_last(), channel_id);
    }
}

proof fn lemma_first_none(mine: Seq<DmChannelMemberModel>, channel_id: u128)
    requires
        forall|k: int| 0 <= k < mine.len() ==> mine[k].channel_id != channel_id,
    ensures
        spec_first_in(mine, channel_id) is None,
    decreases mine.len(),
{
    if mine.len() > 0 {
        lemma_first_none(mine.drop_last(), channel_id);
    }
}

/// `user_id` asks for a direct-message channel with `target_id` (found where
/// `target_found`). `my_memberships` are the requester's memberships and `existing`
/// the channel of one of them that the target is also in, if any. Refused with
/// `BadRequest` for a channel with oneself and with `NotFound` for a missing target.
/// An existing channel is reused, and reopened for the requester where their first
/// membership in it is closed; otherwise channel `new_channel_id` is created at `now`.
pub fn plan_dm(
    user_id: UserId,
    target_id: UserId,
    target_found: bool,
    my_memberships: &Vec<DmChannelMemberModel>,
    existing: Option<u128>,
    new_channel_id: u128,
    now: Timestamp,
) -> (r: Result<DmPlan, AppError>)
    requires
        existing matches Some(c) ==> spec_first_in(my_memberships@, c) is Some,
    ensures
        user_id == target_id ==> (r matches Err(AppError::BadRequest(m)) && m@
            == "You cannot create a Direct Message Channel with yourself"@),
        user_id != target_id && !target_found ==> (r matches Err(e) && e is NotFound),
        user_id != target_id && target_found ==> match existing {
            Some(c) => r matches Ok(DmPlan::Reuse { channel_id, reopen }) && channel_id == c && reopen
                == !my_memberships@[spec_first_in(my_memberships@, c).unwrap()].is_open,
            None => r matches Ok(DmPlan::Create { channel, mine, theirs }) && channel == (DmChannelModel {
                id: new_channel_id,
                created_at: now,
            }) && mine == (DmChannelMemberModel {
                channel_id: new_channel_id,
                user_id: user_id.0,
                is_open: true,
                joined_at: now,
            }) && theirs == (DmChannelMemberModel {
                channel_id: new_channel_id,
                user_id: target_id.0,
                is_open: false,
                joined_at: now,
            }),
        },
{
    if user_id == target_id {
        return Err(AppError::BadRequest(String::from_str("You cannot create a Direct Message Channel with yourself")));
    }
    if !target_found {
        return Err(AppError::NotFound);
    }
    match existing {
        Some(cid) => {
            let mut j: usize = 0;
            while j < my_memberships.len()
                invariant
                    j <= my_memberships@.len(),
                    user_id != target_id,
                    target_found,
                    existing == Some(cid),
                    spec_first_in(my_memberships@, cid) is Some,
                    forall|k: int| 0 <= k < j ==> my_memberships@[k].channel_id != cid,
                decreases my_memberships.len() - j,
            {
                if my_memberships[j].channel_id == cid {
                    proof {
                        lemma_first_in(my_memberships@, cid, j as int);
                    }
                    return Ok(DmPlan::Reuse { channel_id: cid, reopen: !my_memberships[j].is_open });
                }
                j = j + 1;
            }
            proof {
                lemma_first_none(my_memberships@, cid);
            }
            Err(AppError::NotFound)
        },
        None => Ok(
            DmPlan::Create {
                channel: DmChannelModel { id: new_channel_id, created_at: now },
                mine: DmChannelMemberModel {
                    channel_id: new_channel_id,
                    user_id: user_id.0,
                    is_open: true,
                    joined_at: now,
                },
                theirs: DmChannelMemberModel {
                    channel_id: new_channel_id,
                    user_id: target_id.0,
                    is_open: false,
                    joined_at: now,
                },
            },
        ),
    }
}

/// `d` is the open channel `channel_id` with `target` as its one recipient, shown
/// with `presence`.
pub open spec fn spec_dm_view(d: DMChannel, channel_id: u128, target: UserModel, presence: UserPresence) -> bool {
    &&& d.id == ChannelId(channel_id)
    &&& d.is_open
    &&& d.recipients@.len() == 1
    &&& d.recipients@[0].id == UserId(target.id)
    &&& spec_profile_matches(d.recipients@[0].profile, target)
    &&& d.recipients@[0].presence == presence
}

/// `d` is the open channel `channel_id` whose one recipient is `target_id`, shown
/// with the profile of `target` and with `presence`.
pub open spec fn spec_dm_shown(d: DMChannel, channel_id: u128, target_id: UserId, target: UserModel, presence: UserPresence) -> bool {
    &&& d.id == ChannelId(channel_id)
    &&& d.is_open
    &&& d.recipients@.len() == 1
    &&& d.recipients@[0].id == target_id
    &&& spec_profile_matches(d.recipients@[0].profile, target)
    &&& d.recipients@[0].presence == presence
}

/// The channel `channel_id` as the requester sees it, with the target `target_id`
/// (whose profile is `target`) shown with `presence`, and the deliveries that
/// announce it to the requester and then to the target.
pub fn dm_view(
    user_id: UserId,
    target_id: UserId,
    channel_id: u128,
    target: &UserModel,
    presence: UserPresence,
) -> (r: (DMChannel, Vec<Delivery>))
    ensures
        spec_dm_shown(r.0, channel_id, target_id, *target, presence),
        r.1@.len() == 2,
        r.1@[0].audience == Audience::User(user_id),
        r.1@[1].audience == Audience::User(target_id),
        r.1@[0].event matches ServerEvent::DirectMessageCreated { channel } && spec_dm_shown(
            channel,
            channel_id,
            target_id,
            *target,
            presence,
        ),
        r.1@[1].event matches ServerEvent::DirectMessageCreated { channel } && spec_dm_shown(
            channel,
            channel_id,
            target_id,
            *target,
            presence,
        ),
{
    let mut recipients: Vec<UserPublic> = Vec::new();
    recipients.push(UserPublic { id: target_id, profile: profile_of(target), presence });
    let dm = DMChannel { id: ChannelId(channel_id), recipients, is_open: true };
    let mut recipients2: Vec<UserPublic> = Vec::new();
    recipients2.push(
        UserPublic {
            id: target_id,
            profile: profile_of(target),
            presence: dm.recipients[0].presence.duplicate(),
        },
    );
    let announced = DMChannel { id: ChannelId(channel_id), recipients: recipients2, is_open: true };
    let mut recipients3: Vec<UserPublic> = Vec::new();
    recipients3.push(
        UserPublic {
            id: target_id,
            profile: profile_of(target),
            presence: dm.recipients[0].presence.duplicate(),
        },
    );
    let announced2 = DMChannel { id: ChannelId(channel_id), recipients: recipients3, is_open: true };
    let mut deliveries: Vec<Delivery> = Vec::new();
    deliveries.push(
        Delivery {
            audience: Audience::User(user_id),
            event: ServerEvent::DirectMessageCreated { channel: announced },
        },
    );
    deliveries.push(
        Delivery {
            audience: Audience::User(target_id),
            event: ServerEvent::DirectMessageCreated { channel: announced2 },
        },
    );
    (dm, deliveries)
}

/// The first of `others` that is in `channel_id`, if any.
pub open spec fn spec_first_other(
    others: Seq<(DmChannelMemberModel, Option<UserModel>)>,
    channel_id: u128,
) -> Option<(DmChannelMemberModel, Option<UserModel>)>
    decreases others.len(),
{
    if others.len() == 0 {
        None
    } else if others[0].0.channel_id == channel_id {
        Some(others[0])
    } else {
        spec_first_other(others.drop_first(), channel_id)
    }
}

/// The open channels of the requester that are shown, each with the profile of its
/// recipient: for each open membership in turn, the first other member of that
/// channel, provided one exists and their user record exists.
pub open spec fn spec_open_dm_sources(
    mine: Seq<DmChannelMemberModel>,
    others: Seq<(DmChannelMemberModel, Option<UserModel>)>,
) -> Seq<(u128, UserModel)>
    decreases mine.len(),
{
    if mine.len() == 0 {
        Seq::empty()
    } else {
        let prev = spec_open_dm_sources(mine.drop_last(), others);
        let cid = mine.last().channel_id;
        match spec_first_other(others, cid) {
            Some((_, Some(u))) => prev.push((cid, u)),
            _ => prev,
        }
    }
}

proof fn lemma_first_other_found(others: Seq<(DmChannelMemberModel, Option<UserModel>)>, cid: u128, j: int)
    requires
        0 <= j < others.len(),
        others[j].0.channel_id == cid,
        forall|k: int| 0 <= k < j ==> others[k].0.channel_id != cid,
    ensures
        spec_first_other(others, cid) == Some(others[j]),
    decreases j,
{
    if j > 0 {
        lemma_first_other_found(others.drop_first(), cid, j - 1);
    }
}

proof fn lemma_first_other_none(others: Seq<(DmChannelMemberModel, Option<UserModel>)>, cid: u128)
    requires
        forall|k: int| 0 <= k < others.len() ==> others[k].0.channel_id != cid,
    ensures
        spec_first_other(others, cid) is None,
    decreases others.len(),
{
    if others.len() > 0 {
        lemma_first_other_none(others.drop_first(), cid);
    }
}

fn find_other(others: &Vec<(DmChannelMemberModel, Option<UserModel>)>, cid: u128) -> (r: Option<usize>)
    ensures
        match r {
            Some(j) => j < others@.len() && spec_first_other(others@, cid) == Some(others@[j as int]),
            None => spec_first_other(others@, cid) is None,
        },
{
    let mut j: usize = 0;
    while j < others.len()
        invariant
            j <= others@.len(),
            forall|k: int| 0 <= k < j ==> others@[k].0.channel_id != cid,
        decreases others.len() - j,
    {
        if others[j].0.channel_id == cid {
            proof {
                lemma_first_other_found(others@, cid, j as int);
            }
            return Some(j);
        }
        j = j + 1;
    }
    proof {
        lemma_first_other_none(others@, cid);
    }
    None
}

/// The open direct-message channels of the requester: for each of their open
/// memberships `mine`, the channel with its first other member among `others` (each
/// with their user record, where it exists), shown with the presence that `presences`
/// holds for them, or offline.
pub fn get_open_dms(
    mine: &Vec<DmChannelMemberModel>,
    others: &Vec<(DmChannelMemberModel, Option<UserModel>)>,
    presences: &HashMap<u128, UserPresence>,
) -> (r: Vec<DMChannel>)
    ensures
        r@.len() == spec_open_dm_sources(mine@, others@).len(),
        forall|i: int|
            0 <= i < r@.len() ==> {
                let src = #[trigger] spec_open_dm_sources(mine@, others@)[i];
                spec_dm_view(r@[i], src.0, src.1, spec_presence_in(presences@, src.1.id))
            },
{
    let mut out: Vec<DMChannel> = Vec::new();
    let mut i: usize = 0;
    while i < mine.len()
        invariant
            i <= mine@.len(),
            out@.len() == spec_open_dm_sources(mine@.take(i as int), others@).len(),
            forall|k: int|
                0 <= k < out@.len() ==> {
                    let src = #[trigger] spec_open_dm_sources(mine@.take(i as int), others@)[k];
                    spec_dm_view(out@[k], src.0, src.1, spec_presence_in(presences@, src.1.id))
                },
        decreases mine.len() - i,
    {
        assert(mine@.take(i + 1).drop_last() =~= mine@.take(i as int));
        let cid = mine[i].channel_id;
        let found = find_other(others, cid);
        match found {
            Some(j) => {
                match &others[j].1 {
                    Some(target) => {
                        let presence = match presences.get(&target.id) {
                            Some(p) => p.duplicate(),
                            None => offline_presence(),
                        };
                        let mut recipients: Vec<UserPublic> = Vec::new();
                        recipients.push(UserPublic { id: UserId(target.id), profile: profile_of(target), presence });
                        out.push(DMChannel { id: ChannelId(cid), recipients, is_open: true });
                    },
                    None => {},
                }
            },
            None => {},
        }
        i = i + 1;
    }
    assert(mine@.take(i as int) =~= mine@);
    out
}

/// Some member of `others` is in channel `cid`.
pub open spec fn spec_has_other(others: Seq<(DmChannelMemberModel, Option<UserModel>)>, cid: u128) -> bool {
    exists|k: int| 0 <= k < others.len() && #[trigger] others[k].0.channel_id == cid
}

/// The first other member in `cid` is one of `others` in that channel, and there is
/// one wherever some member of `others` is in it.
proof fn lemma_first_other_member(others: Seq<(DmChannelMemberModel, Option<UserModel>)>, cid: u128)
    ensures
        spec_has_other(others, cid) ==> spec_first_other(others, cid) is Some,
        spec_first_other(others, cid) matches Some(p) ==> exists|k: int|
            0 <= k < others.len() && #[trigger] others[k] == p && p.0.channel_id == cid,
    decreases others.len(),
{
    if others.len() > 0 {
        let rest = others.drop_first();
        lemma_first_other_member(rest, cid);
        if others[0].0.channel_id != cid {
            if spec_has_other(others, cid) {
                let k = choose|k: int| 0 <= k < others.len() && #[trigger] others[k].0.channel_id == cid;
                assert(rest[k - 1].0.channel_id == cid);
            }
            if spec_first_other(rest, cid) is Some {
                let k = choose|k: int|
                    0 <= k < rest.len() && #[trigger] rest[k] == spec_first_other(rest, cid)->0 && rest[k].0.channel_id
                        == cid;
                assert(others[k + 1] == rest[k]);
            }
        } else {
            assert(others[0] == spec_first_other(others, cid)->0);
        }
    }
}

/// Every open membership is shown where its channel has another member and every
/// other member has a user record: one channel per membership, in the order of the
/// memberships, each the membership's channel with one of its other members as the
/// recipient.
pub proof fn law_every_open_dm_with_a_recipient_is_shown(
    mine: Seq<DmChannelMemberModel>,
    others: Seq<(DmChannelMemberModel, Option<UserModel>)>,
)
    requires
        forall|i: int| 0 <= i < mine.len() ==> spec_has_other(others, (#[trigger] mine[i]).channel_id),
        forall|k: int| 0 <= k < others.len() ==> (#[trigger] others[k]).1 is Some,
    ensures
        spec_open_dm_sources(mine, others).len() == mine.len(),
        forall|i: int| 0 <= i < mine.len() ==> {
            let src = #[trigger] spec_open_dm_sources(mine, others)[i];
            &&& src.0 == mine[i].channel_id
            &&& exists|k: int| 0 <= k < others.len() && others[k].0.channel_id == mine[i].channel_id
                && #[trigger] others[k].1 == Some(src.1)
        },
    decreases mine.len(),
{
    if mine.len() > 0 {
        let front = mine.drop_last();
        assert forall|i: int| 0 <= i < front.len() implies spec_has_other(others, (#[trigger] front[i]).channel_id) by {
            assert(front[i] == mine[i]);
        }
        law_every_open_dm_with_a_recipient_is_shown(front, others);
        let cid = mine.last().channel_id;
        assert(mine[mine.len() - 1] == mine.last());
        assert(spec_has_other(others, cid));
        lemma_first_other_member(others, cid);
        let p = spec_first_other(others, cid)->0;
        let k = choose|k: int| 0 <= k < others.len() && #[trigger] others[k] == p && p.0.channel_id == cid;
        assert(others[k].1 is Some);
        let prev = spec_open_dm_sources(front, others);
        let all = spec_open_dm_sources(mine, others);
        assert(all == prev.push((cid, p.1->0)));
        assert forall|i: int| 0 <= i < mine.len() implies {
            let src = #[trigger] all[i];
            &&& src.0 == mine[i].channel_id
            &&& exists|k: int| 0 <= k < others.len() && others[k].0.channel_id == mine[i].channel_id
                && #[trigger] others[k].1 == Some(src.1)
        } by {
            if i < mine.len() - 1 {
                assert(all[i] == prev[i]);
                assert(front[i] == mine[i]);
            } else {
                assert(others[k].1 == Some(all[i].1));
            }
        }
    }
}

} // verus!
