//! Members leaving, being removed from and being banned from a guild.
use vstd::prelude::*;
use vstd::string::*;
use crate::clock::Timestamp;
use crate::error::AppError;
use crate::events::{Audience, Delivery, ServerEvent};
use crate::ids::{GuildId, UserId};
use crate::models::GuildBanModel;

verus! {

/// A request to ban a member, for a while or for good.
#[derive(Clone, Debug)]
pub struct BanMemberRequest {
    pub reason: Option<String>,
    pub expires_at: Option<Timestamp>,
}

/// What removing a membership involves: deleting its row, dropping one user from
/// the guild's cached member list, and publishing that the member left.
#[derive(Clone, Debug)]
pub struct MemberRemoval {
    pub member_row_id: u128,
    pub uncache_guild: GuildId,
    pub uncache_user: UserId,
    pub deliveries: Vec<Delivery>,
}

/// `d` tells `audience` that `user_id` left `guild_id`.
pub open spec fn spec_member_left_to(d: Delivery, audience: Audience, guild_id: GuildId, user_id: UserId) -> bool {
    d.audience == audience && d.event == (ServerEvent::MemberLeft { guild_id, user_id })
}

/// The removal of membership row `member_row_id`: the cache entry of `uncache_user`
/// is dropped, and the guild, then `notify`, are told that `left` left.
pub open spec fn spec_removal(
    r: MemberRemoval,
    member_row_id: u128,
    guild_id: GuildId,
    uncache_user: UserId,
    left: UserId,
    notify: UserId,
) -> bool {
    &&& r.member_row_id == member_row_id
    &&& r.uncache_guild == guild_id
    &&& r.uncache_user == uncache_user
    &&& r.deliveries@.len() == 2
    &&& spec_member_left_to(r.deliveries@[0], Audience::Guild(guild_id), guild_id, left)
    &&& spec_member_left_to(r.deliveries@[1], Audience::User(notify), guild_id, left)
}

fn removal(member_row_id: u128, guild_id: GuildId, uncache_user: UserId, left: UserId, notify: UserId) -> (r:
    MemberRemoval)
    ensures
        spec_removal(r, member_row_id, guild_id, uncache_user, left, notify),
{
    let mut deliveries: Vec<Delivery> = Vec::new();
    deliveries.push(
        Delivery {
            audience: Audience::Guild(guild_id),
            event: ServerEvent::MemberLeft { guild_id, user_id: left },
        },
    );
    deliveries.push(
        Delivery {
            audience: Audience::User(notify),
            event: ServerEvent::MemberLeft { guild_id, user_id: left },
        },
    );
    MemberRemoval { member_row_id, uncache_guild: guild_id, uncache_user, deliveries }
}

/// `user_id` leaves `guild_id`, whose owner is `guild_owner` (`None` where there is
/// no such guild) and in which their membership row is `member_row` (if any).
/// Refused with `NotFound` for a missing guild or membership, and with `BadRequest`
/// for the owner, who must hand the guild over or delete it.
pub fn plan_leave(guild_id: GuildId, user_id: UserId, guild_owner: Option<u128>, member_row: Option<u128>) -> (r:
    Result<MemberRemoval, AppError>)
    ensures
        match (guild_owner, member_row) {
            (None, _) => r matches Err(e) && e is NotFound,
            (Some(owner), _) if owner == user_id.0 => r matches Err(AppError::BadRequest(m)) && m@
                == "Guild Owners cannot leave. Transfer ownership or delete the entire guild."@,
            (Some(_), None) => r matches Err(e) && e is NotFound,
            (Some(_), Some(row)) => r matches Ok(p) && spec_removal(p, row, guild_id, user_id, user_id, user_id),
        },
{
    let owner = match guild_owner {
        None => return Err(AppError::NotFound),
        Some(o) => o,
    };
    if owner == user_id.0 {
        return Err(
            AppError::BadRequest(
                String::from_str("Guild Owners cannot leave. Transfer ownership or delete the entire guild."),
            ),
        );
    }
    match member_row {
        None => Err(AppError::NotFound),
        Some(row) => Ok(removal(row, guild_id, user_id, user_id, user_id)),
    }
}

/// `user_id` removes `target_id` from `guild_id` (after the check that they may
/// kick members). Refused with `NotFound` for a missing guild or membership of the
/// target, and with `Forbidden` where the target owns the guild. The cache entry
/// dropped and the user told are those of the acting user, `user_id`.
pub fn plan_kick(
    guild_id: GuildId,
    user_id: UserId,
    target_id: UserId,
    guild_owner: Option<u128>,
    member_row: Option<u128>,
) -> (r: Result<MemberRemoval, AppError>)
    ensures
        match (guild_owner, member_row) {
            (None, _) => r matches Err(e) && e is NotFound,
            (Some(owner), _) if owner == target_id.0 => r matches Err(AppError::Forbidden(m)) && m@
                == "Cannot kick the serrver owner."@,
            (Some(_), None) => r matches Err(e) && e is NotFound,
            (Some(_), Some(row)) => r matches Ok(p) && spec_removal(p, row, guild_id, user_id, target_id, user_id),
        },
{
    let owner = match guild_owner {
        None => return Err(AppError::NotFound),
        Some(o) => o,
    };
    if owner == target_id.0 {
        return Err(AppError::Forbidden(String::from_str("Cannot kick the serrver owner.")));
    }
    match member_row {
        None => Err(AppError::NotFound),
        Some(row) => Ok(removal(row, guild_id, user_id, target_id, user_id)),
    }
}

/// What banning involves: the ban to store (none where one already stands) and the
/// removal of the target's membership (none where they are not a member).
#[derive(Clone, Debug)]
pub struct BanPlan {
    pub new_ban: Option<GuildBanModel>,
    pub removal: Option<MemberRemoval>,
}

/// `user_id` bans `target_id` from `guild_id` (after the check that they may ban
/// members). Refused with `NotFound` for a missing guild and with `Forbidden` where
/// the target owns it. A new ban records the request's reason and end, `now`, and the
/// target as the one who banned; a standing ban is left as it is. A target who is a
/// member is removed, and the guild and the target are told.
pub fn plan_ban(
    guild_id: GuildId,
    user_id: UserId,
    target_id: UserId,
    req: BanMemberRequest,
    now: Timestamp,
    guild_owner: Option<u128>,
    ban_exists: bool,
    member_row: Option<u128>,
) -> (r: Result<BanPlan, AppError>)
    ensures
        match guild_owner {
            None => r matches Err(e) && e is NotFound,
            Some(owner) => if owner == target_id.0 {
                r matches Err(AppError::Forbidden(m)) && m@ == "Cannot ban the server owner."@
            } else {
                r matches Ok(p) && (p.new_ban is None <==> ban_exists) && (p.new_ban matches Some(b)
                    ==> b == (GuildBanModel {
                    guild_id: guild_id.0,
                    user_id: target_id.0,
                    reason: req.reason,
                    expires_at: req.expires_at,
                    banned_by: target_id.0,
                    created_at: now,
                })) && (p.removal is None <==> member_row is None) && (member_row matches Some(row)
                    ==> p.removal matches Some(m) && spec_removal(m, row, guild_id, target_id, target_id, target_id))
            },
        },
{
    let owner = match guild_owner {
        None => return Err(AppError::NotFound),
        Some(o) => o,
    };
    if owner == target_id.0 {
        return Err(AppError::Forbidden(String::from_str("Cannot ban the server owner.")));
    }
    let new_ban = if ban_exists {
        None
    } else {
        Some(
            GuildBanModel {
                guild_id: guild_id.0,
                user_id: target_id.0,
                reason: req.reason,
                expires_at: req.expires_at,
                banned_by: target_id.0,
                created_at: now,
            },
        )
    };
    let removal = match member_row {
        None => None,
        Some(row) => Some(removal(row, guild_id, target_id, target_id, target_id)),
    };
    Ok(BanPlan { new_ban, removal })
}

} // verus!
