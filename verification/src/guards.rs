//! Checks that a request's user may do what they ask in a guild, and the view of
//! their membership that such a check yields.
use vstd::prelude::*;
use vstd::string::*;
use crate::clock::spec_rfc3339;
use crate::data::{spec_offline, offline_presence, GuildIdentity, GuildMember, UserProfile, UserPublic};
use crate::error::AppError;
use crate::ids::{GuildId, RoleId, UserId};
use crate::mappers::{spec_profile_matches, text_or_empty, FromDomain};
use crate::models::{GuildMemberModel, UserModel};
use crate::permissions::{spec_base_permissions, spec_contains, Permissions};

verus! {

/// The membership and profile that a guild lookup found: a user who is not a member
/// is refused with `Forbidden`, a member whose user record is gone is `NotFound`.
pub fn require_member_user(found: Option<(GuildMemberModel, Option<UserModel>)>) -> (r: Result<
    (GuildMemberModel, UserModel),
    AppError,
>)
    ensures
        match found {
            None => r matches Err(AppError::Forbidden(m)) && m@ == "Not a member of this server"@,
            Some((member, None)) => r matches Err(e) && e is NotFound,
            Some((member, Some(user))) => r matches Ok((m2, u2)) && m2 == member && u2 == user,
        },
{
    match found {
        None => Err(AppError::Forbidden(String::from_str("Not a member of this server"))),
        Some((member, user)) => match user {
            None => Err(AppError::NotFound),
            Some(u) => Ok((member, u)),
        },
    }
}

/// The permissions granted by the roles that a membership holds, in order; a link
/// whose role is gone grants nothing.
pub open spec fn spec_granted(roles: Seq<(u128, Option<i64>)>) -> Seq<i64>
    decreases roles.len(),
{
    if roles.len() == 0 {
        Seq::empty()
    } else {
        let prev = spec_granted(roles.drop_last());
        match roles.last().1 {
            Some(p) => prev.push(p),
            None => prev,
        }
    }
}

/// A member shows a guild identity where they set a display name, avatar or bio
/// for the guild.
pub open spec fn spec_has_identity(m: GuildMemberModel) -> bool {
    m.identity_display_name is Some || m.identity_avatar is Some || m.identity_bio is Some
}

/// The member view: the guild and user of the request, every role the membership
/// links to (also one whose role is gone), the joining time, the guild identity where
/// the member set one (an unset display name reads as empty), the user's profile, and
/// an offline presence.
pub open spec fn spec_member_view(
    v: GuildMember,
    guild_id: GuildId,
    user_id: UserId,
    member: GuildMemberModel,
    user: UserModel,
    roles: Seq<(u128, Option<i64>)>,
) -> bool {
    &&& v.guild_id == guild_id
    &&& v.user_id == user_id
    &&& v.roles@.len() == roles.len()
    &&& forall|i: int| 0 <= i < roles.len() ==> #[trigger] v.roles@[i] == RoleId(roles[i].0)
    &&& v.joined_at@ == spec_rfc3339(member.joined_at.spec_secs(), member.joined_at.spec_nanos())
    &&& (v.identity is Some <==> spec_has_identity(member))
    &&& (v.identity matches Some(id) ==> id.display_name@ == text_or_empty(
        member.identity_display_name,
    ) && id.avatar_url == member.identity_avatar && id.bio == member.identity_bio
        && id.show_global_username == member.identity_show_global_username)
    &&& v.data.id == user_id
    &&& spec_profile_matches(v.data.profile, user)
    &&& v.data.presence == spec_offline()
}

/// The member view of `user_id` in `guild_id`, provided the roles that the membership
/// links to (each with the permissions of the role, where it still exists) hold
/// `permission`; otherwise the request is refused with `Forbidden`.
pub fn member_with_permission(
    guild_id: GuildId,
    user_id: UserId,
    member: GuildMemberModel,
    user: UserModel,
    member_roles: &Vec<(u128, Option<i64>)>,
    permission: Permissions,
) -> (r: Result<GuildMember, AppError>)
    ensures
        r is Ok <==> spec_contains(spec_base_permissions(spec_granted(member_roles@)), permission.0),
        r matches Ok(v) ==> spec_member_view(v, guild_id, user_id, member, user, member_roles@),
        r matches Err(e) ==> e matches AppError::Forbidden(m) && m@ == "Insufficient permissions"@,
{
    let mut role_ids: Vec<RoleId> = Vec::new();
    let mut role_permissions: Vec<i64> = Vec::new();
    let mut i: usize = 0;
    while i < member_roles.len()
        invariant
            i <= member_roles.len(),
            role_ids@.len() == i,
            forall|j: int| 0 <= j < i ==> #[trigger] role_ids@[j] == RoleId(member_roles@[j].0),
            role_permissions@ == spec_granted(member_roles@.take(i as int)),
        decreases member_roles.len() - i,
    {
        assert(member_roles@.take(i + 1).drop_last() =~= member_roles@.take(i as int));
        let (role_id, perms) = member_roles[i];
        role_ids.push(RoleId(role_id));
        match perms {
            Some(p) => role_permissions.push(p),
            None => {},
        }
        i = i + 1;
    }
    assert(member_roles@.take(i as int) =~= member_roles@);
    if !Permissions::compute_base_permissions(&role_permissions).contains(permission) {
        return Err(AppError::Forbidden(String::from_str("Insufficient permissions")));
    }
    let has_custom_identity = member.identity_display_name.is_some()
        || member.identity_avatar.is_some() || member.identity_bio.is_some();
    let joined_at = member.joined_at.to_rfc3339();
    let identity = if has_custom_identity {
        Some(
            GuildIdentity {
                display_name: match member.identity_display_name {
                    Some(n) => n,
                    None => String::new(),
                },
                avatar_url: member.identity_avatar,
                bio: member.identity_bio,
                show_global_username: member.identity_show_global_username,
            },
        )
    } else {
        None
    };
    Ok(
        GuildMember {
            guild_id,
            user_id,
            roles: role_ids,
            joined_at,
            identity,
            data: UserPublic {
                id: user_id,
                profile: UserProfile::from_domain(user),
                presence: offline_presence(),
            },
        },
    )
}

} // verus!
