//! Creating and deleting guilds and inviting people to them.
use vstd::prelude::*;
use vstd::string::*;
use crate::channels::{plan_channel_creation, CreateChannelKind, CreateChannelRequest};
use crate::clock::{spec_rfc3339, Timestamp};
use crate::data::{
    Channel, Guild, GuildMember, GuildProfile, Role, Status, UserPresence, UserProfile, UserPublic,
};
use crate::error::AppError;
use crate::events::{Audience, Delivery, ServerEvent};
use crate::ids::{ChannelId, GuildId, RoleId, UserId};
use crate::mappers::{spec_channel_matches, spec_profile_matches, FromDomain, DEFAULT_BITRATE};
use crate::uuids::{new_v4, uuid_version};
use crate::models::{
    ChannelModel, DbChannelKind, DbChannelMode, GuildMemberModel, GuildMemberRoleModel, GuildModel, InviteModel,
    RoleModel, UserModel,
};

verus! {

/// A request to create a guild.
#[derive(Clone, Debug)]
pub struct CreateGuildRequest {
    pub name: String,
}

/// A request to create an invite; unset fields mean unlimited uses, no approval and
/// no end.
#[derive(Clone, Copy, Debug)]
pub struct CreateInviteRequest {
    pub max_uses: Option<i32>,
    pub requires_approval: Option<bool>,
    pub expires_at: Option<Timestamp>,
}

/// The fresh ids that a new guild needs.
#[derive(Clone, Copy, Debug)]
pub struct GuildCreationIds {
    pub guild: u128,
    pub text_channel: u128,
    pub voice_channel: u128,
    pub everyone_role: u128,
    pub member: u128,
}

impl GuildCreationIds {
    /// Fresh random ids for a new guild.
    pub fn fresh() -> (r: GuildCreationIds)
        ensures
            uuid_version(r.guild) == 4 && uuid_version(r.text_channel) == 4 && uuid_version(r.voice_channel)
                == 4 && uuid_version(r.everyone_role) == 4 && uuid_version(r.member) == 4,
    {
        let guild = new_v4();
        let text_channel = new_v4();
        let voice_channel = new_v4();
        let everyone_role = new_v4();
        let member = new_v4();
        GuildCreationIds { guild, text_channel, voice_channel, everyone_role, member }
    }
}

/// Everything that creating a guild stores, and the guild to answer with. The guild
/// row is stored first without a default channel, which is then set to
/// `default_channel_id`.
#[derive(Clone, Debug)]
pub struct GuildCreation {
    pub guild_row: GuildModel,
    pub member_row: GuildMemberModel,
    pub role_row: RoleModel,
    pub member_role_row: GuildMemberRoleModel,
    pub text_channel_row: ChannelModel,
    pub voice_channel_row: ChannelModel,
    pub default_channel_id: u128,
    pub guild: Guild,
}

/// The stored side of a new guild: the owner's membership (no guild identity), the
/// `@everyone` role with no permission at position 0 linked to it, a text channel
/// `general` at position 0 and a voice channel `General` at position 1, neither in a
/// category; the default channel is the text channel.
pub open spec fn spec_creation_rows(c: GuildCreation, user_id: UserId, name: String, ids: GuildCreationIds, now: Timestamp) -> bool {
    &&& c.guild_row == (GuildModel {
        id: ids.guild,
        owner_id: user_id.0,
        name,
        default_channel_id: None,
        banner_url: None,
        icon_url: None,
    })
    &&& c.member_row == (GuildMemberModel {
        id: ids.member,
        guild_id: ids.guild,
        user_id: user_id.0,
        joined_at: now,
        identity_show_global_username: false,
        identity_display_name: None,
        identity_avatar: None,
        identity_banner: None,
        identity_bio: None,
    })
    &&& c.role_row.id == ids.everyone_role && c.role_row.guild_id == ids.guild && c.role_row.name@
        == "@everyone"@ && c.role_row.permissions == 0 && c.role_row.color is None
        && !c.role_row.hoist && c.role_row.position == 0
    &&& c.member_role_row == (GuildMemberRoleModel { role_id: ids.everyone_role, guild_member_id: ids.member })
    &&& c.text_channel_row.id == ids.text_channel && c.text_channel_row.guild_id == ids.guild
        && c.text_channel_row.name@ == "general"@ && c.text_channel_row.position == 0
        && c.text_channel_row.category_id is None && c.text_channel_row.kind == DbChannelKind::Text
        && c.text_channel_row.mode == Some(DbChannelMode::Chat) && c.text_channel_row.bitrate is None
        && c.text_channel_row.user_limit is None
    &&& c.voice_channel_row.id == ids.voice_channel && c.voice_channel_row.guild_id == ids.guild
        && c.voice_channel_row.name@ == "General"@ && c.voice_channel_row.position == 1
        && c.voice_channel_row.category_id is None && c.voice_channel_row.kind == DbChannelKind::Voice
        && c.voice_channel_row.mode is None && c.voice_channel_row.bitrate == Some(DEFAULT_BITRATE)
        && c.voice_channel_row.user_limit is None
    &&& c.default_channel_id == ids.text_channel
}

/// The answered side of a new guild: it shows the owner, the name, the default
/// channel, the `@everyone` role, no category, the owner as its one member (holding
/// that role, online, with their profile) and the two channels exactly as their
/// stored rows read back.
pub open spec fn spec_creation_view(c: GuildCreation, user_id: UserId, owner: UserModel, name: String, ids: GuildCreationIds, now: Timestamp) -> bool {
    let g = c.guild;
    &&& g.id == GuildId(ids.guild)
    &&& g.profile.owner_id == user_id && g.profile.name == name && g.profile.banner_url is None
        && g.profile.icon_url is None && g.profile.default_channel_id == Some(ChannelId(ids.text_channel))
    &&& g.roles@.len() == 1 && g.roles@[0].id == RoleId(ids.everyone_role) && g.roles@[0].name@
        == "@everyone"@ && g.roles@[0].permissions == 0 && g.roles@[0].color is None
        && !g.roles@[0].hoist && g.roles@[0].position == 0
    &&& g.categories@.len() == 0
    &&& g.members@.len() == 1
    &&& g.members@[0].guild_id == GuildId(ids.guild) && g.members@[0].user_id == user_id
        && g.members@[0].roles@ == seq![RoleId(ids.everyone_role)] && g.members@[0].joined_at@
        == spec_rfc3339(now.spec_secs(), now.spec_nanos()) && g.members@[0].identity is None
        && g.members@[0].data.id == user_id && spec_profile_matches(g.members@[0].data.profile, owner)
        && g.members@[0].data.presence.status == Status::Online
        && g.members@[0].data.presence.preset is None
    &&& g.channels@.len() == 2
    &&& spec_channel_matches(g.channels@[0], c.text_channel_row)
    &&& spec_channel_matches(g.channels@[1], c.voice_channel_row)
}

/// Everything that creating a guild named `name` for `user_id`, whose profile is
/// `owner`, stores and answers, with the fresh `ids` and the time `now`.
pub fn plan_guild_creation(
    user_id: UserId,
    owner: UserModel,
    name: String,
    ids: GuildCreationIds,
    now: Timestamp,
) -> (r: GuildCreation)
    ensures
        spec_creation_rows(r, user_id, name, ids, now),
        spec_creation_view(r, user_id, owner, name, ids, now),
{
    let guild_id = GuildId(ids.guild);
    let guild_row = GuildModel {
        id: ids.guild,
        owner_id: user_id.0,
        name: name.clone(),
        default_channel_id: None,
        banner_url: None,
        icon_url: None,
    };
    let member_row = GuildMemberModel {
        id: ids.member,
        guild_id: ids.guild,
        user_id: user_id.0,
        joined_at: now,
        identity_show_global_username: false,
        identity_display_name: None,
        identity_avatar: None,
        identity_banner: None,
        identity_bio: None,
    };
    let role_row = RoleModel {
        id: ids.everyone_role,
        guild_id: ids.guild,
        name: String::from_str("@everyone"),
        permissions: 0,
        color: None,
        hoist: false,
        position: 0,
    };
    let member_role_row = GuildMemberRoleModel { role_id: ids.everyone_role, guild_member_id: ids.member };
    let (text_channel_row, text_view) = plan_channel_creation(
        ids.text_channel,
        guild_id,
        CreateChannelRequest {
            name: String::from_str("general"),
            kind: CreateChannelKind::Text,
            category_id: None,
        },
        0,
    );
    let (voice_channel_row, voice_view) = plan_channel_creation(
        ids.voice_channel,
        guild_id,
        CreateChannelRequest {
            name: String::from_str("General"),
            kind: CreateChannelKind::Voice,
            category_id: None,
        },
        1,
    );
    let everyone = Role {
        id: RoleId(ids.everyone_role),
        name: String::from_str("@everyone"),
        color: None,
        hoist: false,
        position: 0,
        permissions: 0,
    };
    let mut roles: Vec<Role> = Vec::new();
    roles.push(everyone);
    let mut member_roles: Vec<RoleId> = Vec::new();
    member_roles.push(RoleId(ids.everyone_role));
    let member = GuildMember {
        guild_id,
        user_id,
        roles: member_roles,
        joined_at: now.to_rfc3339(),
        data: UserPublic {
            id: user_id,
            profile: UserProfile::from_domain(owner),
            presence: UserPresence { status: Status::Online, preset: None },
        },
        identity: None,
    };
    let mut members: Vec<GuildMember> = Vec::new();
    members.push(member);
    let mut channels: Vec<Channel> = Vec::new();
    channels.push(text_view);
    channels.push(voice_view);
    let guild = Guild {
        id: guild_id,
        profile: GuildProfile {
            owner_id: user_id,
            banner_url: None,
            icon_url: None,
            name,
            default_channel_id: Some(ChannelId(ids.text_channel)),
        },
        roles,
        categories: Vec::new(),
        members,
        channels,
    };
    assert(guild.members@[0].roles@ =~= seq![RoleId(ids.everyone_role)]);
    GuildCreation {
        guild_row,
        member_row,
        role_row,
        member_role_row,
        text_channel_row,
        voice_channel_row,
        default_channel_id: ids.text_channel,
        guild,
    }
}

/// What deleting a guild involves: telling its members, and purging the messages of
/// each of its channels afterwards.
#[derive(Clone, Debug)]
pub struct GuildDeletion {
    pub deliveries: Vec<Delivery>,
    pub purge_channels: Vec<u128>,
}

/// `user_id` deletes `guild_id`, whose owner is `guild_owner` (`None` where there is
/// no such guild) and whose channels are `channel_ids`. Refused with `NotFound` for
/// a missing guild and with `Forbidden` for anyone but the owner.
pub fn plan_guild_deletion(
    guild_id: GuildId,
    user_id: UserId,
    guild_owner: Option<u128>,
    channel_ids: Vec<u128>,
) -> (r: Result<GuildDeletion, AppError>)
    ensures
        match guild_owner {
            None => r matches Err(e) && e is NotFound,
            Some(owner) => if owner != user_id.0 {
                r matches Err(AppError::Forbidden(m)) && m@ == "Only the guild owner can delete this guild"@
            } else {
                r matches Ok(d) && d.purge_channels@ == channel_ids@ && d.deliveries@.len() == 1
                    && d.deliveries@[0].audience == Audience::Guild(guild_id)
                    && d.deliveries@[0].event == (ServerEvent::GuildDeleted { guild_id })
            },
        },
{
    let owner = match guild_owner {
        None => return Err(AppError::NotFound),
        Some(o) => o,
    };
    if owner != user_id.0 {
        return Err(AppError::Forbidden(String::from_str("Only the guild owner can delete this guild")));
    }
    let mut deliveries: Vec<Delivery> = Vec::new();
    deliveries.push(Delivery { audience: Audience::Guild(guild_id), event: ServerEvent::GuildDeleted { guild_id } });
    Ok(GuildDeletion { deliveries, purge_channels: channel_ids })
}

/// The invite `code` to `guild_id` made by `user_id` at `now`: unused, with the
/// request's limit (0, unlimited, where unset), approval (none where unset) and end.
pub fn plan_invite(code: u128, guild_id: GuildId, user_id: UserId, req: CreateInviteRequest, now: Timestamp) -> (r:
    InviteModel)
    ensures
        r == (InviteModel {
            invite_code: code,
            guild_id: guild_id.0,
            creator_id: user_id.0,
            max_uses: match req.max_uses {
                Some(m) => m,
                None => 0,
            },
            uses: 0,
            requires_approval: match req.requires_approval {
                Some(a) => a,
                None => false,
            },
            expires_at: req.expires_at,
            created_at: now,
        }),
{
    InviteModel {
        invite_code: code,
        guild_id: guild_id.0,
        creator_id: user_id.0,
        max_uses: match req.max_uses {
            Some(m) => m,
            None => 0,
        },
        uses: 0,
        requires_approval: match req.requires_approval {
            Some(a) => a,
            None => false,
        },
        expires_at: req.expires_at,
        created_at: now,
    }
}

} // verus!
