use api::accounts::{decide_login, plan_registration, plan_session, plan_ticket, AccountData, ProfileData, RegisterRequest};
use api::cache::{friend_ids, friendship_entries, member_entry, parse_cached_ids, plan_friends_cache, plan_members_cache};
use api::channels::{
    apply_category_update, apply_channel_update, check_category_guild, check_channel_guild, next_position,
    plan_category_creation, plan_channel_creation, CreateCategoryRequest, CreateChannelKind, CreateChannelRequest,
    FieldChange, UpdateCategoryRequest, UpdateChannelRequest,
};
use api::clock::Timestamp;
use api::crypto::{hash_password, verify_password};
use api::data::{Channel, ChannelMode, PresenceTimer, RelationshipStatus, Status, UserPresence};
use api::dms::{dm_view, get_open_dms, plan_dm, DmPlan};
use api::error::AppError;
use api::events::{Audience, ServerEvent};
use api::guards::{member_with_permission, require_member_user};
use api::guild_members::{plan_ban, plan_kick, plan_leave, BanMemberRequest};
use api::guilds::{plan_guild_creation, plan_guild_deletion, plan_invite, CreateInviteRequest, GuildCreationIds};
use api::ids::{CategoryId, ChannelId, GuildId, UserId};
use api::mappers::FromDomain;
use api::models::{
    CategoryModel, ChannelModel, DbChannelKind, DbChannelMode, DbPresenceTimer, DbRelationshipStatus,
    DmChannelMemberModel, GuildMemberModel, RelationshipModel, UserAccountModel, UserModel,
};
use api::permissions::{
    apply_overrides, channel_permissions, decide_channel_permission, decide_guild_permission, require_membership,
    OverrideTarget, PermissionOverride, Permissions, ADMINISTRATOR, BAN_MEMBERS, KICK_MEMBERS, MANAGE_CHANNELS,
};
use api::presence::{get_bulk, presence_or_offline};
use api::rooms::VoiceRooms;
use std::collections::HashMap;

fn uuid_text(v: u128) -> String {
    uuid::Uuid::from_u128(v).to_string()
}

fn ts(secs: i64) -> Timestamp {
    Timestamp::new(secs, 0).unwrap()
}

fn user(id: u128, name: &str) -> UserModel {
    UserModel {
        id,
        username: name.to_string(),
        display_name: Some(format!("{} shown", name)),
        avatar_url: None,
        banner_url: None,
        bio: Some("bio".to_string()),
        profile_color: Some(5),
        created_at: ts(0),
        updated_at: ts(0),
    }
}

fn chan(kind: DbChannelKind, mode: Option<DbChannelMode>, bitrate: Option<i32>) -> ChannelModel {
    ChannelModel {
        id: 11,
        guild_id: 22,
        name: "c".to_string(),
        position: 3,
        category_id: Some(33),
        kind,
        mode,
        bitrate,
        user_limit: None,
    }
}

fn ov(target: OverrideTarget, allow: i64, deny: i64) -> PermissionOverride {
    PermissionOverride { target, allow, deny }
}

#[test]
fn base_permissions_are_the_union_of_roles() {
    assert_eq!(Permissions::compute_base_permissions(&vec![1, 4]).0, 5);
    assert_eq!(Permissions::compute_base_permissions(&vec![]).0, 0);
    assert!(Permissions(7).contains(Permissions(5)));
    assert!(!Permissions(5).contains(Permissions(2)));
    assert_eq!(Permissions(0b1111).apply_override(0b10000, 0b0011).0, 0b11100);
}

#[test]
fn override_allow_wins_over_deny() {
    assert!(Permissions(0).apply_override(4, 4).contains(Permissions(4)));
}

#[test]
fn overrides_apply_in_layers() {
    let cat = vec![ov(OverrideTarget::Member, 0, MANAGE_CHANNELS), ov(OverrideTarget::Role, MANAGE_CHANNELS, 0)];
    // The member override on the category comes after the role override on it.
    assert_eq!(channel_permissions(&vec![0], &cat, &vec![]).0, 0);
    let chan_ovs = vec![ov(OverrideTarget::Role, MANAGE_CHANNELS, 0)];
    assert_eq!(channel_permissions(&vec![0], &cat, &chan_ovs).0, MANAGE_CHANNELS);
    assert_eq!(apply_overrides(Permissions(1), &vec![ov(OverrideTarget::Role, 2, 1)], OverrideTarget::Member).0, 1);
}

#[test]
fn channel_permission_decisions() {
    let needed = Permissions(MANAGE_CHANNELS);
    assert!(decide_channel_permission(&vec![MANAGE_CHANNELS], &vec![], &vec![], needed).is_ok());
    let deny = vec![ov(OverrideTarget::Member, 0, MANAGE_CHANNELS)];
    match decide_channel_permission(&vec![MANAGE_CHANNELS], &vec![], &deny, needed) {
        Err(AppError::Forbidden(m)) => assert_eq!(m, "Insufficient permissions in this channel"),
        _ => panic!("expected forbidden"),
    }
    // An administrator passes whatever the overrides say.
    assert!(decide_channel_permission(&vec![ADMINISTRATOR], &vec![], &deny, needed).is_ok());
    let allow = vec![ov(OverrideTarget::Member, MANAGE_CHANNELS, 0)];
    assert!(decide_channel_permission(&vec![0], &vec![], &allow, needed).is_ok());
}

#[test]
fn guild_permission_and_membership() {
    assert!(decide_guild_permission(&vec![KICK_MEMBERS, BAN_MEMBERS], Permissions(BAN_MEMBERS)).is_ok());
    match decide_guild_permission(&vec![KICK_MEMBERS], Permissions(BAN_MEMBERS)) {
        Err(AppError::Forbidden(m)) => assert_eq!(m, "Insufficient permissions"),
        _ => panic!("expected forbidden"),
    }
    assert_eq!(require_membership(Some(9)).unwrap(), 9);
    match require_membership(None) {
        Err(AppError::Forbidden(m)) => assert_eq!(m, "Not a member of this server"),
        _ => panic!("expected forbidden"),
    }
}

fn member_row(display: Option<&str>) -> GuildMemberModel {
    GuildMemberModel {
        id: 1,
        guild_id: 22,
        user_id: 5,
        joined_at: ts(0),
        identity_show_global_username: true,
        identity_display_name: display.map(|s| s.to_string()),
        identity_avatar: None,
        identity_banner: None,
        identity_bio: None,
    }
}

#[test]
fn member_view_with_permission() {
    let roles = vec![(100, Some(MANAGE_CHANNELS)), (101, None)];
    let v = member_with_permission(GuildId(22), UserId(5), member_row(Some("nick")), user(5, "ana"), &roles, Permissions(MANAGE_CHANNELS)).ok().unwrap();
    assert_eq!(v.roles.len(), 2);
    assert_eq!(v.roles[1].0, 101);
    assert_eq!(v.joined_at, "1970-01-01T00:00:00+00:00");
    let id = v.identity.unwrap();
    assert_eq!(id.display_name, "nick");
    assert!(id.show_global_username);
    assert_eq!(v.data.profile.username, "ana");
    assert_eq!(v.data.presence.status, Status::Offline);
    let v = member_with_permission(GuildId(22), UserId(5), member_row(None), user(5, "ana"), &roles, Permissions(0)).ok().unwrap();
    assert!(v.identity.is_none());
    assert!(member_with_permission(GuildId(22), UserId(5), member_row(None), user(5, "ana"), &roles, Permissions(BAN_MEMBERS)).is_err());
}

#[test]
fn member_lookup_outcomes() {
    assert!(matches!(require_member_user(None), Err(AppError::Forbidden(_))));
    assert!(matches!(require_member_user(Some((member_row(None), None))), Err(AppError::NotFound)));
    assert!(require_member_user(Some((member_row(None), Some(user(5, "a"))))).is_ok());
}

#[test]
fn channel_defaults_when_read_back() {
    match Channel::from_domain(chan(DbChannelKind::Voice, None, None)) {
        Channel::Voice(v) => {
            assert_eq!(v.bitrate, 64000);
            assert_eq!(v.category_id, Some(CategoryId(33)));
            assert!(v.participants.is_empty());
        },
        _ => panic!("expected voice"),
    }
    match Channel::from_domain(chan(DbChannelKind::Text, None, None)) {
        Channel::Text(t) => assert_eq!(t.mode, ChannelMode::Chat),
        _ => panic!("expected text"),
    }
    match Channel::from_domain(chan(DbChannelKind::Text, Some(DbChannelMode::Threads), None)) {
        Channel::Text(t) => assert_eq!(t.mode, ChannelMode::Threads),
        _ => panic!("expected text"),
    }
    assert!(matches!(Channel::from_domain(chan(DbChannelKind::Docs, None, None)), Channel::Docs(_)));
}

#[test]
fn countdown_without_length_counts_from_zero() {
    assert_eq!(PresenceTimer::from_domain((DbPresenceTimer::Countdown, None)), PresenceTimer::Countdown { seconds: 0 });
    assert_eq!(PresenceTimer::from_domain((DbPresenceTimer::Countdown, Some(-1))), PresenceTimer::Countdown { seconds: u64::MAX });
    assert_eq!(PresenceTimer::from_domain((DbPresenceTimer::Off, Some(5))), PresenceTimer::Off);
}

#[test]
fn pending_requests_point_the_other_way_for_the_target() {
    let rel = RelationshipModel { user_id: 1, target_id: 2, status: DbRelationshipStatus::PendingOutgoing, since: ts(0) };
    let seen_by_target = api::data::UserRelationship::from_domain((rel, user(1, "a"), 2));
    assert_eq!(seen_by_target.status, RelationshipStatus::PendingIncoming);
    let seen_by_sender = api::data::UserRelationship::from_domain((rel, user(2, "b"), 1));
    assert_eq!(seen_by_sender.status, RelationshipStatus::PendingOutgoing);
    assert_eq!(seen_by_sender.since, "1970-01-01T00:00:00+00:00");
    let friends = RelationshipModel { status: DbRelationshipStatus::Friend, ..rel };
    assert_eq!(api::data::UserRelationship::from_domain((friends, user(1, "a"), 2)).status, RelationshipStatus::Friend);
}

#[test]
fn positions_follow_the_highest() {
    assert_eq!(next_position(None), 0);
    assert_eq!(next_position(Some(4)), 5);
    assert_eq!(next_position(Some(-1)), 0);
}

#[test]
fn created_voice_channel_reads_back_the_same() {
    let (row, view) = plan_channel_creation(7, GuildId(22), CreateChannelRequest { name: "v".to_string(), kind: CreateChannelKind::Voice, category_id: None }, 2);
    assert_eq!((row.kind, row.mode, row.bitrate, row.position), (DbChannelKind::Voice, None, Some(64000), 2));
    match (view, Channel::from_domain(row)) {
        (Channel::Voice(a), Channel::Voice(b)) => {
            assert_eq!((a.id, a.bitrate, a.position, a.name), (b.id, b.bitrate, b.position, b.name));
        },
        _ => panic!("expected voice channels"),
    }
    let (row, _) = plan_channel_creation(8, GuildId(22), CreateChannelRequest { name: "t".to_string(), kind: CreateChannelKind::Text, category_id: Some(CategoryId(3)) }, 0);
    assert_eq!((row.mode, row.category_id), (Some(DbChannelMode::Chat), Some(3)));
}

fn empty_update() -> UpdateChannelRequest {
    UpdateChannelRequest { name: None, position: None, category_id: None, mode: None, bitrate: None, user_limit: None }
}

#[test]
fn channel_updates_apply_by_kind() {
    let req = UpdateChannelRequest { mode: Some(ChannelMode::Board), bitrate: Some(96000), ..empty_update() };
    let (row, changed) = apply_channel_update(chan(DbChannelKind::Text, None, None), req.clone());
    assert!(changed);
    assert_eq!((row.mode, row.bitrate), (Some(DbChannelMode::Board), None));
    let (row, changed) = apply_channel_update(chan(DbChannelKind::Docs, None, None), req.clone());
    assert!(!changed);
    assert_eq!((row.mode, row.bitrate), (None, None));
    let (row, changed) = apply_channel_update(chan(DbChannelKind::Voice, None, None), req.clone());
    assert!(changed);
    assert_eq!(row.bitrate, Some(96000));
    let (again, _) = apply_channel_update(row.clone(), req);
    assert_eq!(again.bitrate, row.bitrate);
    let req = UpdateChannelRequest { category_id: Some(None), name: Some("n".to_string()), ..empty_update() };
    let (row, _) = apply_channel_update(chan(DbChannelKind::Docs, None, None), req);
    assert_eq!((row.category_id, row.name.as_str()), (None, "n"));
}

#[test]
fn channels_and_categories_belong_to_their_guild() {
    assert!(check_channel_guild(22, GuildId(22)).is_ok());
    match check_channel_guild(21, GuildId(22)) {
        Err(AppError::Forbidden(m)) => assert_eq!(m, "Channel does not belong to this guild"),
        _ => panic!("expected forbidden"),
    }
    match check_category_guild(21, GuildId(22)) {
        Err(AppError::Forbidden(m)) => assert_eq!(m, "Category does not belong to this guild"),
        _ => panic!("expected forbidden"),
    }
}

#[test]
fn category_create_and_update() {
    let (row, view) = plan_category_creation(4, GuildId(22), CreateCategoryRequest { name: "cat".to_string() }, 1);
    assert_eq!((row.id, row.position, view.id, view.name.as_str()), (4, 1, CategoryId(4), "cat"));
    let m = CategoryModel { id: 4, guild_id: 22, name: "old".to_string(), position: 1 };
    let (out, changes, changed) = apply_category_update(m.clone(), UpdateCategoryRequest { name: Some("new".to_string()), position: Some(9) });
    assert!(changed);
    assert_eq!((out.name.as_str(), out.position), ("new", 9));
    assert_eq!(changes.len(), 2);
    assert!(matches!(&changes[0], FieldChange::Name { old, new } if old == "old" && new == "new"));
    assert!(matches!(changes[1], FieldChange::Position { old: 1, new: 9 }));
    let (out, changes, changed) = apply_category_update(m, UpdateCategoryRequest { name: None, position: None });
    assert!(!changed && changes.is_empty());
    assert_eq!(out.name, "old");
}

#[test]
fn owners_cannot_leave_or_be_removed() {
    match plan_leave(GuildId(1), UserId(5), Some(5), Some(9)) {
        Err(AppError::BadRequest(m)) => assert_eq!(m, "Guild Owners cannot leave. Transfer ownership or delete the entire guild."),
        _ => panic!("expected bad request"),
    }
    match plan_kick(GuildId(1), UserId(6), UserId(5), Some(5), Some(9)) {
        Err(AppError::Forbidden(m)) => assert_eq!(m, "Cannot kick the serrver owner."),
        _ => panic!("expected forbidden"),
    }
    let req = BanMemberRequest { reason: None, expires_at: None };
    match plan_ban(GuildId(1), UserId(6), UserId(5), req, ts(0), Some(5), false, Some(9)) {
        Err(AppError::Forbidden(m)) => assert_eq!(m, "Cannot ban the server owner."),
        _ => panic!("expected forbidden"),
    }
}

#[test]
fn member_removals() {
    assert!(matches!(plan_leave(GuildId(1), UserId(5), None, Some(9)), Err(AppError::NotFound)));
    assert!(matches!(plan_leave(GuildId(1), UserId(5), Some(4), None), Err(AppError::NotFound)));
    let p = plan_leave(GuildId(1), UserId(5), Some(4), Some(9)).ok().unwrap();
    assert_eq!((p.member_row_id, p.uncache_user), (9, UserId(5)));
    assert_eq!(p.deliveries[0].audience, Audience::Guild(GuildId(1)));
    assert_eq!(p.deliveries[1].audience, Audience::User(UserId(5)));
    let k = plan_kick(GuildId(1), UserId(6), UserId(7), Some(4), Some(9)).ok().unwrap();
    assert_eq!(k.uncache_user, UserId(6));
    assert_eq!(k.deliveries[1].audience, Audience::User(UserId(6)));
    assert!(matches!(k.deliveries[0].event, ServerEvent::MemberLeft { user_id: UserId(7), .. }));
}

#[test]
fn bans_record_once_and_remove_members() {
    let req = BanMemberRequest { reason: Some("spam".to_string()), expires_at: None };
    let p = plan_ban(GuildId(1), UserId(6), UserId(7), req.clone(), ts(10), Some(4), false, Some(9)).ok().unwrap();
    let b = p.new_ban.unwrap();
    assert_eq!((b.user_id, b.banned_by, b.reason.as_deref()), (7, 7, Some("spam")));
    assert_eq!(p.removal.unwrap().member_row_id, 9);
    let p = plan_ban(GuildId(1), UserId(6), UserId(7), req, ts(10), Some(4), true, None).ok().unwrap();
    assert!(p.new_ban.is_none() && p.removal.is_none());
}

#[test]
fn guild_creation_layout() {
    let ids = GuildCreationIds { guild: 1, text_channel: 2, voice_channel: 3, everyone_role: 4, member: 5 };
    let c = plan_guild_creation(UserId(9), user(9, "owner"), "My guild".to_string(), ids, ts(0));
    assert_eq!(c.default_channel_id, 2);
    assert_eq!(c.guild_row.default_channel_id, None);
    assert_eq!(c.role_row.name, "@everyone");
    assert_eq!((c.text_channel_row.name.as_str(), c.voice_channel_row.bitrate), ("general", Some(64000)));
    assert_eq!(c.guild.profile.default_channel_id, Some(ChannelId(2)));
    assert_eq!(c.guild.members[0].data.presence.status, Status::Online);
    assert_eq!(c.guild.members[0].roles.len(), 1);
    assert_eq!(c.guild.channels.len(), 2);
}

#[test]
fn only_owners_delete_guilds() {
    match plan_guild_deletion(GuildId(1), UserId(2), Some(3), vec![]) {
        Err(AppError::Forbidden(m)) => assert_eq!(m, "Only the guild owner can delete this guild"),
        _ => panic!("expected forbidden"),
    }
    assert!(matches!(plan_guild_deletion(GuildId(1), UserId(2), None, vec![]), Err(AppError::NotFound)));
    let d = plan_guild_deletion(GuildId(1), UserId(3), Some(3), vec![7, 8]).ok().unwrap();
    assert_eq!(d.purge_channels, vec![7, 8]);
    assert!(matches!(d.deliveries[0].event, ServerEvent::GuildDeleted { guild_id: GuildId(1) }));
}

#[test]
fn invite_defaults() {
    let i = plan_invite(5, GuildId(1), UserId(2), CreateInviteRequest { max_uses: None, requires_approval: None, expires_at: None }, ts(0));
    assert_eq!((i.max_uses, i.uses, i.requires_approval), (0, 0, false));
    let i = plan_invite(5, GuildId(1), UserId(2), CreateInviteRequest { max_uses: Some(3), requires_approval: Some(true), expires_at: None }, ts(0));
    assert_eq!((i.max_uses, i.requires_approval), (3, true));
}

#[test]
fn password_verifies_against_its_hash() {
    let h = hash_password("hunter2").ok().unwrap();
    assert!(h.starts_with("$argon2"));
    assert_eq!(verify_password("hunter2", &h).ok(), Some(true));
    assert_eq!(verify_password("hunter3", &h).ok(), Some(false));
    assert!(matches!(verify_password("x", "not a phc string"), Err(AppError::Unauthorized)));
}

fn register_req() -> RegisterRequest {
    RegisterRequest {
        account: AccountData { email: "a@b.c".to_string(), username: "ana".to_string(), password: "pw".to_string() },
        profile: ProfileData { display_name: None, avatar_url: None, banner_url: None, bio: None },
    }
}

#[test]
fn registration_outcomes() {
    match plan_registration(register_req(), true, true, 1, ts(0)) {
        Err(AppError::BadRequest(m)) => assert_eq!(m, "Email is already in use"),
        _ => panic!("expected bad request"),
    }
    match plan_registration(register_req(), false, true, 1, ts(0)) {
        Err(AppError::Conflict(m)) => assert_eq!(m, "Username is already taken"),
        _ => panic!("expected conflict"),
    }
    let r = plan_registration(register_req(), false, false, 1, ts(0)).ok().unwrap();
    assert_eq!(r.user_row.username, "ana");
    assert!(!r.account_row.verified);
    assert!(r.settings_row.notification_active);
    assert_eq!(verify_password("pw", &r.account_row.password_hash).ok(), Some(true));
    let account = UserAccountModel { ..r.account_row };
    assert_eq!(decide_login(Some(account.clone()), "pw").ok(), Some(UserId(1)));
    assert!(matches!(decide_login(Some(account), "nope"), Err(AppError::Unauthorized)));
    assert!(matches!(decide_login(None, "pw"), Err(AppError::Unauthorized)));
}

#[test]
fn session_and_ticket_records() {
    let s = plan_session(0x550e8400e29b41d4a716446655440000, UserId(1));
    assert_eq!(s.key, "session:550e8400-e29b-41d4-a716-446655440000");
    assert_eq!(s.value, uuid_text(1));
    assert_eq!(s.ttl_seconds, 604800);
    assert_eq!(plan_ticket(2, UserId(1)).ttl_seconds, 30);
}

fn dm_member(channel_id: u128, user_id: u128, is_open: bool) -> DmChannelMemberModel {
    DmChannelMemberModel { channel_id, user_id, is_open, joined_at: ts(0) }
}

#[test]
fn dm_plans() {
    match plan_dm(UserId(1), UserId(1), true, &vec![], None, 9, ts(0)) {
        Err(AppError::BadRequest(m)) => assert_eq!(m, "You cannot create a Direct Message Channel with yourself"),
        _ => panic!("expected bad request"),
    }
    assert!(matches!(plan_dm(UserId(1), UserId(2), false, &vec![], None, 9, ts(0)), Err(AppError::NotFound)));
    let mine = vec![dm_member(7, 1, true), dm_member(8, 1, false)];
    assert!(matches!(plan_dm(UserId(1), UserId(2), true, &mine, Some(8), 9, ts(0)), Ok(DmPlan::Reuse { channel_id: 8, reopen: true })));
    assert!(matches!(plan_dm(UserId(1), UserId(2), true, &mine, Some(7), 9, ts(0)), Ok(DmPlan::Reuse { channel_id: 7, reopen: false })));
    match plan_dm(UserId(1), UserId(2), true, &mine, None, 9, ts(0)) {
        Ok(DmPlan::Create { channel, mine, theirs }) => {
            assert_eq!(channel.id, 9);
            assert!(mine.is_open && !theirs.is_open);
            assert_eq!(theirs.user_id, 2);
        },
        _ => panic!("expected a new channel"),
    }
}

#[test]
fn dm_view_announces_to_both() {
    let (dm, deliveries) = dm_view(UserId(1), UserId(2), 9, &user(2, "bo"), UserPresence { status: Status::Online, preset: None });
    assert_eq!(dm.id, ChannelId(9));
    assert_eq!(dm.recipients[0].profile.username, "bo");
    assert_eq!(deliveries[0].audience, Audience::User(UserId(1)));
    assert_eq!(deliveries[1].audience, Audience::User(UserId(2)));
}

#[test]
fn open_dms_join_members_and_presence() {
    let mine = vec![dm_member(7, 1, true), dm_member(8, 1, true), dm_member(6, 1, true)];
    let others = vec![(dm_member(8, 3, false), Some(user(3, "cy"))), (dm_member(7, 2, true), Some(user(2, "bo"))), (dm_member(6, 4, true), None)];
    let mut presences = HashMap::new();
    presences.insert(2u128, UserPresence { status: Status::Online, preset: None });
    let dms = get_open_dms(&mine, &others, &presences);
    assert_eq!(dms.len(), 2);
    assert_eq!(dms[0].id, ChannelId(7));
    assert_eq!(dms[0].recipients[0].presence.status, Status::Online);
    assert_eq!(dms[1].id, ChannelId(8));
    assert_eq!(dms[1].recipients[0].presence.status, Status::Offline);
}

#[test]
fn bulk_presence_pairs_ids_with_results() {
    let online = Some(UserPresence { status: Status::Online, preset: None });
    let m = get_bulk(&vec![1, 2, 1], &vec![online.clone(), None, None]);
    assert_eq!(m.len(), 2);
    assert_eq!(m[&1].status, Status::Offline);
    assert_eq!(m[&2].status, Status::Offline);
    let m = get_bulk(&vec![1, 2], &vec![online.clone()]);
    assert_eq!(m.len(), 1);
    assert_eq!(m[&1].status, Status::Online);
    assert_eq!(presence_or_offline(None).status, Status::Offline);
    assert_eq!(presence_or_offline(online).status, Status::Online);
}

#[test]
fn cached_ids_skip_what_is_not_a_uuid() {
    let texts = vec![uuid_text(5), "junk".to_string(), uuid_text(6)];
    assert_eq!(parse_cached_ids(&texts), vec![5, 6]);
    assert_eq!(friend_ids(UserId(1), &vec![(1, 2), (3, 1)]), vec![2, 3]);
    assert!(plan_friends_cache(UserId(1), &vec![]).is_none());
    let f = plan_friends_cache(UserId(1), &vec![2]).unwrap();
    assert_eq!((f.ttl_seconds, f.members[0].clone()), (86400, uuid_text(2)));
    assert!(plan_members_cache(GuildId(1), &vec![]).is_none());
    assert_eq!(plan_members_cache(GuildId(1), &vec![3]).unwrap().key, format!("guild_members:{}", uuid_text(1)));
    let e = friendship_entries(UserId(1), UserId(2));
    assert_eq!(e[1], (format!("user_friends:{}", uuid_text(2)), uuid_text(1)));
    assert_eq!(member_entry(GuildId(1), UserId(2)).1, uuid_text(2));
}

#[test]
fn voice_rooms_close_when_empty() {
    let mut rooms: VoiceRooms<&str> = VoiceRooms::new();
    rooms.add_user_to_room(ChannelId(1), UserId(10), "a");
    rooms.add_user_to_room(ChannelId(1), UserId(11), "b");
    rooms.add_user_to_room(ChannelId(1), UserId(12), "c");
    assert_eq!(rooms.forward_targets(&ChannelId(1), &UserId(11)), vec![10, 12]);
    assert!(rooms.has_peer(&ChannelId(1), &UserId(12)));
    rooms.remove_user_from_room(&ChannelId(1), &UserId(10));
    rooms.remove_user_from_room(&ChannelId(1), &UserId(11));
    assert!(rooms.has_room(&ChannelId(1)));
    rooms.remove_user_from_room(&ChannelId(1), &UserId(12));
    assert!(!rooms.has_room(&ChannelId(1)));
    assert!(rooms.forward_targets(&ChannelId(1), &UserId(11)).is_empty());
    rooms.get_or_create_room(ChannelId(2));
    assert!(rooms.has_room(&ChannelId(2)));
    rooms.remove_user_from_room(&ChannelId(3), &UserId(1));
    assert!(!rooms.has_room(&ChannelId(3)));
}
