//! The rows that the service stores, as the library reads and writes them.
use vstd::prelude::*;
use crate::clock::Timestamp;

verus! {

/// Kind of a stored channel.
#[derive(Clone, Copy, PartialEq, Eq, Structural, Debug)]
pub enum DbChannelKind {
    Text,
    Voice,
    Docs,
    Canvas,
}

/// Display mode of a stored text channel.
#[derive(Clone, Copy, PartialEq, Eq, Structural, Debug)]
pub enum DbChannelMode {
    Chat,
    Board,
    Threads,
}

/// Stored colour scheme.
#[derive(Clone, Copy, PartialEq, Eq, Structural, Debug)]
pub enum DbThemeColor {
    Default,
    Havoc,
    Void,
}

/// Stored light or dark setting.
#[derive(Clone, Copy, PartialEq, Eq, Structural, Debug)]
pub enum DbThemeDarkMode {
    System,
    Light,
    Dark,
}

/// Stored corner rounding.
#[derive(Clone, Copy, PartialEq, Eq, Structural, Debug)]
pub enum DbThemeRounding {
    Default,
    Comfortable,
    Full,
}

/// Stored spacing.
#[derive(Clone, Copy, PartialEq, Eq, Structural, Debug)]
pub enum DbThemeSpacing {
    Default,
    Comfortable,
    Compact,
}

/// Stored relationship between two users, seen from the one who started it.
#[derive(Clone, Copy, PartialEq, Eq, Structural, Debug)]
pub enum DbRelationshipStatus {
    Unrelated,
    Friend,
    Blocked,
    PendingIncoming,
    PendingOutgoing,
}

/// Stored kind of a preset icon.
#[derive(Clone, Copy, PartialEq, Eq, Structural, Debug)]
pub enum DbPresenceIcon {
    Emoji,
    App,
    CustomUpload,
}

/// Stored kind of a preset timer.
#[derive(Clone, Copy, PartialEq, Eq, Structural, Debug)]
pub enum DbPresenceTimer {
    Elapsed,
    Countdown,
    Off,
}

/// Stored kind of a preset.
#[derive(Clone, Copy, PartialEq, Eq, Structural, Debug)]
pub enum DbPresenceKind {
    AppLinked,
    Fixed,
}

/// A stored channel category.
#[derive(Clone, Debug)]
pub struct CategoryModel {
    pub id: u128,
    pub guild_id: u128,
    pub name: String,
    pub position: i32,
}

/// A stored guild channel.
#[derive(Clone, Debug)]
pub struct ChannelModel {
    pub id: u128,
    pub guild_id: u128,
    pub name: String,
    pub position: i32,
    pub category_id: Option<u128>,
    pub kind: DbChannelKind,
    pub mode: Option<DbChannelMode>,
    pub bitrate: Option<i32>,
    pub user_limit: Option<i32>,
}

/// A stored role.
#[derive(Clone, Debug)]
pub struct RoleModel {
    pub id: u128,
    pub guild_id: u128,
    pub name: String,
    pub permissions: i64,
    pub color: Option<i32>,
    pub hoist: bool,
    pub position: i32,
}

/// A stored user profile.
#[derive(Clone, Debug)]
pub struct UserModel {
    pub id: u128,
    pub username: String,
    pub display_name: Option<String>,
    pub avatar_url: Option<String>,
    pub banner_url: Option<String>,
    pub bio: Option<String>,
    pub profile_color: Option<i32>,
    pub created_at: Timestamp,
    pub updated_at: Timestamp,
}

/// A stored user account: how the user logs in.
#[derive(Clone, Debug)]
pub struct UserAccountModel {
    pub user_id: u128,
    pub email: String,
    pub password_hash: String,
    pub verified: bool,
    pub two_factor_enabled: bool,
    pub two_factor_secret: Option<String>,
    pub recovery_keys: Vec<String>,
    pub created_at: Timestamp,
    pub updated_at: Timestamp,
}

/// Stored interface settings of a user.
#[derive(Clone, Copy, Debug)]
pub struct UserSettingsModel {
    pub user_id: u128,
    pub theme_dark_mode: DbThemeDarkMode,
    pub theme_color: DbThemeColor,
    pub theme_rounding: DbThemeRounding,
    pub theme_spacing: DbThemeSpacing,
    pub notification_active: bool,
}

/// A stored presence preset.
#[derive(Clone, Debug)]
pub struct PresencePresetModel {
    pub id: u128,
    pub label: String,
    pub icon_kind: DbPresenceIcon,
    pub icon_value: Option<String>,
    pub timer_kind: DbPresenceTimer,
    pub timer_seconds: Option<i64>,
    pub preset_kind: DbPresenceKind,
    pub process_name: Option<String>,
}

/// A stored relationship from `user_id` to `target_id`.
#[derive(Clone, Copy, Debug)]
pub struct RelationshipModel {
    pub user_id: u128,
    pub target_id: u128,
    pub status: DbRelationshipStatus,
    pub since: Timestamp,
}

/// A stored guild.
#[derive(Clone, Debug)]
pub struct GuildModel {
    pub id: u128,
    pub owner_id: u128,
    pub name: String,
    pub default_channel_id: Option<u128>,
    pub banner_url: Option<String>,
    pub icon_url: Option<String>,
}

/// A stored membership of a user in a guild.
#[derive(Clone, Debug)]
pub struct GuildMemberModel {
    pub id: u128,
    pub guild_id: u128,
    pub user_id: u128,
    pub joined_at: Timestamp,
    pub identity_show_global_username: bool,
    pub identity_display_name: Option<String>,
    pub identity_avatar: Option<String>,
    pub identity_banner: Option<String>,
    pub identity_bio: Option<String>,
}

/// A stored grant of a role to a membership.
#[derive(Clone, Copy, Debug)]
pub struct GuildMemberRoleModel {
    pub role_id: u128,
    pub guild_member_id: u128,
}

/// A stored ban of a user from a guild.
#[derive(Clone, Debug)]
pub struct GuildBanModel {
    pub guild_id: u128,
    pub user_id: u128,
    pub reason: Option<String>,
    pub expires_at: Option<Timestamp>,
    pub banned_by: u128,
    pub created_at: Timestamp,
}

/// A stored invite to a guild.
#[derive(Clone, Copy, Debug)]
pub struct InviteModel {
    pub invite_code: u128,
    pub guild_id: u128,
    pub creator_id: u128,
    pub max_uses: i32,
    pub uses: i32,
    pub requires_approval: bool,
    pub expires_at: Option<Timestamp>,
    pub created_at: Timestamp,
}

/// A stored direct-message channel.
#[derive(Clone, Copy, Debug)]
pub struct DmChannelModel {
    pub id: u128,
    pub created_at: Timestamp,
}

/// A stored membership of a user in a direct-message channel.
#[derive(Clone, Copy, Debug)]
pub struct DmChannelMemberModel {
    pub channel_id: u128,
    pub user_id: u128,
    pub is_open: bool,
    pub joined_at: Timestamp,
}

} // verus!
