//! The values that the service hands to its clients.
use vstd::prelude::*;
use crate::ids::{CategoryId, ChannelId, GuildId, PresetId, RoleId, UserId};

verus! {

/// Whether a user is connected.
#[derive(Clone, Copy, PartialEq, Eq, Structural, Debug)]
pub enum Status {
    Online,
    Offline,
}

/// The icon of a presence preset.
#[derive(Clone, Debug)]
pub enum PresenceIcon {
    Emoji { value: String },
    AppIcon { process_name: String },
    CustomUpload { path_url: Option<String> },
}

/// The timer that a presence preset shows.
#[derive(Clone, Copy, PartialEq, Eq, Structural, Debug)]
pub enum PresenceTimer {
    Elapsed,
    Countdown { seconds: u64 },
    Off,
}

/// What drives a presence preset.
#[derive(Clone, Debug)]
pub enum PresenceKind {
    AppLinked { process_name: String },
    Fixed,
}

/// A presence that a user saved.
#[derive(Clone, Debug)]
pub struct PresencePreset {
    pub id: PresetId,
    pub label: String,
    pub icon: PresenceIcon,
    pub timer: PresenceTimer,
    pub kind: PresenceKind,
}

/// What others see of whether a user is there.
#[derive(Clone, Debug)]
pub struct UserPresence {
    pub status: Status,
    pub preset: Option<PresencePreset>,
}

/// The public profile of a user.
#[derive(Clone, Debug)]
pub struct UserProfile {
    pub username: String,
    pub display_name: Option<String>,
    pub profile_color: Option<i32>,
    pub avatar_url: Option<String>,
    pub banner_url: Option<String>,
    pub bio: Option<String>,
}

/// A user as others see them.
#[derive(Clone, Debug)]
pub struct UserPublic {
    pub id: UserId,
    pub profile: UserProfile,
    pub presence: UserPresence,
}

/// Colour scheme of the interface.
#[derive(Clone, Copy, PartialEq, Eq, Structural, Debug)]
pub enum ThemeColor {
    Default,
    Havoc,
    Void,
}

/// Light or dark interface.
#[derive(Clone, Copy, PartialEq, Eq, Structural, Debug)]
pub enum ThemeDarkMode {
    System,
    Light,
    Dark,
}

/// Corner rounding of the interface.
#[derive(Clone, Copy, PartialEq, Eq, Structural, Debug)]
pub enum ThemeRounding {
    Default,
    Comfortable,
    Full,
}

/// Spacing of the interface.
#[derive(Clone, Copy, PartialEq, Eq, Structural, Debug)]
pub enum ThemeSpacing {
    Default,
    Comfortable,
    Compact,
}

/// A user's interface settings.
#[derive(Clone, Copy, PartialEq, Eq, Structural, Debug)]
pub struct UISettings {
    pub theme: ThemeColor,
    pub dark_mode: ThemeDarkMode,
    pub rounding: ThemeRounding,
    pub spacing: ThemeSpacing,
}

/// How the viewer stands to another user.
#[derive(Clone, Copy, PartialEq, Eq, Structural, Debug)]
pub enum RelationshipStatus {
    Unrelated,
    Friend,
    Blocked,
    PendingIncoming,
    PendingOutgoing,
}

/// Another user as the viewer's relationship list shows them.
#[derive(Clone, Debug)]
pub struct UserRelationship {
    pub id: UserId,
    pub user: UserPublic,
    pub status: RelationshipStatus,
    pub since: String,
}

/// A role of a guild.
#[derive(Clone, Debug)]
pub struct Role {
    pub id: RoleId,
    pub name: String,
    pub color: Option<i32>,
    pub hoist: bool,
    pub position: i32,
    pub permissions: i64,
}

/// A category that groups channels of a guild.
#[derive(Clone, Debug)]
pub struct ChannelCategory {
    pub id: CategoryId,
    pub guild_id: GuildId,
    pub name: String,
    pub position: i32,
}

/// How a text channel shows its messages.
#[derive(Clone, Copy, PartialEq, Eq, Structural, Debug)]
pub enum ChannelMode {
    Chat,
    Board,
    Threads,
}

/// A channel for written messages.
#[derive(Clone, Debug)]
pub struct TextChannel {
    pub id: ChannelId,
    pub guild_id: GuildId,
    pub category_id: Option<CategoryId>,
    pub name: String,
    pub position: i32,
    pub mode: ChannelMode,
}

/// A channel for voice calls.
#[derive(Clone, Debug)]
pub struct VoiceChannel {
    pub id: ChannelId,
    pub guild_id: GuildId,
    pub category_id: Option<CategoryId>,
    pub name: String,
    pub position: i32,
    pub user_limit: Option<i32>,
    pub bitrate: i32,
    pub participants: Vec<UserId>,
}

/// A channel that holds a shared document.
#[derive(Clone, Debug)]
pub struct DocsChannel {
    pub id: ChannelId,
    pub guild_id: GuildId,
    pub category_id: Option<CategoryId>,
    pub name: String,
    pub position: i32,
}

/// A channel that holds a shared drawing.
#[derive(Clone, Debug)]
pub struct CanvasChannel {
    pub id: ChannelId,
    pub guild_id: GuildId,
    pub category_id: Option<CategoryId>,
    pub name: String,
    pub position: i32,
}

/// A channel of a guild.
#[derive(Clone, Debug)]
pub enum Channel {
    Text(TextChannel),
    Voice(VoiceChannel),
    Docs(DocsChannel),
    Canvas(CanvasChannel),
}

/// How a member presents themself in one guild.
#[derive(Clone, Debug)]
pub struct GuildIdentity {
    pub display_name: String,
    pub avatar_url: Option<String>,
    pub bio: Option<String>,
    pub show_global_username: bool,
}

/// A member of a guild.
#[derive(Clone, Debug)]
pub struct GuildMember {
    pub guild_id: GuildId,
    pub user_id: UserId,
    pub roles: Vec<RoleId>,
    pub joined_at: String,
    pub identity: Option<GuildIdentity>,
    pub data: UserPublic,
}

/// The settings of a guild.
#[derive(Clone, Debug)]
pub struct GuildProfile {
    pub owner_id: UserId,
    pub banner_url: Option<String>,
    pub icon_url: Option<String>,
    pub name: String,
    pub default_channel_id: Option<ChannelId>,
}

/// A guild with everything in it.
#[derive(Clone, Debug)]
pub struct Guild {
    pub id: GuildId,
    pub profile: GuildProfile,
    pub roles: Vec<Role>,
    pub categories: Vec<ChannelCategory>,
    pub members: Vec<GuildMember>,
    pub channels: Vec<Channel>,
}

/// A direct-message channel as one of its members sees it.
#[derive(Clone, Debug)]
pub struct DMChannel {
    pub id: ChannelId,
    pub recipients: Vec<UserPublic>,
    pub is_open: bool,
}

/// The presence of a user of whom nothing is known: offline, with no preset.
pub open spec fn spec_offline() -> UserPresence {
    UserPresence { status: Status::Offline, preset: None }
}

/// The presence of a user of whom nothing is known.
pub fn offline_presence() -> (r: UserPresence)
    ensures
        r == spec_offline(),
{
    UserPresence { status: Status::Offline, preset: None }
}

} // verus!

verus! {

fn duplicate_opt_string(s: &Option<String>) -> (r: Option<String>)
    ensures
        r == *s,
{
    match s {
        Some(v) => Some(v.clone()),
        None => None,
    }
}

impl PresenceIcon {
    /// An equal icon.
    pub fn duplicate(&self) -> (r: PresenceIcon)
        ensures
            r == *self,
    {
        match self {
            PresenceIcon::Emoji { value } => PresenceIcon::Emoji { value: value.clone() },
            PresenceIcon::AppIcon { process_name } => PresenceIcon::AppIcon { process_name: process_name.clone() },
            PresenceIcon::CustomUpload { path_url } => PresenceIcon::CustomUpload {
                path_url: duplicate_opt_string(path_url),
            },
        }
    }
}

impl PresenceKind {
    /// An equal preset kind.
    pub fn duplicate(&self) -> (r: PresenceKind)
        ensures
            r == *self,
    {
        match self {
            PresenceKind::AppLinked { process_name } => PresenceKind::AppLinked { process_name: process_name.clone() },
            PresenceKind::Fixed => PresenceKind::Fixed,
        }
    }
}

impl UserPresence {
    /// An equal presence.
    pub fn duplicate(&self) -> (r: UserPresence)
        ensures
            r == *self,
    {
        let preset = match &self.preset {
            Some(p) => Some(
                PresencePreset {
                    id: p.id,
                    label: p.label.clone(),
                    icon: p.icon.duplicate(),
                    timer: p.timer,
                    kind: p.kind.duplicate(),
                },
            ),
            None => None,
        };
        UserPresence { status: self.status, preset }
    }
}

impl UserProfile {
    /// An equal profile.
    pub fn duplicate(&self) -> (r: UserProfile)
        ensures
            r == *self,
    {
        UserProfile {
            username: self.username.clone(),
            display_name: duplicate_opt_string(&self.display_name),
            profile_color: self.profile_color,
            avatar_url: duplicate_opt_string(&self.avatar_url),
            banner_url: duplicate_opt_string(&self.banner_url),
            bio: duplicate_opt_string(&self.bio),
        }
    }
}

} // verus!
