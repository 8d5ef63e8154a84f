//! Turning stored rows into the values that clients receive.
use vstd::prelude::*;
use crate::data::{
    offline_presence, spec_offline, CanvasChannel, Channel, ChannelCategory, ChannelMode,
    DocsChannel, PresenceIcon, PresenceKind, PresencePreset, PresenceTimer, RelationshipStatus,
    Role, TextChannel, ThemeColor, ThemeDarkMode, ThemeRounding, ThemeSpacing, UISettings,
    UserProfile, UserPublic, UserRelationship, VoiceChannel,
};
use crate::ids::{CategoryId, ChannelId, GuildId, PresetId, RoleId, UserId};
use crate::models::{
    CategoryModel, ChannelModel, DbChannelKind, DbChannelMode, DbPresenceIcon, DbPresenceKind,
    DbPresenceTimer, DbRelationshipStatus, DbThemeColor, DbThemeDarkMode, DbThemeRounding,
    DbThemeSpacing, PresencePresetModel, RelationshipModel, RoleModel, UserModel,
    UserSettingsModel,
};
use crate::clock::spec_rfc3339;

verus! {

/// Builds a value of this type from a stored `T`.
pub trait FromDomain<T>: Sized {
    fn from_domain(value: T) -> Self;
}

/// Turns this stored value into a `T`.
pub trait IntoDomain<T> {
    fn into_domain(self) -> T;
}

impl<T, U: FromDomain<T>> IntoDomain<U> for T {
    /// The value that `U::from_domain` builds from this one: whatever its contract
    /// promises of that value holds of the result.
    fn into_domain(self) -> (r: U)
        ensures
            call_ensures(U::from_domain, (self,), r),
    {
        U::from_domain(self)
    }
}

/// The text of `o`, or the empty text where there is none.
pub open spec fn text_or_empty(o: Option<String>) -> Seq<char> {
    match o {
        Some(s) => s@,
        None => Seq::empty(),
    }
}

fn string_or_default(o: Option<String>) -> (r: String)
    ensures
        r@ == text_or_empty(o),
{
    match o {
        Some(s) => s,
        None => String::new(),
    }
}

/// The bitrate that a voice channel without a stored one runs at.
pub const DEFAULT_BITRATE: i32 = 64000;

/// The mode of a text channel whose stored mode is `mode`: chat unless board or threads.
pub open spec fn spec_channel_mode(mode: Option<DbChannelMode>) -> ChannelMode {
    match mode {
        Some(DbChannelMode::Board) => ChannelMode::Board,
        Some(DbChannelMode::Threads) => ChannelMode::Threads,
        _ => ChannelMode::Chat,
    }
}

/// The category id of a stored category reference.
pub open spec fn spec_category_id(c: Option<u128>) -> Option<CategoryId> {
    match c {
        Some(id) => Some(CategoryId(id)),
        None => None,
    }
}

/// The channel that the client sees has the kind of the stored one, its ids, name and
/// position; a text channel shows its mode (chat where none or chat is stored), a
/// voice channel its user limit, its bitrate (64000 where none is stored) and no
/// participants.
pub open spec fn spec_channel_matches(c: Channel, m: ChannelModel) -> bool {
    match c {
        Channel::Text(t) => m.kind == DbChannelKind::Text && t.id == ChannelId(m.id) && t.guild_id
            == GuildId(m.guild_id) && t.category_id == spec_category_id(m.category_id) && t.name
            == m.name && t.position == m.position && t.mode == spec_channel_mode(m.mode),
        Channel::Voice(v) => m.kind == DbChannelKind::Voice && v.id == ChannelId(m.id)
            && v.guild_id == GuildId(m.guild_id) && v.category_id == spec_category_id(
            m.category_id,
        ) && v.name == m.name && v.position == m.position && v.user_limit == m.user_limit
            && v.bitrate == (match m.bitrate {
            Some(b) => b,
            None => DEFAULT_BITRATE,
        }) && v.participants@.len() == 0,
        Channel::Docs(d) => m.kind == DbChannelKind::Docs && d.id == ChannelId(m.id) && d.guild_id
            == GuildId(m.guild_id) && d.category_id == spec_category_id(m.category_id) && d.name
            == m.name && d.position == m.position,
        Channel::Canvas(d) => m.kind == DbChannelKind::Canvas && d.id == ChannelId(m.id)
            && d.guild_id == GuildId(m.guild_id) && d.category_id == spec_category_id(
            m.category_id,
        ) && d.name == m.name && d.position == m.position,
    }
}

fn category_id_of(c: Option<u128>) -> (r: Option<CategoryId>)
    ensures
        r == spec_category_id(c),
{
    match c {
        Some(id) => Some(CategoryId(id)),
        None => None,
    }
}

impl FromDomain<CategoryModel> for ChannelCategory {
    fn from_domain(model: CategoryModel) -> (r: Self)
        ensures
            r.id == CategoryId(model.id),
            r.guild_id == GuildId(model.guild_id),
            r.name == model.name,
            r.position == model.position,
    {
        ChannelCategory {
            id: CategoryId(model.id),
            guild_id: GuildId(model.guild_id),
            name: model.name,
            position: model.position,
        }
    }
}

impl FromDomain<ChannelModel> for Channel {
    fn from_domain(model: ChannelModel) -> (r: Self)
        ensures
            spec_channel_matches(r, model),
    {
        let channel_id = ChannelId(model.id);
        let guild_id = GuildId(model.guild_id);
        let category_id = category_id_of(model.category_id);
        match model.kind {
            DbChannelKind::Text => Channel::Text(
                TextChannel {
                    id: channel_id,
                    guild_id,
                    category_id,
                    name: model.name,
                    position: model.position,
                    mode: match model.mode {
                        Some(DbChannelMode::Board) => ChannelMode::Board,
                        Some(DbChannelMode::Threads) => ChannelMode::Threads,
                        _ => ChannelMode::Chat,
                    },
                },
            ),
            DbChannelKind::Voice => Channel::Voice(
                VoiceChannel {
                    id: channel_id,
                    guild_id,
                    category_id,
                    name: model.name,
                    position: model.position,
                    user_limit: model.user_limit,
                    bitrate: match model.bitrate {
                        Some(b) => b,
                        None => DEFAULT_BITRATE,
                    },
                    participants: Vec::new(),
                },
            ),
            DbChannelKind::Docs => Channel::Docs(
                DocsChannel {
                    id: channel_id,
                    guild_id,
                    category_id,
                    name: model.name,
                    position: model.position,
                },
            ),
            DbChannelKind::Canvas => Channel::Canvas(
                CanvasChannel {
                    id: channel_id,
                    guild_id,
                    category_id,
                    name: model.name,
                    position: model.position,
                },
            ),
        }
    }
}

/// The colour scheme that a stored one stands for.
pub open spec fn spec_theme_color(v: DbThemeColor) -> ThemeColor {
    match v {
        DbThemeColor::Default => ThemeColor::Default,
        DbThemeColor::Havoc => ThemeColor::Havoc,
        DbThemeColor::Void => ThemeColor::Void,
    }
}

/// The light or dark setting that a stored one stands for.
pub open spec fn spec_theme_dark_mode(v: DbThemeDarkMode) -> ThemeDarkMode {
    match v {
        DbThemeDarkMode::System => ThemeDarkMode::System,
        DbThemeDarkMode::Light => ThemeDarkMode::Light,
        DbThemeDarkMode::Dark => ThemeDarkMode::Dark,
    }
}

/// The rounding that a stored one stands for.
pub open spec fn spec_theme_rounding(v: DbThemeRounding) -> ThemeRounding {
    match v {
        DbThemeRounding::Default => ThemeRounding::Default,
        DbThemeRounding::Comfortable => ThemeRounding::Comfortable,
        DbThemeRounding::Full => ThemeRounding::Full,
    }
}

/// The spacing that a stored one stands for.
pub open spec fn spec_theme_spacing(v: DbThemeSpacing) -> ThemeSpacing {
    match v {
        DbThemeSpacing::Default => ThemeSpacing::Default,
        DbThemeSpacing::Comfortable => ThemeSpacing::Comfortable,
        DbThemeSpacing::Compact => ThemeSpacing::Compact,
    }
}

/// The relationship that a stored one stands for, seen from the user who started it.
pub open spec fn spec_relationship_status(v: DbRelationshipStatus) -> RelationshipStatus {
    match v {
        DbRelationshipStatus::Unrelated => RelationshipStatus::Unrelated,
        DbRelationshipStatus::Friend => RelationshipStatus::Friend,
        DbRelationshipStatus::Blocked => RelationshipStatus::Blocked,
        DbRelationshipStatus::PendingIncoming => RelationshipStatus::PendingIncoming,
        DbRelationshipStatus::PendingOutgoing => RelationshipStatus::PendingOutgoing,
    }
}

impl FromDomain<DbThemeColor> for ThemeColor {
    fn from_domain(value: DbThemeColor) -> (r: Self)
        ensures
            r == spec_theme_color(value),
    {
        match value {
            DbThemeColor::Default => ThemeColor::Default,
            DbThemeColor::Havoc => ThemeColor::Havoc,
            DbThemeColor::Void => ThemeColor::Void,
        }
    }
}

impl FromDomain<DbThemeDarkMode> for ThemeDarkMode {
    fn from_domain(value: DbThemeDarkMode) -> (r: Self)
        ensures
            r == spec_theme_dark_mode(value),
    {
        match value {
            DbThemeDarkMode::System => ThemeDarkMode::System,
            DbThemeDarkMode::Light => ThemeDarkMode::Light,
            DbThemeDarkMode::Dark => ThemeDarkMode::Dark,
        }
    }
}

impl FromDomain<DbThemeRounding> for ThemeRounding {
    fn from_domain(value: DbThemeRounding) -> (r: Self)
        ensures
            r == spec_theme_rounding(value),
    {
        match value {
            DbThemeRounding::Default => ThemeRounding::Default,
            DbThemeRounding::Comfortable => ThemeRounding::Comfortable,
            DbThemeRounding::Full => ThemeRounding::Full,
        }
    }
}

impl FromDomain<DbThemeSpacing> for ThemeSpacing {
    fn from_domain(value: DbThemeSpacing) -> (r: Self)
        ensures
            r == spec_theme_spacing(value),
    {
        match value {
            DbThemeSpacing::Default => ThemeSpacing::Default,
            DbThemeSpacing::Comfortable => ThemeSpacing::Comfortable,
            DbThemeSpacing::Compact => ThemeSpacing::Compact,
        }
    }
}

impl FromDomain<DbRelationshipStatus> for RelationshipStatus {
    fn from_domain(value: DbRelationshipStatus) -> (r: Self)
        ensures
            r == spec_relationship_status(value),
    {
        match value {
            DbRelationshipStatus::Unrelated => RelationshipStatus::Unrelated,
            DbRelationshipStatus::Friend => RelationshipStatus::Friend,
            DbRelationshipStatus::Blocked => RelationshipStatus::Blocked,
            DbRelationshipStatus::PendingIncoming => RelationshipStatus::PendingIncoming,
            DbRelationshipStatus::PendingOutgoing => RelationshipStatus::PendingOutgoing,
        }
    }
}

/// The icon that a stored kind and value stand for: an emoji or an application icon
/// whose missing value reads as empty, or an upload with its optional path.
pub open spec fn spec_icon_matches(r: PresenceIcon, kind: DbPresenceIcon, val: Option<String>) -> bool {
    match kind {
        DbPresenceIcon::Emoji => r matches PresenceIcon::Emoji { value } && value@ == text_or_empty(val),
        DbPresenceIcon::App => r matches PresenceIcon::AppIcon { process_name } && process_name@
            == text_or_empty(val),
        DbPresenceIcon::CustomUpload => r == (PresenceIcon::CustomUpload { path_url: val }),
    }
}

impl FromDomain<(DbPresenceIcon, Option<String>)> for PresenceIcon {
    fn from_domain(value: (DbPresenceIcon, Option<String>)) -> (r: Self)
        ensures
            spec_icon_matches(r, value.0, value.1),
    {
        let (kind, val) = value;
        match kind {
            DbPresenceIcon::Emoji => PresenceIcon::Emoji { value: string_or_default(val) },
            DbPresenceIcon::App => PresenceIcon::AppIcon { process_name: string_or_default(val) },
            DbPresenceIcon::CustomUpload => PresenceIcon::CustomUpload { path_url: val },
        }
    }
}

/// The timer that a stored kind and length stand for. A countdown without a stored
/// length counts from zero; a stored length is read as unsigned, bit for bit.
pub open spec fn spec_presence_timer(kind: DbPresenceTimer, val: Option<i64>) -> PresenceTimer {
    match kind {
        DbPresenceTimer::Elapsed => PresenceTimer::Elapsed,
        DbPresenceTimer::Countdown => PresenceTimer::Countdown {
            seconds: (match val {
                Some(v) => v,
                None => 0,
            }) as u64,
        },
        DbPresenceTimer::Off => PresenceTimer::Off,
    }
}

impl FromDomain<(DbPresenceTimer, Option<i64>)> for PresenceTimer {
    fn from_domain(value: (DbPresenceTimer, Option<i64>)) -> (r: Self)
        ensures
            r == spec_presence_timer(value.0, value.1),
    {
        let (kind, val) = value;
        match kind {
            DbPresenceTimer::Elapsed => PresenceTimer::Elapsed,
            DbPresenceTimer::Countdown => PresenceTimer::Countdown {
                seconds: (match val {
                    Some(v) => v,
                    None => 0,
                }) as u64,
            },
            DbPresenceTimer::Off => PresenceTimer::Off,
        }
    }
}

/// The preset kind that a stored kind and process name stand for.
pub open spec fn spec_kind_matches(r: PresenceKind, kind: DbPresenceKind, val: Option<String>) -> bool {
    match kind {
        DbPresenceKind::AppLinked => r matches PresenceKind::AppLinked { process_name } && process_name@
            == text_or_empty(val),
        DbPresenceKind::Fixed => r is Fixed,
    }
}

impl FromDomain<(DbPresenceKind, Option<String>)> for PresenceKind {
    fn from_domain(value: (DbPresenceKind, Option<String>)) -> (r: Self)
        ensures
            spec_kind_matches(r, value.0, value.1),
    {
        let (kind, val) = value;
        match kind {
            DbPresenceKind::AppLinked => PresenceKind::AppLinked { process_name: string_or_default(val) },
            DbPresenceKind::Fixed => PresenceKind::Fixed,
        }
    }
}

impl FromDomain<RoleModel> for Role {
    fn from_domain(value: RoleModel) -> (r: Self)
        ensures
            r.id == RoleId(value.id),
            r.name == value.name,
            r.color == value.color,
            r.hoist == value.hoist,
            r.position == value.position,
            r.permissions == value.permissions,
    {
        Role {
            id: RoleId(value.id),
            name: value.name,
            color: value.color,
            hoist: value.hoist,
            position: value.position,
            permissions: value.permissions,
        }
    }
}

/// The public profile shows the stored user's name, display name, colour, pictures
/// and bio.
pub open spec fn spec_profile_matches(p: UserProfile, m: UserModel) -> bool {
    &&& p.username == m.username
    &&& p.display_name == m.display_name
    &&& p.profile_color == m.profile_color
    &&& p.avatar_url == m.avatar_url
    &&& p.banner_url == m.banner_url
    &&& p.bio == m.bio
}

impl FromDomain<UserModel> for UserProfile {
    fn from_domain(model: UserModel) -> (r: Self)
        ensures
            spec_profile_matches(r, model),
    {
        UserProfile {
            username: model.username,
            display_name: model.display_name,
            profile_color: model.profile_color,
            avatar_url: model.avatar_url,
            banner_url: model.banner_url,
            bio: model.bio,
        }
    }
}

fn copy_opt_string(s: &Option<String>) -> (r: Option<String>)
    ensures
        r == *s,
{
    match s {
        Some(v) => Some(v.clone()),
        None => None,
    }
}

/// The public profile of a stored user, leaving the row in place.
pub fn profile_of(model: &UserModel) -> (r: UserProfile)
    ensures
        spec_profile_matches(r, *model),
{
    UserProfile {
        username: model.username.clone(),
        display_name: copy_opt_string(&model.display_name),
        profile_color: model.profile_color,
        avatar_url: copy_opt_string(&model.avatar_url),
        banner_url: copy_opt_string(&model.banner_url),
        bio: copy_opt_string(&model.bio),
    }
}

impl FromDomain<UserSettingsModel> for UISettings {
    fn from_domain(model: UserSettingsModel) -> (r: Self)
        ensures
            r.theme == spec_theme_color(model.theme_color),
            r.dark_mode == spec_theme_dark_mode(model.theme_dark_mode),
            r.rounding == spec_theme_rounding(model.theme_rounding),
            r.spacing == spec_theme_spacing(model.theme_spacing),
    {
        UISettings {
            theme: ThemeColor::from_domain(model.theme_color),
            dark_mode: ThemeDarkMode::from_domain(model.theme_dark_mode),
            rounding: ThemeRounding::from_domain(model.theme_rounding),
            spacing: ThemeSpacing::from_domain(model.theme_spacing),
        }
    }
}

impl FromDomain<PresencePresetModel> for PresencePreset {
    fn from_domain(model: PresencePresetModel) -> (r: Self)
        ensures
            r.id == PresetId(model.id),
            r.label == model.label,
            spec_icon_matches(r.icon, model.icon_kind, model.icon_value),
            r.timer == spec_presence_timer(model.timer_kind, model.timer_seconds),
            spec_kind_matches(r.kind, model.preset_kind, model.process_name),
    {
        PresencePreset {
            id: PresetId(model.id),
            label: model.label,
            icon: PresenceIcon::from_domain((model.icon_kind, model.icon_value)),
            timer: PresenceTimer::from_domain((model.timer_kind, model.timer_seconds)),
            kind: PresenceKind::from_domain((model.preset_kind, model.process_name)),
        }
    }
}

/// The relationship as the viewer sees it: the stored status is from the side of
/// the user who started it, so where the viewer is its target, pending incoming and
/// pending outgoing trade places.
pub open spec fn spec_viewed_status(rel: RelationshipModel, viewer: u128) -> RelationshipStatus {
    let s = spec_relationship_status(rel.status);
    if rel.target_id == viewer {
        match s {
            RelationshipStatus::PendingOutgoing => RelationshipStatus::PendingIncoming,
            RelationshipStatus::PendingIncoming => RelationshipStatus::PendingOutgoing,
            other => other,
        }
    } else {
        s
    }
}

impl FromDomain<(RelationshipModel, UserModel, u128)> for UserRelationship {
    fn from_domain(value: (RelationshipModel, UserModel, u128)) -> (r: Self)
        ensures
            r.id == UserId(value.1.id),
            r.user.id == UserId(value.1.id),
            spec_profile_matches(r.user.profile, value.1),
            r.user.presence == spec_offline(),
            r.status == spec_viewed_status(value.0, value.2),
            r.since@ == spec_rfc3339(value.0.since.spec_secs(), value.0.since.spec_nanos()),
    {
        let (rel, target_user, current_user_id) = value;
        let mut status = RelationshipStatus::from_domain(rel.status);
        if rel.target_id == current_user_id {
            status =
            match status {
                RelationshipStatus::PendingOutgoing => RelationshipStatus::PendingIncoming,
                RelationshipStatus::PendingIncoming => RelationshipStatus::PendingOutgoing,
                other => other,
            };
        }
        let target_id = target_user.id;
        UserRelationship {
            id: UserId(target_id),
            user: UserPublic {
                id: UserId(target_id),
                profile: UserProfile::from_domain(target_user),
                presence: offline_presence(),
            },
            status,
            since: rel.since.to_rfc3339(),
        }
    }
}

/// Seen from either side, a relationship is the same except that pending requests
/// point the other way: swapping viewpoints twice gives back the stored status.
pub proof fn law_pending_requests_point_both_ways(rel: RelationshipModel)
    requires
        rel.user_id != rel.target_id,
    ensures
        spec_viewed_status(rel, rel.user_id) == spec_relationship_status(rel.status),
        rel.status == DbRelationshipStatus::PendingOutgoing ==> spec_viewed_status(rel, rel.target_id)
            == RelationshipStatus::PendingIncoming,
        rel.status == DbRelationshipStatus::PendingIncoming ==> spec_viewed_status(rel, rel.target_id)
            == RelationshipStatus::PendingOutgoing,
        !(rel.status == DbRelationshipStatus::PendingOutgoing || rel.status
            == DbRelationshipStatus::PendingIncoming) ==> spec_viewed_status(rel, rel.target_id)
            == spec_relationship_status(rel.status),
{
}

} // verus!
