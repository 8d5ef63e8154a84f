//! Creating, changing and removing the channels and categories of a guild.
use vstd::prelude::*;
use vstd::string::*;
use crate::data::{
    CanvasChannel, Channel, ChannelCategory, ChannelMode, DocsChannel, TextChannel, VoiceChannel,
};
use crate::error::AppError;
use crate::ids::{CategoryId, ChannelId, GuildId};
use crate::mappers::{spec_category_id, spec_channel_matches, spec_channel_mode, DEFAULT_BITRATE};
use crate::models::{CategoryModel, ChannelModel, DbChannelKind, DbChannelMode};

verus! {

/// The kind of channel that a client asks for.
#[derive(Clone, Copy, PartialEq, Eq, Structural, Debug)]
pub enum CreateChannelKind {
    Text,
    Voice,
    Canvas,
    Docs,
}

/// A request to create a channel.
#[derive(Clone, Debug)]
pub struct CreateChannelRequest {
    pub name: String,
    pub kind: CreateChannelKind,
    pub category_id: Option<CategoryId>,
}

/// A request to change a channel: each field that is set replaces the stored one.
/// `mode` applies to text channels only, `bitrate` and `user_limit` to voice channels.
#[derive(Clone, Debug)]
pub struct UpdateChannelRequest {
    pub name: Option<String>,
    pub position: Option<i32>,
    pub category_id: Option<Option<CategoryId>>,
    pub mode: Option<ChannelMode>,
    pub bitrate: Option<i32>,
    pub user_limit: Option<Option<i32>>,
}

/// A request to create a category.
#[derive(Clone, Debug)]
pub struct CreateCategoryRequest {
    pub name: String,
}

/// A request to change a category.
#[derive(Clone, Debug)]
pub struct UpdateCategoryRequest {
    pub name: Option<String>,
    pub position: Option<i32>,
}

/// The position after the highest one taken among its siblings: 0 where there is none.
pub open spec fn spec_next_position(highest: Option<i32>) -> int {
    match highest {
        Some(h) => h + 1,
        None => 0,
    }
}

/// The position for a new channel or category placed after its siblings, where the
/// highest position they take is `highest`.
pub fn next_position(highest: Option<i32>) -> (r: i32)
    requires
        highest != Some(i32::MAX),
    ensures
        r == spec_next_position(highest),
{
    match highest {
        Some(h) => h + 1,
        None => -1 + 1,
    }
}

fn category_ref(c: Option<CategoryId>) -> (r: Option<u128>)
    ensures
        spec_category_id(r) == c,
        r == (match c {
            Some(id) => Some(id.0),
            None => None::<u128>,
        }),
{
    match c {
        Some(id) => Some(id.0),
        None => None,
    }
}

/// The stored kind, mode and bitrate of a channel of the asked kind: a text channel
/// starts in chat mode, a voice channel at 64000 bit/s.
pub open spec fn spec_kind_settings(kind: CreateChannelKind) -> (DbChannelKind, Option<DbChannelMode>, Option<i32>) {
    match kind {
        CreateChannelKind::Text => (DbChannelKind::Text, Some(DbChannelMode::Chat), None),
        CreateChannelKind::Voice => (DbChannelKind::Voice, None, Some(DEFAULT_BITRATE)),
        CreateChannelKind::Canvas => (DbChannelKind::Canvas, None, None),
        CreateChannelKind::Docs => (DbChannelKind::Docs, None, None),
    }
}

/// The row to store and the channel to announce for a new channel `channel_id` of
/// `guild_id`, at `position`. The announced channel is exactly what reading the
/// stored row back gives.
pub fn plan_channel_creation(
    channel_id: u128,
    guild_id: GuildId,
    req: CreateChannelRequest,
    position: i32,
) -> (r: (ChannelModel, Channel))
    ensures
        r.0.id == channel_id,
        r.0.guild_id == guild_id.0,
        spec_category_id(r.0.category_id) == req.category_id,
        r.0.name == req.name,
        r.0.position == position,
        (r.0.kind, r.0.mode, r.0.bitrate) == spec_kind_settings(req.kind),
        r.0.user_limit is None,
        spec_channel_matches(r.1, r.0),
{
    let (kind, mode, bitrate) = match req.kind {
        CreateChannelKind::Text => (DbChannelKind::Text, Some(DbChannelMode::Chat), None),
        CreateChannelKind::Voice => (DbChannelKind::Voice, None, Some(DEFAULT_BITRATE)),
        CreateChannelKind::Canvas => (DbChannelKind::Canvas, None, None),
        CreateChannelKind::Docs => (DbChannelKind::Docs, None, None),
    };
    let row = ChannelModel {
        id: channel_id,
        guild_id: guild_id.0,
        category_id: category_ref(req.category_id),
        name: req.name.clone(),
        position,
        kind,
        mode,
        bitrate,
        user_limit: None,
    };
    let view = match req.kind {
        CreateChannelKind::Text => Channel::Text(
            TextChannel {
                id: ChannelId(channel_id),
                guild_id,
                category_id: req.category_id,
                name: req.name,
                position,
                mode: ChannelMode::Chat,
            },
        ),
        CreateChannelKind::Voice => Channel::Voice(
            VoiceChannel {
                id: ChannelId(channel_id),
                guild_id,
                category_id: req.category_id,
                name: req.name,
                position,
                user_limit: None,
                bitrate: DEFAULT_BITRATE,
                participants: Vec::new(),
            },
        ),
        CreateChannelKind::Canvas => Channel::Canvas(
            CanvasChannel {
                id: ChannelId(channel_id),
                guild_id,
                category_id: req.category_id,
                name: req.name,
                position,
            },
        ),
        CreateChannelKind::Docs => Channel::Docs(
            DocsChannel {
                id: ChannelId(channel_id),
                guild_id,
                category_id: req.category_id,
                name: req.name,
                position,
            },
        ),
    };
    (row, view)
}

/// A channel may only be changed or removed through the guild it belongs to.
pub fn check_channel_guild(channel_guild: u128, guild_id: GuildId) -> (r: Result<(), AppError>)
    ensures
        r is Ok <==> channel_guild == guild_id.0,
        r matches Err(e) ==> e matches AppError::Forbidden(m) && m@ == "Channel does not belong to this guild"@,
{
    if channel_guild != guild_id.0 {
        return Err(AppError::Forbidden(String::from_str("Channel does not belong to this guild")));
    }
    Ok(())
}

/// A category may only be changed or removed through the guild it belongs to.
pub fn check_category_guild(category_guild: u128, guild_id: GuildId) -> (r: Result<(), AppError>)
    ensures
        r is Ok <==> category_guild == guild_id.0,
        r matches Err(e) ==> e matches AppError::Forbidden(m) && m@ == "Category does not belong to this guild"@,
{
    if category_guild != guild_id.0 {
        return Err(AppError::Forbidden(String::from_str("Category does not belong to this guild")));
    }
    Ok(())
}

/// The stored mode of a text channel shown in `mode`.
pub open spec fn spec_db_mode(mode: ChannelMode) -> DbChannelMode {
    match mode {
        ChannelMode::Chat => DbChannelMode::Chat,
        ChannelMode::Board => DbChannelMode::Board,
        ChannelMode::Threads => DbChannelMode::Threads,
    }
}

/// Whether `req` changes anything of a channel of kind `kind`: a field counts where
/// it is set and, for mode, bitrate and user limit, applies to that kind.
pub open spec fn spec_update_changes(kind: DbChannelKind, req: UpdateChannelRequest) -> bool {
    req.name is Some || req.position is Some || req.category_id is Some || (req.mode is Some
        && kind == DbChannelKind::Text) || (req.bitrate is Some && kind == DbChannelKind::Voice) || (
    req.user_limit is Some && kind == DbChannelKind::Voice)
}

/// The channel row `m` after `req`: each set field replaces the stored one where it
/// applies to the channel's kind; the id, guild and kind stay.
pub open spec fn spec_updated_channel(m: ChannelModel, req: UpdateChannelRequest) -> ChannelModel {
    ChannelModel {
        id: m.id,
        guild_id: m.guild_id,
        name: match req.name {
            Some(n) => n,
            None => m.name,
        },
        position: match req.position {
            Some(p) => p,
            None => m.position,
        },
        category_id: match req.category_id {
            Some(Some(c)) => Some(c.0),
            Some(None) => None,
            None => m.category_id,
        },
        kind: m.kind,
        mode: match req.mode {
            Some(md) => if m.kind == DbChannelKind::Text {
                Some(spec_db_mode(md))
            } else {
                m.mode
            },
            None => m.mode,
        },
        bitrate: match req.bitrate {
            Some(b) => if m.kind == DbChannelKind::Voice {
                Some(b)
            } else {
                m.bitrate
            },
            None => m.bitrate,
        },
        user_limit: match req.user_limit {
            Some(l) => if m.kind == DbChannelKind::Voice {
                l
            } else {
                m.user_limit
            },
            None => m.user_limit,
        },
    }
}

/// The channel row after `req`, and whether anything is to be written.
pub fn apply_channel_update(m: ChannelModel, req: UpdateChannelRequest) -> (r: (ChannelModel, bool))
    ensures
        r.0 == spec_updated_channel(m, req),
        r.1 == spec_update_changes(m.kind, req),
{
    let mut out = m;
    let mut has_changes = false;
    if let Some(new_name) = req.name {
        out.name = new_name;
        has_changes = true;
    }
    if let Some(new_pos) = req.position {
        out.position = new_pos;
        has_changes = true;
    }
    if let Some(category_opt) = req.category_id {
        out.category_id = category_ref(category_opt);
        has_changes = true;
    }
    if let Some(mode) = req.mode {
        if out.kind == DbChannelKind::Text {
            out.mode = Some(
                match mode {
                    ChannelMode::Chat => DbChannelMode::Chat,
                    ChannelMode::Board => DbChannelMode::Board,
                    ChannelMode::Threads => DbChannelMode::Threads,
                },
            );
            has_changes = true;
        }
    }
    if let Some(bitrate) = req.bitrate {
        if out.kind == DbChannelKind::Voice {
            out.bitrate = Some(bitrate);
            has_changes = true;
        }
    }
    if let Some(limit_opt) = req.user_limit {
        if out.kind == DbChannelKind::Voice {
            out.user_limit = limit_opt;
            has_changes = true;
        }
    }
    (out, has_changes)
}

/// Applying a change request a second time changes nothing more, and a request
/// that changes nothing leaves the channel as it was.
pub proof fn law_channel_update_is_idempotent(m: ChannelModel, req: UpdateChannelRequest)
    ensures
        spec_updated_channel(spec_updated_channel(m, req), req) == spec_updated_channel(m, req),
        !spec_update_changes(m.kind, req) ==> spec_updated_channel(m, req) == m,
{
}

/// A new channel is stored, and announced, as the kind that was asked for: a text
/// channel as text (in chat mode), a voice channel as voice (at the default
/// bitrate), a canvas as a canvas and a docs channel as docs.
pub proof fn law_created_channel_is_of_the_asked_kind(kind: CreateChannelKind, row: ChannelModel, view: Channel)
    requires
        (row.kind, row.mode, row.bitrate) == spec_kind_settings(kind),
        spec_channel_matches(view, row),
    ensures
        kind == CreateChannelKind::Text ==> row.kind == DbChannelKind::Text && (view matches Channel::Text(t)
            && t.mode == ChannelMode::Chat),
        kind == CreateChannelKind::Voice ==> row.kind == DbChannelKind::Voice && (view matches Channel::Voice(
            v,
        ) && v.bitrate == DEFAULT_BITRATE),
        kind == CreateChannelKind::Canvas ==> row.kind == DbChannelKind::Canvas && view is Canvas,
        kind == CreateChannelKind::Docs ==> row.kind == DbChannelKind::Docs && view is Docs,
{
}

/// Changing the mode of a text channel to `md` stores it so that reading the row
/// back, or announcing it, shows mode `md`; a channel of another kind keeps its mode.
pub proof fn law_text_mode_update_reads_back(m: ChannelModel, req: UpdateChannelRequest, md: ChannelMode, view: Channel)
    requires
        req.mode == Some(md),
    ensures
        m.kind == DbChannelKind::Text ==> spec_channel_mode(spec_updated_channel(m, req).mode) == md,
        m.kind == DbChannelKind::Text && spec_channel_matches(view, spec_updated_channel(m, req)) ==> (
        view matches Channel::Text(t) && t.mode == md),
        m.kind != DbChannelKind::Text ==> spec_updated_channel(m, req).mode == m.mode,
{
}

/// The row to store and the category to announce for a new category `category_id`
/// of `guild_id` at `position`.
pub fn plan_category_creation(
    category_id: u128,
    guild_id: GuildId,
    req: CreateCategoryRequest,
    position: i32,
) -> (r: (CategoryModel, ChannelCategory))
    ensures
        r.0 == (CategoryModel { id: category_id, guild_id: guild_id.0, name: req.name, position }),
        r.1 == (ChannelCategory { id: CategoryId(category_id), guild_id, name: req.name, position }),
{
    let row = CategoryModel {
        id: category_id,
        guild_id: guild_id.0,
        name: req.name.clone(),
        position,
    };
    let view = ChannelCategory { id: CategoryId(category_id), guild_id, name: req.name, position };
    (row, view)
}

/// A change recorded in the audit log: a field with its old and new value.
#[derive(Clone, Debug)]
pub enum FieldChange {
    Name { old: String, new: String },
    Position { old: i32, new: i32 },
}

/// The category row `m` after `req`: each set field replaces the stored one.
pub open spec fn spec_updated_category(m: CategoryModel, req: UpdateCategoryRequest) -> CategoryModel {
    CategoryModel {
        id: m.id,
        guild_id: m.guild_id,
        name: match req.name {
            Some(n) => n,
            None => m.name,
        },
        position: match req.position {
            Some(p) => p,
            None => m.position,
        },
    }
}

/// The category row after `req`, the changes to record (name before position, each
/// with its old and new value), and whether anything is to be written.
pub fn apply_category_update(m: CategoryModel, req: UpdateCategoryRequest) -> (r: (
    CategoryModel,
    Vec<FieldChange>,
    bool,
))
    ensures
        r.0 == spec_updated_category(m, req),
        r.2 == (req.name is Some || req.position is Some),
        r.1@.len() == (if req.name is Some { 1int } else { 0 }) + (if req.position is Some {
            1int
        } else {
            0
        }),
        req.name matches Some(n) ==> r.1@[0] == (FieldChange::Name { old: m.name, new: n }),
        req.position matches Some(p) ==> r.1@.last() == (FieldChange::Position {
            old: m.position,
            new: p,
        }),
{
    let mut changes: Vec<FieldChange> = Vec::new();
    let mut has_changes = false;
    let name = match req.name {
        Some(new_name) => {
            changes.push(FieldChange::Name { old: m.name.clone(), new: new_name.clone() });
            has_changes = true;
            new_name
        },
        None => m.name,
    };
    let position = match req.position {
        Some(new_pos) => {
            changes.push(FieldChange::Position { old: m.position, new: new_pos });
            has_changes = true;
            new_pos
        },
        None => m.position,
    };
    let out = CategoryModel { id: m.id, guild_id: m.guild_id, name, position };
    (out, changes, has_changes)
}

/// The category announced after a change: the request's ids with the stored name and
/// position.
pub fn category_view(category_id: CategoryId, guild_id: GuildId, stored: CategoryModel) -> (r: ChannelCategory)
    ensures
        r == (ChannelCategory {
            id: category_id,
            guild_id,
            name: stored.name,
            position: stored.position,
        }),
{
    ChannelCategory { id: category_id, guild_id, name: stored.name, position: stored.position }
}

} // verus!
