//! The events that the service publishes, and to whom.
use vstd::prelude::*;
use crate::data::{Channel, ChannelCategory, DMChannel};
use crate::ids::{CategoryId, ChannelId, GuildId, UserId};

verus! {

/// Something that happened that connected clients are told about.
#[derive(Clone, Debug)]
pub enum ServerEvent {
    GuildDeleted { guild_id: GuildId },
    MemberLeft { guild_id: GuildId, user_id: UserId },
    ChannelCreated { guild_id: GuildId, channel: Channel },
    ChannelUpdated { guild_id: GuildId, channel: Channel },
    ChannelDeleted { guild_id: GuildId, channel_id: ChannelId },
    CategoryCreated { guild_id: GuildId, category: ChannelCategory },
    CategoryUpdated { guild_id: GuildId, category: ChannelCategory },
    CategoryDeleted { guild_id: GuildId, category_id: CategoryId },
    DirectMessageCreated { channel: DMChannel },
}

/// Who an event is published to.
#[derive(Clone, Copy, PartialEq, Eq, Structural, Debug)]
pub enum Audience {
    /// Everyone connected to the guild.
    Guild(GuildId),
    /// Every session of one user.
    User(UserId),
    /// Everyone watching one channel.
    Channel(ChannelId),
}

/// One event for one audience.
#[derive(Clone, Debug)]
pub struct Delivery {
    pub audience: Audience,
    pub event: ServerEvent,
}

} // verus!
