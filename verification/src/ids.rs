//! Typed identifiers. Each wraps the 128-bit big-endian value of a UUID.
use vstd::prelude::*;

verus! {

/// Identifies a user account.
#[derive(Clone, Copy, PartialEq, Eq, Structural, Debug, Hash)]
pub struct UserId(pub u128);

/// Identifies a guild (a server).
#[derive(Clone, Copy, PartialEq, Eq, Structural, Debug, Hash)]
pub struct GuildId(pub u128);

/// Identifies a channel of a guild or a direct-message channel.
#[derive(Clone, Copy, PartialEq, Eq, Structural, Debug, Hash)]
pub struct ChannelId(pub u128);

/// Identifies a channel category of a guild.
#[derive(Clone, Copy, PartialEq, Eq, Structural, Debug, Hash)]
pub struct CategoryId(pub u128);

/// Identifies a role of a guild.
#[derive(Clone, Copy, PartialEq, Eq, Structural, Debug, Hash)]
pub struct RoleId(pub u128);

/// Identifies a presence preset of a user.
#[derive(Clone, Copy, PartialEq, Eq, Structural, Debug, Hash)]
pub struct PresetId(pub u128);

/// Identifies a login session; it is also the session's bearer token.
#[derive(Clone, Copy, PartialEq, Eq, Structural, Debug, Hash)]
pub struct SessionId(pub u128);

} // verus!
