//! Verified core of the chat service API: error codes, response envelopes,
//! message buckets, permissions, key naming and the decisions behind each request.

pub mod accounts;
pub mod auth;
pub mod buckets;
pub mod cache;
pub mod channels;
pub mod clock;
pub mod crypto;
pub mod data;
pub mod dms;
pub mod error;
pub mod events;
pub mod guards;
pub mod guild_members;
pub mod guilds;
pub mod health;
pub mod ids;
pub mod keys;
pub mod mappers;
pub mod models;
pub mod permissions;
pub mod presence;
pub mod response;
pub mod rooms;
pub mod sweeper;
pub mod uuids;
