use vstd::prelude::*;

use crate::model::ChannelPrivacy;

verus! {

/// A persisted join channel row.
#[derive(Clone, Copy, Debug, PartialEq, Eq, Structural)]
pub struct JoinChannel {
    pub id: u64,
    pub guild_id: u64,
    pub access_role_id: Option<u64>,
    pub parent_id: Option<u64>,
    pub permanence: bool,
    pub privacy: ChannelPrivacy,
}

/// A persisted voice channel row.
#[derive(Clone, Copy, Debug, PartialEq, Eq, Structural)]
pub struct VoiceChannel {
    pub id: u64,
    pub guild_id: u64,
    pub owner_id: Option<u64>,
    pub permanence: bool,
    pub privacy: ChannelPrivacy,
}

} // verus!
