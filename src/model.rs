use vstd::prelude::*;

verus! {

/// Permission bit that lets a subject see a channel.
pub const VIEW_CHANNEL: u64 = 1024;

/// Permission bit that lets a subject connect to a voice channel.
pub const CONNECT: u64 = 1048576;

/// Bitrate given to a voice channel whose live attributes are unknown.
pub const DEFAULT_BITRATE: u32 = 64000;

/// How visible and reachable a channel is to ordinary members.
#[derive(Clone, Copy, Debug, PartialEq, Eq, Structural)]
pub enum ChannelPrivacy {
    Invisible,
    Locked,
    Unlocked,
}

/// Whether a permission overwrite targets a single member or a role.
#[derive(Clone, Copy, Debug, PartialEq, Eq, Structural)]
pub enum OverwriteKind {
    Member,
    Role,
}

/// An explicit allow / deny pair of permission bits for one member or role.
#[derive(Clone, Copy, Debug, PartialEq, Eq, Structural)]
pub struct PermissionOverwrite {
    pub allow: u64,
    pub deny: u64,
    pub id: u64,
    pub kind: OverwriteKind,
}

/// Camera quality of a voice channel.
#[derive(Clone, Copy, Debug, PartialEq, Eq, Structural)]
pub enum VideoQualityMode {
    Auto,
    Full,
    Unknown(u8),
}

/// The permission bits that a privacy level withholds from everyone else.
pub open spec fn privacy_bits(privacy: ChannelPrivacy) -> u64 {
    match privacy {
        ChannelPrivacy::Invisible => VIEW_CHANNEL,
        ChannelPrivacy::Locked => CONNECT,
        ChannelPrivacy::Unlocked => 0,
    }
}

/// Invisible withholds VIEW_CHANNEL, Locked withholds CONNECT, Unlocked withholds nothing.
pub fn privacy_permissions(privacy: ChannelPrivacy) -> (r: u64)
    ensures
        r == privacy_bits(privacy),
{
    match privacy {
        ChannelPrivacy::Invisible => VIEW_CHANNEL,
        ChannelPrivacy::Locked => CONNECT,
        ChannelPrivacy::Unlocked => 0,
    }
}

/// A change to one field of a record: leave it as it is, or replace it with a value.
/// For an optional field, `Replace(None)` clears it.
#[derive(Debug)]
pub enum Change<T> {
    Keep,
    Replace(T),
}

impl<T> Change<T> {
    pub open spec fn apply(self, current: T) -> T {
        match self {
            Change::Keep => current,
            Change::Replace(v) => v,
        }
    }
}

} // verus!
