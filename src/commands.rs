use vstd::prelude::*;

use crate::cache::Cache;
use crate::database::{JoinChannel, VoiceChannel};
use crate::lifecycle::CreateVoiceChannel;
use crate::model::{
    privacy_bits, privacy_permissions, Change, ChannelPrivacy, OverwriteKind, PermissionOverwrite,
    VIEW_CHANNEL,
};
use crate::store::{CacheView, CachedGuild, CachedVoiceChannelUpdate};

verus! {

/// Most join channels a guild may have.
pub const JOIN_CHANNEL_LIMIT: usize = 3;

/// Relies on `str`'s `==`: equal exactly when the characters are equal.
#[verifier::external_body]
fn str_equals(a: &str, b: &str) -> (r: bool)
    ensures
        r == (a@ == b@),
{
    a == b
}

pub open spec fn invisible_text() -> Seq<char> {
    seq!['i', 'n', 'v', 'i', 's', 'i', 'b', 'l', 'e']
}

pub open spec fn locked_text() -> Seq<char> {
    seq!['l', 'o', 'c', 'k', 'e', 'd']
}

/// The privacy level named by a command option: "invisible", "locked", and anything
/// else is unlocked.
pub open spec fn privacy_named(level: Seq<char>) -> ChannelPrivacy {
    if level == invisible_text() {
        ChannelPrivacy::Invisible
    } else if level == locked_text() {
        ChannelPrivacy::Locked
    } else {
        ChannelPrivacy::Unlocked
    }
}

pub fn parse_privacy(level: &str) -> (r: ChannelPrivacy)
    ensures
        r == privacy_named(level@),
{
    let invisible = "invisible";
    let locked = "locked";
    proof {
        reveal_strlit("invisible");
        reveal_strlit("locked");
        assert(invisible@ =~= invisible_text());
        assert(locked@ =~= locked_text());
    }
    if str_equals(level, invisible) {
        ChannelPrivacy::Invisible
    } else if str_equals(level, locked) {
        ChannelPrivacy::Locked
    } else {
        ChannelPrivacy::Unlocked
    }
}

/// The row persisted for a voice channel that the platform created for `req`.
pub fn voice_channel_row(req: &CreateVoiceChannel, id: u64) -> (r: VoiceChannel)
    ensures
        r == (VoiceChannel {
            id,
            guild_id: req.guild_id,
            owner_id: None,
            permanence: req.permanence,
            privacy: req.privacy,
        }),
{
    VoiceChannel { id, guild_id: req.guild_id, owner_id: None, permanence: req.permanence, privacy: req.privacy }
}

/// An update that changes the owner of a voice channel and nothing else.
pub fn owner_change(owner: Option<u64>) -> (r: CachedVoiceChannelUpdate)
    ensures
        r == (CachedVoiceChannelUpdate {
            bitrate: Change::Keep,
            name: Change::Keep,
            owner_id: Change::Replace(owner),
            permanence: Change::Keep,
            permission_overwrites: Change::Keep,
            privacy: Change::Keep,
            rate_limit_per_user: Change::Keep,
            rtc_region: Change::Keep,
            user_limit: Change::Keep,
            video_quality_mode: Change::Keep,
        }),
{
    CachedVoiceChannelUpdate {
        bitrate: Change::Keep,
        name: Change::Keep,
        owner_id: Change::Replace(owner),
        permanence: Change::Keep,
        permission_overwrites: Change::Keep,
        privacy: Change::Keep,
        rate_limit_per_user: Change::Keep,
        rtc_region: Change::Keep,
        user_limit: Change::Keep,
        video_quality_mode: Change::Keep,
    }
}

/// Records `owner` as the owner of a voice channel (or clears it), leaving every other
/// field as it is. Nothing changes when the new owner already owns another channel.
pub fn commit_owner(cache: &mut Cache, channel_id: u64, owner: Option<u64>)
    requires
        old(cache).wf(),
    ensures
        final(cache).wf(),
        final(cache)@ == old(cache)@.assign_owner(channel_id, owner),
{
    let update = owner_change(owner);
    let ghost s0 = cache@;
    cache.update_voice_channel(channel_id, update);
    proof {
        if s0.voice_channels.contains_key(channel_id) {
            assert(s0.patch_voice_fields(channel_id, update).voice_channels =~= s0.voice_channels);
        }
        assert(s0.patch_voice_fields(channel_id, update) == s0);
    }
}

/// A change of one member's or role's permissions on one channel.
#[derive(Clone, Copy, Debug, PartialEq, Eq, Structural)]
pub struct PermissionGrant {
    pub channel_id: u64,
    pub overwrite: PermissionOverwrite,
}

#[derive(Clone, Copy, Debug, PartialEq, Eq, Structural)]
pub enum ClaimError {
    /// The user already owns a voice channel of the guild.
    AlreadyOwner,
    /// The user is in no tracked voice channel.
    NotConnected,
    /// The user's voice channel is not cached.
    UnknownChannel,
    /// The voice channel already has an owner.
    AlreadyOwned,
}

/// The decision on a claim: a user who owns nothing and is in an unowned voice channel
/// is granted the permission that the channel's privacy withholds.
pub open spec fn claim_outcome(s: CacheView, guild_id: u64, user_id: u64) -> Result<PermissionGrant, ClaimError> {
    if s.owned_channel(guild_id, user_id) is Some {
        Err(ClaimError::AlreadyOwner)
    } else if s.present_channel(guild_id, user_id) is None {
        Err(ClaimError::NotConnected)
    } else {
        let c = s.present_channel(guild_id, user_id)->0;
        if !s.voice_channels.contains_key(c) {
            Err(ClaimError::UnknownChannel)
        } else if s.voice_channels[c].owner_id is Some {
            Err(ClaimError::AlreadyOwned)
        } else {
            Ok(PermissionGrant {
                channel_id: c,
                overwrite: PermissionOverwrite {
                    allow: privacy_bits(s.voice_channels[c].privacy),
                    deny: 0,
                    id: user_id,
                    kind: OverwriteKind::Member,
                },
            })
        }
    }
}

/// Decides a claim of the voice channel that the user is in.
pub fn plan_claim(cache: &Cache, guild_id: u64, user_id: u64) -> (r: Result<PermissionGrant, ClaimError>)
    ensures
        r == claim_outcome(cache@, guild_id, user_id),
{
    if cache.voice_channel_owner(guild_id, user_id).is_some() {
        return Err(ClaimError::AlreadyOwner);
    }
    let channel_id = match cache.voice_state(guild_id, user_id) {
        Some(c) => c,
        None => {
            return Err(ClaimError::NotConnected);
        },
    };
    let voice_channel = match cache.voice_channel(channel_id) {
        Some(v) => v,
        None => {
            return Err(ClaimError::UnknownChannel);
        },
    };
    if voice_channel.owner_id.is_some() {
        return Err(ClaimError::AlreadyOwned);
    }
    Ok(PermissionGrant {
        channel_id,
        overwrite: PermissionOverwrite {
            allow: privacy_permissions(voice_channel.privacy),
            deny: 0,
            id: user_id,
            kind: OverwriteKind::Member,
        },
    })
}

#[derive(Clone, Copy, Debug, PartialEq, Eq, Structural)]
pub enum OwnershipError {
    /// The user owns no voice channel of the guild.
    NotOwner,
    /// The owned voice channel is not cached.
    UnknownChannel,
}

/// The voice channel that a user owns in a guild, when it is cached.
pub open spec fn owned_outcome(s: CacheView, guild_id: u64, user_id: u64) -> Result<u64, OwnershipError> {
    match s.owned_channel(guild_id, user_id) {
        None => Err(OwnershipError::NotOwner),
        Some(c) => if s.voice_channels.contains_key(c) {
            Ok(c)
        } else {
            Err(OwnershipError::UnknownChannel)
        },
    }
}

/// Looks up the voice channel that a user owns; owner commands act on it.
pub fn owned_voice_channel(cache: &Cache, guild_id: u64, user_id: u64) -> (r: Result<u64, OwnershipError>)
    ensures
        r == owned_outcome(cache@, guild_id, user_id),
{
    match cache.voice_channel_owner(guild_id, user_id) {
        None => Err(OwnershipError::NotOwner),
        Some(c) => if cache.voice_channel(c).is_some() {
            Ok(c)
        } else {
            Err(OwnershipError::UnknownChannel)
        },
    }
}

/// The overwrites with each member overwrite of `from` re-pointed at `to`.
pub open spec fn repoint_member(o: Seq<PermissionOverwrite>, from: u64, to: u64) -> Seq<PermissionOverwrite> {
    Seq::new(o.len(), |i: int|
        if o[i].kind == OverwriteKind::Member && o[i].id == from {
            PermissionOverwrite { id: to, ..o[i] }
        } else {
            o[i]
        })
}

/// A replacement of a channel's whole overwrite list.
pub struct OverwritesChange {
    pub channel_id: u64,
    pub permission_overwrites: Vec<PermissionOverwrite>,
}

#[derive(Clone, Copy, Debug, PartialEq, Eq, Structural)]
pub enum TransferError {
    NotOwner,
    UnknownChannel,
    /// The member is the application itself or already the owner.
    InvalidMember,
    /// The member already owns another voice channel of the guild.
    MemberIsOwner,
}

pub open spec fn transfer_error(
    s: CacheView,
    application_id: u64,
    guild_id: u64,
    user_id: u64,
    member_id: u64,
) -> Option<TransferError> {
    match owned_outcome(s, guild_id, user_id) {
        Err(OwnershipError::NotOwner) => Some(TransferError::NotOwner),
        Err(OwnershipError::UnknownChannel) => Some(TransferError::UnknownChannel),
        Ok(c) => if member_id == application_id || s.voice_channels[c].owner_id == Some(member_id) {
            Some(TransferError::InvalidMember)
        } else if s.owned_channel(guild_id, member_id) is Some {
            Some(TransferError::MemberIsOwner)
        } else {
            None
        },
    }
}

/// Decides a transfer of the user's voice channel to another member: the member
/// overwrite of the user is re-pointed at the member.
pub fn plan_transfer(
    cache: &Cache,
    application_id: u64,
    guild_id: u64,
    user_id: u64,
    member_id: u64,
) -> (r: Result<OverwritesChange, TransferError>)
    ensures
        match r {
            Ok(change) => transfer_error(cache@, application_id, guild_id, user_id, member_id) is None
                && change.channel_id == cache@.owned_channel(guild_id, user_id)->0
                && change.permission_overwrites@ == repoint_member(
                    cache@.voice_channels[change.channel_id].permission_overwrites, user_id, member_id),
            Err(e) => transfer_error(cache@, application_id, guild_id, user_id, member_id) == Some(e),
        },
{
    let channel_id = match owned_voice_channel(cache, guild_id, user_id) {
        Ok(c) => c,
        Err(OwnershipError::NotOwner) => {
            return Err(TransferError::NotOwner);
        },
        Err(OwnershipError::UnknownChannel) => {
            return Err(TransferError::UnknownChannel);
        },
    };
    let voice_channel = match cache.voice_channel(channel_id) {
        Some(v) => v,
        None => {
            return Err(TransferError::UnknownChannel);
        },
    };
    if member_id == application_id || voice_channel.owner_id == Some(member_id) {
        return Err(TransferError::InvalidMember);
    }
    if cache.voice_channel_owner(guild_id, member_id).is_some() {
        return Err(TransferError::MemberIsOwner);
    }
    let old = &voice_channel.permission_overwrites;
    let mut permission_overwrites: Vec<PermissionOverwrite> = Vec::new();
    let mut i: usize = 0;
    while i < old.len()
        invariant
            i <= old.len(),
            permission_overwrites@ == repoint_member(old@, user_id, member_id).take(i as int),
        decreases old.len() - i,
    {
        let o = old[i];
        let n = if o.kind == OverwriteKind::Member && o.id == user_id {
            PermissionOverwrite { id: member_id, ..o }
        } else {
            o
        };
        permission_overwrites.push(n);
        proof {
            assert(repoint_member(old@, user_id, member_id).take(i + 1)
                =~= repoint_member(old@, user_id, member_id).take(i as int).push(n));
        }
        i += 1;
    }
    proof {
        assert(repoint_member(old@, user_id, member_id).take(old.len() as int) =~= repoint_member(old@, user_id, member_id));
    }
    Ok(OverwritesChange { channel_id, permission_overwrites })
}

/// One overwrite of a voice channel after its privacy changes to a level that withholds
/// `bits`: the owner's member overwrite, and any other member overwrite that grants or
/// denies something without denying VIEW_CHANNEL, is allowed `bits`; the bot role is
/// allowed and everyone is denied `bits`.
pub open spec fn voice_privacy_overwrite(
    o: PermissionOverwrite,
    bits: u64,
    owner_id: Option<u64>,
    bot_role_id: u64,
    guild_id: u64,
) -> PermissionOverwrite {
    if o.kind == OverwriteKind::Member {
        let allow = if owner_id == Some(o.id) { bits } else { o.allow };
        if (o.deny == 0 && allow == 0) || o.deny & VIEW_CHANNEL != 0 {
            PermissionOverwrite { allow, ..o }
        } else {
            PermissionOverwrite { allow: bits, ..o }
        }
    } else {
        PermissionOverwrite {
            allow: if o.id == bot_role_id { bits } else { o.allow },
            deny: if o.id == guild_id { bits } else { o.deny },
            ..o
        }
    }
}

pub open spec fn voice_privacy_overwrites(
    o: Seq<PermissionOverwrite>,
    bits: u64,
    owner_id: Option<u64>,
    bot_role_id: u64,
    guild_id: u64,
) -> Seq<PermissionOverwrite> {
    Seq::new(o.len(), |i: int| voice_privacy_overwrite(o[i], bits, owner_id, bot_role_id, guild_id))
}

/// A new privacy level for a channel, with the overwrites that go with it.
pub struct PrivacyChange {
    pub channel_id: u64,
    pub privacy: ChannelPrivacy,
    pub permission_overwrites: Vec<PermissionOverwrite>,
}

#[derive(Clone, Copy, Debug, PartialEq, Eq, Structural)]
pub enum SettingError {
    NotOwner,
    UnknownChannel,
    /// The channel already has the requested setting.
    Unchanged,
}

pub open spec fn setting_error(owned: Result<u64, OwnershipError>) -> SettingError {
    match owned {
        Err(OwnershipError::NotOwner) => SettingError::NotOwner,
        _ => SettingError::UnknownChannel,
    }
}

/// Decides a change of privacy of the user's voice channel.
pub fn plan_voice_privacy(cache: &Cache, guild_id: u64, user_id: u64, level: &str) -> (r: Result<PrivacyChange, SettingError>)
    ensures
        match owned_outcome(cache@, guild_id, user_id) {
            Err(e) => r == Err::<PrivacyChange, SettingError>(setting_error(Err(e))),
            Ok(c) => {
                let v = cache@.voice_channels[c];
                let privacy = privacy_named(level@);
                if v.privacy == privacy {
                    r == Err::<PrivacyChange, SettingError>(SettingError::Unchanged)
                } else {
                    r matches Ok(change) && change.channel_id == c && change.privacy == privacy
                        && change.permission_overwrites@ == voice_privacy_overwrites(
                            v.permission_overwrites,
                            privacy_bits(privacy),
                            v.owner_id,
                            cache@.guilds[guild_id].bot_role_id,
                            guild_id,
                        )
                }
            },
        },
{
    let channel_id = match owned_voice_channel(cache, guild_id, user_id) {
        Ok(c) => c,
        Err(OwnershipError::NotOwner) => {
            return Err(SettingError::NotOwner);
        },
        Err(OwnershipError::UnknownChannel) => {
            return Err(SettingError::UnknownChannel);
        },
    };
    let voice_channel = match cache.voice_channel(channel_id) {
        Some(v) => v,
        None => {
            return Err(SettingError::UnknownChannel);
        },
    };
    let bot_role_id = match cache.guild(guild_id) {
        Some(g) => g.bot_role_id,
        None => {
            return Err(SettingError::UnknownChannel);
        },
    };
    let privacy = parse_privacy(level);
    if voice_channel.privacy == privacy {
        return Err(SettingError::Unchanged);
    }
    let bits = privacy_permissions(privacy);
    let owner_id = voice_channel.owner_id;
    let old = &voice_channel.permission_overwrites;
    let ghost target = voice_privacy_overwrites(old@, bits, owner_id, bot_role_id, guild_id);
    let mut permission_overwrites: Vec<PermissionOverwrite> = Vec::new();
    let mut i: usize = 0;
    while i < old.len()
        invariant
            i <= old.len(),
            target == voice_privacy_overwrites(old@, bits, owner_id, bot_role_id, guild_id),
            permission_overwrites@ == target.take(i as int),
        decreases old.len() - i,
    {
        let o = old[i];
        let n = if o.kind == OverwriteKind::Member {
            let allow = if owner_id == Some(o.id) { bits } else { o.allow };
            if (o.deny == 0 && allow == 0) || o.deny & VIEW_CHANNEL != 0 {
                PermissionOverwrite { allow, ..o }
            } else {
                PermissionOverwrite { allow: bits, ..o }
            }
        } else {
            PermissionOverwrite {
                allow: if o.id == bot_role_id { bits } else { o.allow },
                deny: if o.id == guild_id { bits } else { o.deny },
                ..o
            }
        };
        permission_overwrites.push(n);
        proof {
            assert(target.take(i + 1) =~= target.take(i as int).push(n));
        }
        i += 1;
    }
    proof {
        assert(target.take(old.len() as int) =~= target);
    }
    Ok(PrivacyChange { channel_id, privacy, permission_overwrites })
}

/// The first member overwrite of `member_id`, if any.
pub open spec fn member_overwrite(o: Seq<PermissionOverwrite>, member_id: u64) -> Option<PermissionOverwrite>
    decreases o.len(),
{
    if o.len() == 0 {
        None
    } else if o[0].kind == OverwriteKind::Member && o[0].id == member_id {
        Some(o[0])
    } else {
        member_overwrite(o.drop_first(), member_id)
    }
}

fn find_member_overwrite(o: &Vec<PermissionOverwrite>, member_id: u64) -> (r: Option<PermissionOverwrite>)
    ensures
        r == member_overwrite(o@, member_id),
{
    let mut i: usize = 0;
    proof {
        assert(o@.subrange(0, o.len() as int) =~= o@);
    }
    while i < o.len()
        invariant
            i <= o.len(),
            member_overwrite(o@, member_id) == member_overwrite(o@.subrange(i as int, o.len() as int), member_id),
        decreases o.len() - i,
    {
        let x = o[i];
        proof {
            assert(o@.subrange(i as int, o.len() as int)[0] == x);
            assert(o@.subrange(i as int, o.len() as int).drop_first() =~= o@.subrange(i + 1, o.len() as int));
        }
        if x.kind == OverwriteKind::Member && x.id == member_id {
            return Some(x);
        }
        i += 1;
    }
    proof {
        assert(o@.subrange(i as int, o.len() as int).len() == 0);
    }
    None
}

#[derive(Clone, Copy, Debug, PartialEq, Eq, Structural)]
pub enum MemberError {
    NotOwner,
    UnknownChannel,
    /// The member is the application itself or the owner.
    InvalidMember,
    /// The member is already allowed what the privacy level withholds.
    AlreadyAllowed,
}

/// Both permission bits that privacy levels withhold.
pub open spec fn privacy_mask() -> u64 {
    crate::model::CONNECT | VIEW_CHANNEL
}

/// The member overwrite that lets `member_id` into a voice channel: the member's earlier
/// grants and denials of CONNECT and VIEW_CHANNEL are dropped and the privacy bits allowed.
pub open spec fn allowed_member_overwrite(previous: Option<PermissionOverwrite>, bits: u64, member_id: u64) -> PermissionOverwrite {
    let (allow, deny) = match previous {
        Some(p) => (p.allow, p.deny),
        None => (0u64, 0u64),
    };
    PermissionOverwrite {
        allow: (allow & !privacy_mask()) | bits,
        deny: deny & !privacy_mask(),
        id: member_id,
        kind: OverwriteKind::Member,
    }
}

pub open spec fn allow_member_outcome(
    s: CacheView,
    application_id: u64,
    guild_id: u64,
    user_id: u64,
    member_id: u64,
) -> Result<PermissionGrant, MemberError> {
    match owned_outcome(s, guild_id, user_id) {
        Err(OwnershipError::NotOwner) => Err(MemberError::NotOwner),
        Err(OwnershipError::UnknownChannel) => Err(MemberError::UnknownChannel),
        Ok(c) => {
            let v = s.voice_channels[c];
            let previous = member_overwrite(v.permission_overwrites, member_id);
            let bits = privacy_bits(v.privacy);
            let allow = match previous {
                Some(p) => p.allow,
                None => 0u64,
            };
            if member_id == application_id || v.owner_id == Some(member_id) {
                Err(MemberError::InvalidMember)
            } else if allow & bits == bits {
                Err(MemberError::AlreadyAllowed)
            } else {
                Ok(PermissionGrant { channel_id: c, overwrite: allowed_member_overwrite(previous, bits, member_id) })
            }
        },
    }
}

/// Decides letting a member into the user's voice channel.
pub fn plan_allow_member(
    cache: &Cache,
    application_id: u64,
    guild_id: u64,
    user_id: u64,
    member_id: u64,
) -> (r: Result<PermissionGrant, MemberError>)
    ensures
        r == allow_member_outcome(cache@, application_id, guild_id, user_id, member_id),
{
    let channel_id = match owned_voice_channel(cache, guild_id, user_id) {
        Ok(c) => c,
        Err(OwnershipError::NotOwner) => {
            return Err(MemberError::NotOwner);
        },
        Err(OwnershipError::UnknownChannel) => {
            return Err(MemberError::UnknownChannel);
        },
    };
    let voice_channel = match cache.voice_channel(channel_id) {
        Some(v) => v,
        None => {
            return Err(MemberError::UnknownChannel);
        },
    };
    let previous = find_member_overwrite(&voice_channel.permission_overwrites, member_id);
    let bits = privacy_permissions(voice_channel.privacy);
    let (allow, deny) = match previous {
        Some(p) => (p.allow, p.deny),
        None => (0u64, 0u64),
    };
    if member_id == application_id || voice_channel.owner_id == Some(member_id) {
        return Err(MemberError::InvalidMember);
    }
    if allow & bits == bits {
        return Err(MemberError::AlreadyAllowed);
    }
    let mask: u64 = crate::model::CONNECT | VIEW_CHANNEL;
    Ok(PermissionGrant {
        channel_id,
        overwrite: PermissionOverwrite {
            allow: (allow & !mask) | bits,
            deny: deny & !mask,
            id: member_id,
            kind: OverwriteKind::Member,
        },
    })
}

/// What removing a member from the user's voice channel takes: deleting the member's
/// overwrite, when there is one, and disconnecting the member, when in the channel.
#[derive(Clone, Copy, Debug, PartialEq, Eq, Structural)]
pub struct MemberRemoval {
    pub channel_id: u64,
    pub delete_overwrite: bool,
    pub disconnect: bool,
}

pub open spec fn remove_member_outcome(
    s: CacheView,
    application_id: u64,
    guild_id: u64,
    user_id: u64,
    member_id: u64,
) -> Result<MemberRemoval, MemberError> {
    match owned_outcome(s, guild_id, user_id) {
        Err(OwnershipError::NotOwner) => Err(MemberError::NotOwner),
        Err(OwnershipError::UnknownChannel) => Err(MemberError::UnknownChannel),
        Ok(c) => {
            let v = s.voice_channels[c];
            if member_id == application_id || v.owner_id == Some(member_id) {
                Err(MemberError::InvalidMember)
            } else {
                Ok(MemberRemoval {
                    channel_id: c,
                    delete_overwrite: member_overwrite(v.permission_overwrites, member_id) is Some,
                    disconnect: s.present_channel(guild_id, member_id) == Some(c),
                })
            }
        },
    }
}

/// Decides removing a member from the user's voice channel.
pub fn plan_remove_member(
    cache: &Cache,
    application_id: u64,
    guild_id: u64,
    user_id: u64,
    member_id: u64,
) -> (r: Result<MemberRemoval, MemberError>)
    ensures
        r == remove_member_outcome(cache@, application_id, guild_id, user_id, member_id),
{
    let channel_id = match owned_voice_channel(cache, guild_id, user_id) {
        Ok(c) => c,
        Err(OwnershipError::NotOwner) => {
            return Err(MemberError::NotOwner);
        },
        Err(OwnershipError::UnknownChannel) => {
            return Err(MemberError::UnknownChannel);
        },
    };
    let voice_channel = match cache.voice_channel(channel_id) {
        Some(v) => v,
        None => {
            return Err(MemberError::UnknownChannel);
        },
    };
    if member_id == application_id || voice_channel.owner_id == Some(member_id) {
        return Err(MemberError::InvalidMember);
    }
    let delete_overwrite = find_member_overwrite(&voice_channel.permission_overwrites, member_id).is_some();
    let disconnect = cache.voice_state(guild_id, member_id) == Some(channel_id);
    Ok(MemberRemoval { channel_id, delete_overwrite, disconnect })
}

/// Decides a new user limit for the user's voice channel; zero means no limit.
pub fn plan_user_limit(cache: &Cache, guild_id: u64, user_id: u64, limit: u32) -> (r: Result<(u64, Option<u32>), SettingError>)
    ensures
        match owned_outcome(cache@, guild_id, user_id) {
            Err(e) => r == Err::<(u64, Option<u32>), SettingError>(setting_error(Err(e))),
            Ok(c) => {
                let wanted = if limit == 0 { None } else { Some(limit) };
                if cache@.voice_channels[c].user_limit == wanted {
                    r == Err::<(u64, Option<u32>), SettingError>(SettingError::Unchanged)
                } else {
                    r == Ok::<(u64, Option<u32>), SettingError>((c, wanted))
                }
            },
        },
{
    let channel_id = match owned_voice_channel(cache, guild_id, user_id) {
        Ok(c) => c,
        Err(OwnershipError::NotOwner) => {
            return Err(SettingError::NotOwner);
        },
        Err(OwnershipError::UnknownChannel) => {
            return Err(SettingError::UnknownChannel);
        },
    };
    let voice_channel = match cache.voice_channel(channel_id) {
        Some(v) => v,
        None => {
            return Err(SettingError::UnknownChannel);
        },
    };
    let wanted = if limit == 0 { None } else { Some(limit) };
    if voice_channel.user_limit == wanted {
        return Err(SettingError::Unchanged);
    }
    Ok((channel_id, wanted))
}

/// Decides a new slow mode, in seconds, for the user's voice channel; zero turns it off.
pub fn plan_slow_mode(cache: &Cache, guild_id: u64, user_id: u64, seconds: u16) -> (r: Result<(u64, Option<u16>), SettingError>)
    ensures
        match owned_outcome(cache@, guild_id, user_id) {
            Err(e) => r == Err::<(u64, Option<u16>), SettingError>(setting_error(Err(e))),
            Ok(c) => {
                let wanted = if seconds == 0 { None } else { Some(seconds) };
                if cache@.voice_channels[c].rate_limit_per_user == wanted {
                    r == Err::<(u64, Option<u16>), SettingError>(SettingError::Unchanged)
                } else {
                    r == Ok::<(u64, Option<u16>), SettingError>((c, wanted))
                }
            },
        },
{
    let channel_id = match owned_voice_channel(cache, guild_id, user_id) {
        Ok(c) => c,
        Err(OwnershipError::NotOwner) => {
            return Err(SettingError::NotOwner);
        },
        Err(OwnershipError::UnknownChannel) => {
            return Err(SettingError::UnknownChannel);
        },
    };
    let voice_channel = match cache.voice_channel(channel_id) {
        Some(v) => v,
        None => {
            return Err(SettingError::UnknownChannel);
        },
    };
    let wanted = if seconds == 0 { None } else { Some(seconds) };
    if voice_channel.rate_limit_per_user == wanted {
        return Err(SettingError::Unchanged);
    }
    Ok((channel_id, wanted))
}

/// What a join channel creation command asked for; absent options take their defaults.
pub struct JoinChannelOptions {
    pub name: Option<String>,
    pub access_role_id: Option<u64>,
    pub parent_id: Option<u64>,
    pub permanence: Option<bool>,
    pub privacy: Option<String>,
}

/// A join channel to create.
pub struct JoinChannelPlan {
    pub guild_id: u64,
    pub name: String,
    pub access_role_id: Option<u64>,
    pub parent_id: Option<u64>,
    pub permanence: bool,
    pub privacy: ChannelPrivacy,
    pub permission_overwrites: Vec<PermissionOverwrite>,
}

#[derive(Clone, Copy, Debug, PartialEq, Eq, Structural)]
pub enum JoinChannelError {
    /// The guild already has as many join channels as it may.
    LimitReached,
    /// The bot role and the everyone role cannot be access roles.
    ForbiddenAccessRole,
}

/// The name of a guild's join channel when none is given: "join-<n>", where n counts
/// the new channel among the guild's join channels.
pub open spec fn default_join_name(count: nat) -> Seq<char> {
    if count == 0 {
        seq!['j', 'o', 'i', 'n', '-', '1']
    } else if count == 1 {
        seq!['j', 'o', 'i', 'n', '-', '2']
    } else {
        seq!['j', 'o', 'i', 'n', '-', '3']
    }
}

/// The overwrites of a new join channel: the bot role and the access role are allowed
/// and everyone is denied what the privacy level withholds.
pub open spec fn join_overwrites(bot_role_id: u64, guild_id: u64, access_role_id: Option<u64>, bits: u64) -> Seq<PermissionOverwrite> {
    let base = seq![
        PermissionOverwrite { allow: bits, deny: 0, id: bot_role_id, kind: OverwriteKind::Role },
        PermissionOverwrite { allow: 0, deny: bits, id: guild_id, kind: OverwriteKind::Role },
    ];
    match access_role_id {
        Some(r) => base.push(PermissionOverwrite { allow: bits, deny: 0, id: r, kind: OverwriteKind::Role }),
        None => base,
    }
}

pub open spec fn join_channel_error(g: crate::store::GuildView, access_role_id: Option<u64>) -> Option<JoinChannelError> {
    if g.join_channel_ids.len() >= JOIN_CHANNEL_LIMIT {
        Some(JoinChannelError::LimitReached)
    } else if access_role_id matches Some(r) && (r == g.bot_role_id || r == g.id) {
        Some(JoinChannelError::ForbiddenAccessRole)
    } else {
        None
    }
}

/// Decides the creation of a join channel in a guild.
pub fn plan_join_channel(guild: &CachedGuild, options: JoinChannelOptions) -> (r: Result<JoinChannelPlan, JoinChannelError>)
    ensures
        match r {
            Err(e) => join_channel_error(guild@, options.access_role_id) == Some(e),
            Ok(plan) => {
                let privacy = match options.privacy {
                    Some(p) => privacy_named(p@),
                    None => ChannelPrivacy::Unlocked,
                };
                &&& join_channel_error(guild@, options.access_role_id) is None
                &&& plan.guild_id == guild.id
                &&& plan.name@ == match options.name {
                    Some(n) => n@,
                    None => default_join_name(guild@.join_channel_ids.len()),
                }
                &&& plan.access_role_id == options.access_role_id
                &&& plan.parent_id == options.parent_id
                &&& plan.permanence == match options.permanence {
                    Some(p) => p,
                    None => false,
                }
                &&& plan.privacy == privacy
                &&& plan.permission_overwrites@ == join_overwrites(guild.bot_role_id, guild.id, options.access_role_id, privacy_bits(privacy))
            },
        },
{
    let count = guild.join_channel_ids.len();
    if count >= JOIN_CHANNEL_LIMIT {
        return Err(JoinChannelError::LimitReached);
    }
    match options.access_role_id {
        Some(r) => if r == guild.bot_role_id || r == guild.id {
            return Err(JoinChannelError::ForbiddenAccessRole);
        },
        None => {},
    }
    let name = match options.name {
        Some(n) => n,
        None => {
            proof {
                reveal_strlit("join-1");
                reveal_strlit("join-2");
                reveal_strlit("join-3");
            }
            if count == 0 {
                "join-1".to_owned()
            } else if count == 1 {
                "join-2".to_owned()
            } else {
                "join-3".to_owned()
            }
        },
    };
    let privacy = match &options.privacy {
        Some(p) => parse_privacy(p.as_str()),
        None => ChannelPrivacy::Unlocked,
    };
    let bits = privacy_permissions(privacy);
    let mut permission_overwrites = vec![
        PermissionOverwrite { allow: bits, deny: 0, id: guild.bot_role_id, kind: OverwriteKind::Role },
        PermissionOverwrite { allow: 0, deny: bits, id: guild.id, kind: OverwriteKind::Role },
    ];
    match options.access_role_id {
        Some(r) => {
            permission_overwrites.push(PermissionOverwrite { allow: bits, deny: 0, id: r, kind: OverwriteKind::Role });
        },
        None => {},
    }
    proof {
        assert(permission_overwrites@ =~= join_overwrites(guild.bot_role_id, guild.id, options.access_role_id, bits));
    }
    Ok(JoinChannelPlan {
        guild_id: guild.id,
        name,
        access_role_id: options.access_role_id,
        parent_id: options.parent_id,
        permanence: match options.permanence {
            Some(p) => p,
            None => false,
        },
        privacy,
        permission_overwrites,
    })
}

/// The row persisted for a join channel created from `plan`.
pub fn join_channel_row(plan: &JoinChannelPlan, id: u64) -> (r: JoinChannel)
    ensures
        r == (JoinChannel {
            id,
            guild_id: plan.guild_id,
            access_role_id: plan.access_role_id,
            parent_id: plan.parent_id,
            permanence: plan.permanence,
            privacy: plan.privacy,
        }),
{
    JoinChannel {
        id,
        guild_id: plan.guild_id,
        access_role_id: plan.access_role_id,
        parent_id: plan.parent_id,
        permanence: plan.permanence,
        privacy: plan.privacy,
    }
}

/// One role overwrite of a join channel after its privacy changes to a level that
/// withholds `bits`: the bot role and the access role are allowed, everyone is denied
/// `bits`; member overwrites stay as they are.
pub open spec fn join_privacy_overwrite(
    o: PermissionOverwrite,
    bits: u64,
    access_role_id: Option<u64>,
    bot_role_id: u64,
    guild_id: u64,
) -> PermissionOverwrite {
    if o.kind == OverwriteKind::Role {
        PermissionOverwrite {
            allow: if o.id == bot_role_id || access_role_id == Some(o.id) { bits } else { o.allow },
            deny: if o.id == guild_id { bits } else { o.deny },
            ..o
        }
    } else {
        o
    }
}

pub open spec fn join_privacy_overwrites(
    o: Seq<PermissionOverwrite>,
    bits: u64,
    access_role_id: Option<u64>,
    bot_role_id: u64,
    guild_id: u64,
) -> Seq<PermissionOverwrite> {
    Seq::new(o.len(), |i: int| join_privacy_overwrite(o[i], bits, access_role_id, bot_role_id, guild_id))
}

#[derive(Clone, Copy, Debug, PartialEq, Eq, Structural)]
pub enum JoinSettingError {
    /// No join channel of this guild has that id.
    UnknownChannel,
    /// The join channel already has the requested setting.
    Unchanged,
}

/// Whether `channel_id` is a cached join channel of the guild.
pub open spec fn is_guild_join_channel(s: CacheView, guild_id: u64, channel_id: u64) -> bool {
    s.join_channels.contains_key(channel_id) && s.join_channels[channel_id].guild_id == guild_id
        && s.guilds.contains_key(guild_id)
}

/// Decides a change of privacy of a join channel of the guild.
pub fn plan_join_privacy(cache: &Cache, guild_id: u64, channel_id: u64, level: &str) -> (r: Result<PrivacyChange, JoinSettingError>)
    ensures
        !is_guild_join_channel(cache@, guild_id, channel_id) ==> r == Err::<PrivacyChange, JoinSettingError>(JoinSettingError::UnknownChannel),
        is_guild_join_channel(cache@, guild_id, channel_id) ==> {
            let j = cache@.join_channels[channel_id];
            let privacy = privacy_named(level@);
            if j.privacy == privacy {
                r == Err::<PrivacyChange, JoinSettingError>(JoinSettingError::Unchanged)
            } else {
                r matches Ok(change) && change.channel_id == channel_id && change.privacy == privacy
                    && change.permission_overwrites@ == join_privacy_overwrites(
                        j.permission_overwrites,
                        privacy_bits(privacy),
                        j.access_role_id,
                        cache@.guilds[guild_id].bot_role_id,
                        guild_id,
                    )
            }
        },
{
    let join_channel = match cache.join_channel(channel_id) {
        Some(j) => j,
        None => {
            return Err(JoinSettingError::UnknownChannel);
        },
    };
    if join_channel.guild_id != guild_id {
        return Err(JoinSettingError::UnknownChannel);
    }
    let bot_role_id = match cache.guild(guild_id) {
        Some(g) => g.bot_role_id,
        None => {
            return Err(JoinSettingError::UnknownChannel);
        },
    };
    let privacy = parse_privacy(level);
    if join_channel.privacy == privacy {
        return Err(JoinSettingError::Unchanged);
    }
    let bits = privacy_permissions(privacy);
    let access_role_id = join_channel.access_role_id;
    let old = &join_channel.permission_overwrites;
    let ghost target = join_privacy_overwrites(old@, bits, access_role_id, bot_role_id, guild_id);
    let mut permission_overwrites: Vec<PermissionOverwrite> = Vec::new();
    let mut i: usize = 0;
    while i < old.len()
        invariant
            i <= old.len(),
            target == join_privacy_overwrites(old@, bits, access_role_id, bot_role_id, guild_id),
            permission_overwrites@ == target.take(i as int),
        decreases old.len() - i,
    {
        let o = old[i];
        let n = if o.kind == OverwriteKind::Role {
            PermissionOverwrite {
                allow: if o.id == bot_role_id || access_role_id == Some(o.id) { bits } else { o.allow },
                deny: if o.id == guild_id { bits } else { o.deny },
                ..o
            }
        } else {
            o
        };
        permission_overwrites.push(n);
        proof {
            assert(target.take(i + 1) =~= target.take(i as int).push(n));
        }
        i += 1;
    }
    proof {
        assert(target.take(old.len() as int) =~= target);
    }
    Ok(PrivacyChange { channel_id, privacy, permission_overwrites })
}

/// Decides a change of the access role of a join channel of the guild; on success the
/// previous access role is handed back, so that its permission can be withdrawn.
pub fn plan_access_role(cache: &Cache, guild_id: u64, channel_id: u64, role_id: Option<u64>) -> (r: Result<Option<u64>, JoinSettingError>)
    ensures
        !is_guild_join_channel(cache@, guild_id, channel_id) ==> r == Err::<Option<u64>, JoinSettingError>(JoinSettingError::UnknownChannel),
        is_guild_join_channel(cache@, guild_id, channel_id) ==> {
            let previous = cache@.join_channels[channel_id].access_role_id;
            if previous == role_id {
                r == Err::<Option<u64>, JoinSettingError>(JoinSettingError::Unchanged)
            } else {
                r == Ok::<Option<u64>, JoinSettingError>(previous)
            }
        },
{
    let join_channel = match cache.join_channel(channel_id) {
        Some(j) => j,
        None => {
            return Err(JoinSettingError::UnknownChannel);
        },
    };
    if join_channel.guild_id != guild_id || cache.guild(guild_id).is_none() {
        return Err(JoinSettingError::UnknownChannel);
    }
    if join_channel.access_role_id == role_id {
        return Err(JoinSettingError::Unchanged);
    }
    Ok(join_channel.access_role_id)
}

/// Decides a change of the category that voice channels of a join channel are created
/// under.
pub fn plan_join_category(cache: &Cache, guild_id: u64, channel_id: u64, parent_id: Option<u64>) -> (r: Result<(), JoinSettingError>)
    ensures
        !is_guild_join_channel(cache@, guild_id, channel_id) ==> r == Err::<(), JoinSettingError>(JoinSettingError::UnknownChannel),
        is_guild_join_channel(cache@, guild_id, channel_id) ==> if cache@.join_channels[channel_id].parent_id == parent_id {
            r == Err::<(), JoinSettingError>(JoinSettingError::Unchanged)
        } else {
            r == Ok::<(), JoinSettingError>(())
        },
{
    let join_channel = match cache.join_channel(channel_id) {
        Some(j) => j,
        None => {
            return Err(JoinSettingError::UnknownChannel);
        },
    };
    if join_channel.guild_id != guild_id || cache.guild(guild_id).is_none() {
        return Err(JoinSettingError::UnknownChannel);
    }
    if join_channel.parent_id == parent_id {
        return Err(JoinSettingError::Unchanged);
    }
    Ok(())
}

/// Decides a rename of a join channel.
pub fn plan_join_name(cache: &Cache, guild_id: u64, channel_id: u64, name: &str) -> (r: Result<(), JoinSettingError>)
    ensures
        !is_guild_join_channel(cache@, guild_id, channel_id) ==> r == Err::<(), JoinSettingError>(JoinSettingError::UnknownChannel),
        is_guild_join_channel(cache@, guild_id, channel_id) ==> if cache@.join_channels[channel_id].name == name@ {
            r == Err::<(), JoinSettingError>(JoinSettingError::Unchanged)
        } else {
            r == Ok::<(), JoinSettingError>(())
        },
{
    let join_channel = match cache.join_channel(channel_id) {
        Some(j) => j,
        None => {
            return Err(JoinSettingError::UnknownChannel);
        },
    };
    if join_channel.guild_id != guild_id || cache.guild(guild_id).is_none() {
        return Err(JoinSettingError::UnknownChannel);
    }
    if str_equals(join_channel.name.as_str(), name) {
        return Err(JoinSettingError::Unchanged);
    }
    Ok(())
}

pub open spec fn automatic_text() -> Seq<char> {
    seq!['a', 'u', 't', 'o', 'm', 'a', 't', 'i', 'c']
}

/// The voice region asked for: "automatic" leaves the choice to the platform.
pub open spec fn region_named(region: Seq<char>) -> Option<Seq<char>> {
    if region == automatic_text() {
        None
    } else {
        Some(region)
    }
}

/// Decides a new voice region for the user's voice channel.
pub fn plan_voice_region(cache: &Cache, guild_id: u64, user_id: u64, region: &str) -> (r: Result<(u64, Option<String>), SettingError>)
    ensures
        match owned_outcome(cache@, guild_id, user_id) {
            Err(e) => r matches Err(x) && x == setting_error(Err(e)),
            Ok(c) => if cache@.voice_channels[c].rtc_region == region_named(region@) {
                r matches Err(x) && x == SettingError::Unchanged
            } else {
                r matches Ok((id, wanted)) && id == c && crate::store::opt_string_view(wanted) == region_named(region@)
            },
        },
{
    let channel_id = match owned_voice_channel(cache, guild_id, user_id) {
        Ok(c) => c,
        Err(OwnershipError::NotOwner) => {
            return Err(SettingError::NotOwner);
        },
        Err(OwnershipError::UnknownChannel) => {
            return Err(SettingError::UnknownChannel);
        },
    };
    let voice_channel = match cache.voice_channel(channel_id) {
        Some(v) => v,
        None => {
            return Err(SettingError::UnknownChannel);
        },
    };
    let automatic = "automatic";
    proof {
        reveal_strlit("automatic");
        assert(automatic@ =~= automatic_text());
    }
    let wanted: Option<String> = if str_equals(region, automatic) {
        None
    } else {
        Some(region.to_owned())
    };
    let unchanged = match (&voice_channel.rtc_region, &wanted) {
        (Some(a), Some(b)) => str_equals(a.as_str(), b.as_str()),
        (None, None) => true,
        _ => false,
    };
    if unchanged {
        return Err(SettingError::Unchanged);
    }
    Ok((channel_id, wanted))
}

} // verus!
