use vstd::prelude::*;

use crate::cache::Cache;
use crate::model::{
    privacy_bits, privacy_permissions, ChannelPrivacy, OverwriteKind, PermissionOverwrite,
    VideoQualityMode, DEFAULT_BITRATE,
};
use crate::store::{opt_string_view, CacheView, VoiceChannelView};
use crate::text::{voice_channel_name, voice_channel_name_of};

verus! {

/// A request to create a voice channel for a user who entered a join channel.
pub struct CreateVoiceChannel {
    pub guild_id: u64,
    pub user_id: u64,
    pub name: String,
    pub parent_id: Option<u64>,
    pub permission_overwrites: Vec<PermissionOverwrite>,
    pub permanence: bool,
    pub privacy: ChannelPrivacy,
}

/// What the platform reported back for a channel that it created.
pub struct CreatedChannel {
    pub id: u64,
    pub bitrate: Option<u32>,
    pub permission_overwrites: Option<Vec<PermissionOverwrite>>,
    pub rate_limit_per_user: Option<u16>,
    pub rtc_region: Option<String>,
    pub user_limit: Option<u32>,
    pub video_quality_mode: Option<VideoQualityMode>,
}

/// A request to move a member into a voice channel.
#[derive(Clone, Copy, Debug, PartialEq, Eq, Structural)]
pub struct MoveMember {
    pub guild_id: u64,
    pub user_id: u64,
    pub channel_id: u64,
}

/// The remote work that a voice presence change asks for: a voice channel to delete,
/// and a voice channel to create.
pub struct PresenceOutcome {
    pub delete_channel: Option<u64>,
    pub create_channel: Option<CreateVoiceChannel>,
}

/// The overwrites of a newly created voice channel: the bot role is allowed and
/// everyone else is denied the permission that the privacy level withholds.
pub open spec fn creation_overwrites(bot_role_id: u64, guild_id: u64, privacy: ChannelPrivacy) -> Seq<PermissionOverwrite> {
    seq![
        PermissionOverwrite { allow: privacy_bits(privacy), deny: 0, id: bot_role_id, kind: OverwriteKind::Role },
        PermissionOverwrite { allow: 0, deny: privacy_bits(privacy), id: guild_id, kind: OverwriteKind::Role },
    ]
}

/// Whether a presence change is handled at all: bots and unknown guilds are ignored.
pub open spec fn presence_handled(s: CacheView, guild_id: u64, is_bot: bool) -> bool {
    !is_bot && s.guilds.contains_key(guild_id)
}

/// The voice channel to delete when a user leaves their tracked voice channel: one
/// that is not permanent and that has nobody else left in it.
pub open spec fn teardown_target(s: CacheView, guild_id: u64, user_id: u64) -> Option<u64> {
    match s.present_channel(guild_id, user_id) {
        Some(c) => if s.voice_channels.contains_key(c) && !s.voice_channels[c].permanence
            && s.voice_channels[c].connected_user_ids.remove(user_id).is_empty() {
            Some(c)
        } else {
            None
        },
        None => None,
    }
}

/// The store after a presence change: the user's old presence is forgotten and the
/// new one recorded when it is inside a cached voice channel of the guild.
pub open spec fn after_presence(
    s: CacheView,
    guild_id: u64,
    user_id: u64,
    is_bot: bool,
    channel_id: Option<u64>,
) -> CacheView {
    if presence_handled(s, guild_id, is_bot) {
        let left = s.remove_presence(guild_id, user_id);
        match channel_id {
            Some(c) => left.add_presence(guild_id, user_id, c),
            None => left,
        }
    } else {
        s
    }
}

/// The voice channel that a presence change asks to delete.
pub open spec fn presence_deletes(
    s: CacheView,
    guild_id: u64,
    user_id: u64,
    is_bot: bool,
    channel_id: Option<u64>,
) -> Option<u64> {
    if presence_handled(s, guild_id, is_bot) {
        teardown_target(s, guild_id, user_id)
    } else {
        None
    }
}

/// Whether a presence change asks for a new voice channel: the user entered a join
/// channel and owns no voice channel of the guild.
pub open spec fn presence_creates(
    s: CacheView,
    guild_id: u64,
    user_id: u64,
    is_bot: bool,
    channel_id: Option<u64>,
) -> bool {
    &&& presence_handled(s, guild_id, is_bot)
    &&& channel_id is Some
    &&& s.owned_channel(guild_id, user_id) is None
    &&& s.join_channels.contains_key(channel_id->0)
}

/// Whether `req` is the creation request for a user entering join channel `join_id`.
pub open spec fn is_creation_request(
    s: CacheView,
    req: CreateVoiceChannel,
    guild_id: u64,
    user_id: u64,
    username: Seq<char>,
    join_id: u64,
) -> bool {
    let j = s.join_channels[join_id];
    &&& req.guild_id == guild_id
    &&& req.user_id == user_id
    &&& req.name@ == voice_channel_name_of(username)
    &&& req.parent_id == j.parent_id
    &&& req.permission_overwrites@ == creation_overwrites(s.guilds[guild_id].bot_role_id, guild_id, j.privacy)
    &&& req.permanence == j.permanence
    &&& req.privacy == j.privacy
}

/// Handles a change of a member's voice presence. The user's tracked presence moves to
/// the new channel; a non-permanent voice channel that the user leaves empty is handed
/// back for deletion; entering a join channel, for a user who owns no voice channel of
/// the guild, hands back the creation request for a new voice channel.
pub fn on_voice_presence(
    cache: &mut Cache,
    guild_id: u64,
    user_id: u64,
    is_bot: bool,
    username: &str,
    channel_id: Option<u64>,
) -> (r: PresenceOutcome)
    requires
        old(cache).wf(),
    ensures
        final(cache).wf(),
        final(cache)@ == after_presence(old(cache)@, guild_id, user_id, is_bot, channel_id),
        r.delete_channel == presence_deletes(old(cache)@, guild_id, user_id, is_bot, channel_id),
        match r.create_channel {
            Some(req) => presence_creates(old(cache)@, guild_id, user_id, is_bot, channel_id)
                && is_creation_request(old(cache)@, req, guild_id, user_id, username@, channel_id->0),
            None => !presence_creates(old(cache)@, guild_id, user_id, is_bot, channel_id),
        },
{
    let ghost s0 = cache@;
    let bot_role_id = match cache.guild(guild_id) {
        Some(guild) => guild.bot_role_id,
        None => {
            return PresenceOutcome { delete_channel: None, create_channel: None };
        },
    };
    if is_bot {
        return PresenceOutcome { delete_channel: None, create_channel: None };
    }
    let mut delete_channel: Option<u64> = None;
    match cache.voice_state(guild_id, user_id) {
        Some(known_channel_id) => {
            cache.remove_voice_state(guild_id, user_id);
            match cache.voice_channel(known_channel_id) {
                Some(voice_channel) => {
                    if !voice_channel.permanence && voice_channel.connected_user_ids.is_empty() {
                        delete_channel = Some(known_channel_id);
                    }
                },
                None => {},
            }
        },
        None => {},
    }
    let ghost s1 = cache@;
    assert(s1.owned_channel(guild_id, user_id) == s0.owned_channel(guild_id, user_id));
    let mut create_channel: Option<CreateVoiceChannel> = None;
    match channel_id {
        Some(channel_id) => {
            cache.insert_voice_state(guild_id, user_id, channel_id);
            if cache.voice_channel_owner(guild_id, user_id).is_none() {
                match cache.join_channel(channel_id) {
                    Some(join_channel) => {
                        let bits = privacy_permissions(join_channel.privacy);
                        let permission_overwrites = vec![
                            PermissionOverwrite { allow: bits, deny: 0, id: bot_role_id, kind: OverwriteKind::Role },
                            PermissionOverwrite { allow: 0, deny: bits, id: guild_id, kind: OverwriteKind::Role },
                        ];
                        proof {
                            assert(permission_overwrites@ =~= creation_overwrites(bot_role_id, guild_id, join_channel.privacy));
                        }
                        create_channel = Some(CreateVoiceChannel {
                            guild_id,
                            user_id,
                            name: voice_channel_name(username),
                            parent_id: join_channel.parent_id,
                            permission_overwrites,
                            permanence: join_channel.permanence,
                            privacy: join_channel.privacy,
                        });
                    },
                    None => {},
                }
            }
        },
        None => {},
    }
    PresenceOutcome { delete_channel, create_channel }
}

/// The voice channel record stored once the platform has created the channel asked for
/// by `req`: unowned, with no connected users, and with the platform's defaults for the
/// attributes that it did not report.
pub open spec fn created_voice_channel(req: CreateVoiceChannel, created: CreatedChannel) -> VoiceChannelView {
    VoiceChannelView {
        bitrate: match created.bitrate {
            Some(b) => b,
            None => DEFAULT_BITRATE,
        },
        connected_user_ids: Set::empty(),
        id: created.id,
        guild_id: req.guild_id,
        name: req.name@,
        owner_id: None,
        permanence: req.permanence,
        permission_overwrites: match created.permission_overwrites {
            Some(o) => o@,
            None => Seq::empty(),
        },
        privacy: req.privacy,
        rate_limit_per_user: created.rate_limit_per_user,
        rtc_region: opt_string_view(created.rtc_region),
        user_limit: created.user_limit,
        video_quality_mode: match created.video_quality_mode {
            Some(m) => m,
            None => VideoQualityMode::Auto,
        },
    }
}

/// Records a voice channel that the platform created for `req`, and hands back the move
/// of the requesting user into it.
pub fn on_voice_channel_created(cache: &mut Cache, req: CreateVoiceChannel, created: CreatedChannel) -> (r: MoveMember)
    requires
        old(cache).wf(),
    ensures
        final(cache).wf(),
        final(cache)@ == old(cache)@.add_voice(created_voice_channel(req, created)),
        r == (MoveMember { guild_id: req.guild_id, user_id: req.user_id, channel_id: created.id }),
{
    let ghost v = created_voice_channel(req, created);
    let r = MoveMember { guild_id: req.guild_id, user_id: req.user_id, channel_id: created.id };
    let bitrate = match created.bitrate {
        Some(b) => b,
        None => DEFAULT_BITRATE,
    };
    let permission_overwrites = match created.permission_overwrites {
        Some(o) => o,
        None => Vec::new(),
    };
    let video_quality_mode = match created.video_quality_mode {
        Some(m) => m,
        None => VideoQualityMode::Auto,
    };
    cache.insert_voice_channel(
        bitrate,
        created.id,
        req.guild_id,
        req.name,
        None,
        req.permanence,
        permission_overwrites,
        req.privacy,
        created.rate_limit_per_user,
        created.rtc_region,
        created.user_limit,
        video_quality_mode,
    );
    r
}

} // verus!
