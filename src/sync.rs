use vstd::prelude::*;

use crate::cache::{ids_of, Cache};
use crate::database::{JoinChannel, VoiceChannel};
use crate::model::{Change, PermissionOverwrite, VideoQualityMode, DEFAULT_BITRATE};
use crate::store::{
    opt_string_view, CacheView, CachedGuildUpdate, CachedJoinChannelUpdate, JoinChannelView,
    VoiceChannelView,
};

verus! {

/// A role of a guild snapshot, with the bot it is managed for, if any.
#[derive(Clone, Copy, Debug, PartialEq, Eq, Structural)]
pub struct RoleInfo {
    pub id: u64,
    pub managed: bool,
    pub bot_id: Option<u64>,
}

/// A channel of a guild snapshot, with its live attributes.
pub struct SnapshotChannel {
    pub id: u64,
    pub is_voice: bool,
    pub bitrate: Option<u32>,
    pub name: Option<String>,
    pub permission_overwrites: Option<Vec<PermissionOverwrite>>,
    pub rate_limit_per_user: Option<u16>,
    pub rtc_region: Option<String>,
    pub user_limit: Option<u32>,
    pub video_quality_mode: Option<VideoQualityMode>,
}

/// A member's voice presence in a guild snapshot.
#[derive(Clone, Copy, Debug, PartialEq, Eq, Structural)]
pub struct SnapshotVoiceState {
    pub user_id: u64,
    pub channel_id: Option<u64>,
}

/// The first managed role of the application's bot.
pub open spec fn bot_role_of(roles: Seq<RoleInfo>, application_id: u64) -> Option<u64>
    decreases roles.len(),
{
    if roles.len() == 0 {
        None
    } else if roles[0].managed && roles[0].bot_id == Some(application_id) {
        Some(roles[0].id)
    } else {
        bot_role_of(roles.drop_first(), application_id)
    }
}

/// Finds the role that the platform manages for the application's bot; a guild without
/// one is left.
pub fn find_bot_role(roles: &Vec<RoleInfo>, application_id: u64) -> (r: Option<u64>)
    ensures
        r == bot_role_of(roles@, application_id),
{
    let mut i: usize = 0;
    proof {
        assert(roles@.subrange(0, roles.len() as int) =~= roles@);
    }
    while i < roles.len()
        invariant
            i <= roles.len(),
            bot_role_of(roles@, application_id) == bot_role_of(roles@.subrange(i as int, roles.len() as int), application_id),
        decreases roles.len() - i,
    {
        let role = roles[i];
        proof {
            assert(roles@.subrange(i as int, roles.len() as int)[0] == role);
            assert(roles@.subrange(i as int, roles.len() as int).drop_first() =~= roles@.subrange(i + 1, roles.len() as int));
        }
        if role.managed && role.bot_id == Some(application_id) {
            return Some(role.id);
        }
        i += 1;
    }
    None
}

/// The ids of the snapshot's voice channels, in order.
pub open spec fn voice_channel_ids_of(channels: Seq<SnapshotChannel>) -> Seq<u64>
    decreases channels.len(),
{
    if channels.len() == 0 {
        Seq::empty()
    } else if channels.last().is_voice {
        voice_channel_ids_of(channels.drop_last()).push(channels.last().id)
    } else {
        voice_channel_ids_of(channels.drop_last())
    }
}

/// The ids of the snapshot's voice channels; persisted rows of other ids are stale.
pub fn known_voice_channel_ids(channels: &Vec<SnapshotChannel>) -> (r: Vec<u64>)
    ensures
        r@ == voice_channel_ids_of(channels@),
{
    let mut r: Vec<u64> = Vec::new();
    let mut i: usize = 0;
    while i < channels.len()
        invariant
            i <= channels.len(),
            r@ == voice_channel_ids_of(channels@.take(i as int)),
        decreases channels.len() - i,
    {
        proof {
            assert(channels@.take(i + 1).drop_last() =~= channels@.take(i as int));
        }
        if channels[i].is_voice {
            r.push(channels[i].id);
        }
        i += 1;
    }
    proof {
        assert(channels@.take(channels.len() as int) =~= channels@);
    }
    r
}

/// The position of the live voice channel with this id; a later entry wins.
pub open spec fn live_index(channels: Seq<SnapshotChannel>, id: u64) -> Option<int>
    decreases channels.len(),
{
    if channels.len() == 0 {
        None
    } else if channels.last().is_voice && channels.last().id == id {
        Some(channels.len() - 1)
    } else {
        live_index(channels.drop_last(), id)
    }
}

fn find_live(channels: &Vec<SnapshotChannel>, id: u64) -> (r: Option<usize>)
    ensures
        match r {
            Some(k) => live_index(channels@, id) == Some(k as int) && k < channels.len(),
            None => live_index(channels@, id) is None,
        },
{
    let mut i: usize = channels.len();
    proof {
        assert(channels@.take(channels.len() as int) =~= channels@);
    }
    while i > 0
        invariant
            i <= channels.len(),
            live_index(channels@, id) == live_index(channels@.take(i as int), id),
        decreases i,
    {
        proof {
            assert(channels@.take(i as int).drop_last() =~= channels@.take(i - 1));
        }
        if channels[i - 1].is_voice && channels[i - 1].id == id {
            return Some(i - 1);
        }
        i -= 1;
    }
    None
}

fn copy_overwrites(v: &Vec<PermissionOverwrite>) -> (r: Vec<PermissionOverwrite>)
    ensures
        r@ == v@,
{
    let mut r: Vec<PermissionOverwrite> = Vec::new();
    let mut i: usize = 0;
    while i < v.len()
        invariant
            i <= v.len(),
            r@ == v@.take(i as int),
        decreases v.len() - i,
    {
        r.push(v[i]);
        proof {
            assert(v@.take(i + 1) =~= v@.take(i as int).push(v@[i as int]));
        }
        i += 1;
    }
    proof {
        assert(v@.take(v.len() as int) =~= v@);
    }
    r
}

pub open spec fn name_or_empty(name: Option<String>) -> Seq<char> {
    match name {
        Some(n) => n@,
        None => Seq::empty(),
    }
}

pub open spec fn overwrites_or_empty(o: Option<Vec<PermissionOverwrite>>) -> Seq<PermissionOverwrite> {
    match o {
        Some(v) => v@,
        None => Seq::empty(),
    }
}

/// A persisted join channel row as cached: live name and overwrites when the snapshot
/// holds the channel, else an empty name and no overwrites.
pub open spec fn rehydrated_join(row: JoinChannel, channels: Seq<SnapshotChannel>) -> JoinChannelView {
    let (name, permission_overwrites) = match live_index(channels, row.id) {
        Some(k) => (name_or_empty(channels[k].name), overwrites_or_empty(channels[k].permission_overwrites)),
        None => (Seq::empty(), Seq::empty()),
    };
    JoinChannelView {
        access_role_id: row.access_role_id,
        id: row.id,
        guild_id: row.guild_id,
        name,
        parent_id: row.parent_id,
        permanence: row.permanence,
        permission_overwrites,
        privacy: row.privacy,
    }
}

/// A persisted voice channel row as cached: live attributes when the snapshot holds the
/// channel, else the defaults.
pub open spec fn rehydrated_voice(row: VoiceChannel, channels: Seq<SnapshotChannel>) -> VoiceChannelView {
    match live_index(channels, row.id) {
        Some(k) => {
            let c = channels[k];
            VoiceChannelView {
                bitrate: match c.bitrate {
                    Some(b) => b,
                    None => DEFAULT_BITRATE,
                },
                connected_user_ids: Set::empty(),
                id: row.id,
                guild_id: row.guild_id,
                name: name_or_empty(c.name),
                owner_id: row.owner_id,
                permanence: row.permanence,
                permission_overwrites: overwrites_or_empty(c.permission_overwrites),
                privacy: row.privacy,
                rate_limit_per_user: c.rate_limit_per_user,
                rtc_region: opt_string_view(c.rtc_region),
                user_limit: c.user_limit,
                video_quality_mode: match c.video_quality_mode {
                    Some(m) => m,
                    None => VideoQualityMode::Auto,
                },
            }
        },
        None => VoiceChannelView {
            bitrate: DEFAULT_BITRATE,
            connected_user_ids: Set::empty(),
            id: row.id,
            guild_id: row.guild_id,
            name: Seq::empty(),
            owner_id: row.owner_id,
            permanence: row.permanence,
            permission_overwrites: Seq::empty(),
            privacy: row.privacy,
            rate_limit_per_user: None,
            rtc_region: None,
            user_limit: None,
            video_quality_mode: VideoQualityMode::Auto,
        },
    }
}

pub open spec fn load_joins(s: CacheView, rows: Seq<JoinChannel>, channels: Seq<SnapshotChannel>) -> CacheView
    decreases rows.len(),
{
    if rows.len() == 0 {
        s
    } else {
        load_joins(s, rows.drop_last(), channels).add_join(rehydrated_join(rows.last(), channels))
    }
}

pub open spec fn load_voices(s: CacheView, rows: Seq<VoiceChannel>, channels: Seq<SnapshotChannel>) -> CacheView
    decreases rows.len(),
{
    if rows.len() == 0 {
        s
    } else {
        load_voices(s, rows.drop_last(), channels).add_voice(rehydrated_voice(rows.last(), channels))
    }
}

pub open spec fn load_presence(s: CacheView, guild_id: u64, states: Seq<SnapshotVoiceState>) -> CacheView
    decreases states.len(),
{
    if states.len() == 0 {
        s
    } else {
        let t = load_presence(s, guild_id, states.drop_last());
        match states.last().channel_id {
            Some(c) => t.add_presence(guild_id, states.last().user_id, c),
            None => t,
        }
    }
}

/// The store after a guild snapshot: the guild starts afresh, its persisted join and
/// voice channel rows are cached in order, then the presences inside its voice channels.
pub open spec fn rehydrated(
    s: CacheView,
    bot_role_id: u64,
    guild_id: u64,
    name: Seq<char>,
    channels: Seq<SnapshotChannel>,
    join_rows: Seq<JoinChannel>,
    voice_rows: Seq<VoiceChannel>,
    voice_states: Seq<SnapshotVoiceState>,
) -> CacheView {
    let s1 = s.add_guild(bot_role_id, guild_id, name);
    let s2 = load_joins(s1, join_rows, channels);
    let s3 = load_voices(s2, voice_rows, channels);
    load_presence(s3, guild_id, voice_states)
}

/// Rebuilds the cached state of a guild from its snapshot and its persisted rows.
pub fn rehydrate_guild(
    cache: &mut Cache,
    bot_role_id: u64,
    guild_id: u64,
    name: String,
    channels: &Vec<SnapshotChannel>,
    join_rows: &Vec<JoinChannel>,
    voice_rows: &Vec<VoiceChannel>,
    voice_states: &Vec<SnapshotVoiceState>,
)
    requires
        old(cache).wf(),
    ensures
        final(cache).wf(),
        final(cache)@ == rehydrated(old(cache)@, bot_role_id, guild_id, name@, channels@, join_rows@, voice_rows@, voice_states@),
{
    cache.insert_guild(bot_role_id, guild_id, name);
    let ghost s1 = cache@;
    let mut i: usize = 0;
    while i < join_rows.len()
        invariant
            i <= join_rows.len(),
            cache.wf(),
            cache@ == load_joins(s1, join_rows@.take(i as int), channels@),
        decreases join_rows.len() - i,
    {
        let row = join_rows[i];
        let (name, permission_overwrites) = match find_live(channels, row.id) {
            Some(k) => {
                let c = &channels[k];
                let n = match &c.name {
                    Some(n) => n.clone(),
                    None => String::new(),
                };
                let o = match &c.permission_overwrites {
                    Some(o) => copy_overwrites(o),
                    None => Vec::new(),
                };
                (n, o)
            },
            None => (String::new(), Vec::new()),
        };
        proof {
            assert(join_rows@.take(i + 1).drop_last() =~= join_rows@.take(i as int));
            assert(join_rows@.take(i + 1).last() == row);
        }
        cache.insert_join_channel(
            row.access_role_id,
            row.id,
            row.guild_id,
            name,
            row.parent_id,
            row.permanence,
            permission_overwrites,
            row.privacy,
        );
        i += 1;
    }
    proof {
        assert(join_rows@.take(join_rows.len() as int) =~= join_rows@);
    }
    let ghost s2 = cache@;
    let mut i: usize = 0;
    while i < voice_rows.len()
        invariant
            i <= voice_rows.len(),
            cache.wf(),
            cache@ == load_voices(s2, voice_rows@.take(i as int), channels@),
        decreases voice_rows.len() - i,
    {
        let row = voice_rows[i];
        proof {
            assert(voice_rows@.take(i + 1).drop_last() =~= voice_rows@.take(i as int));
            assert(voice_rows@.take(i + 1).last() == row);
        }
        match find_live(channels, row.id) {
            Some(k) => {
                let c = &channels[k];
                let n = match &c.name {
                    Some(n) => n.clone(),
                    None => String::new(),
                };
                let o = match &c.permission_overwrites {
                    Some(o) => copy_overwrites(o),
                    None => Vec::new(),
                };
                let rtc_region = match &c.rtc_region {
                    Some(r) => Some(r.clone()),
                    None => None,
                };
                cache.insert_voice_channel(
                    match c.bitrate {
                        Some(b) => b,
                        None => DEFAULT_BITRATE,
                    },
                    row.id,
                    row.guild_id,
                    n,
                    row.owner_id,
                    row.permanence,
                    o,
                    row.privacy,
                    c.rate_limit_per_user,
                    rtc_region,
                    c.user_limit,
                    match c.video_quality_mode {
                        Some(m) => m,
                        None => VideoQualityMode::Auto,
                    },
                );
            },
            None => {
                cache.insert_voice_channel(
                    DEFAULT_BITRATE,
                    row.id,
                    row.guild_id,
                    String::new(),
                    row.owner_id,
                    row.permanence,
                    Vec::new(),
                    row.privacy,
                    None,
                    None,
                    None,
                    VideoQualityMode::Auto,
                );
            },
        }
        i += 1;
    }
    proof {
        assert(voice_rows@.take(voice_rows.len() as int) =~= voice_rows@);
    }
    let ghost s3 = cache@;
    let mut i: usize = 0;
    while i < voice_states.len()
        invariant
            i <= voice_states.len(),
            cache.wf(),
            cache@ == load_presence(s3, guild_id, voice_states@.take(i as int)),
        decreases voice_states.len() - i,
    {
        let state = voice_states[i];
        proof {
            assert(voice_states@.take(i + 1).drop_last() =~= voice_states@.take(i as int));
            assert(voice_states@.take(i + 1).last() == state);
        }
        match state.channel_id {
            Some(c) => cache.insert_voice_state(guild_id, state.user_id, c),
            None => {},
        }
        i += 1;
    }
    proof {
        assert(voice_states@.take(voice_states.len() as int) =~= voice_states@);
    }
}

/// Which kind of cached channel an id names.
#[derive(Clone, Copy, Debug, PartialEq, Eq, Structural)]
pub enum ChannelKind {
    Join,
    Voice,
}

/// The kind of a channel that the platform removed: a join channel first, then a voice
/// channel; `None` when the store holds neither.
pub fn removed_channel_kind(cache: &Cache, id: u64) -> (r: Option<ChannelKind>)
    ensures
        r == if cache@.join_channels.contains_key(id) {
            Some(ChannelKind::Join)
        } else if cache@.voice_channels.contains_key(id) {
            Some(ChannelKind::Voice)
        } else {
            None
        },
{
    if cache.join_channel(id).is_some() {
        Some(ChannelKind::Join)
    } else if cache.voice_channel(id).is_some() {
        Some(ChannelKind::Voice)
    } else {
        None
    }
}

/// New attributes that the platform reported for a channel.
pub struct ChannelChange {
    pub id: u64,
    pub name: Option<String>,
    pub permission_overwrites: Option<Vec<PermissionOverwrite>>,
    pub bitrate: Option<u32>,
    pub rate_limit_per_user: Option<u16>,
    pub rtc_region: Option<String>,
    pub user_limit: Option<u32>,
    pub video_quality_mode: Option<VideoQualityMode>,
}

/// The store after a channel change: a join channel takes the new name, if any, and the
/// overwrites; a voice channel also takes the bitrate and video quality, when reported,
/// and the slow mode, region and user limit as reported. Owner and presence stay.
pub open spec fn channel_changed(s: CacheView, c: ChannelChange) -> CacheView {
    if s.join_channels.contains_key(c.id) {
        let j = s.join_channels[c.id];
        CacheView {
            join_channels: s.join_channels.insert(c.id, JoinChannelView {
                name: match c.name {
                    Some(n) => n@,
                    None => j.name,
                },
                permission_overwrites: overwrites_or_empty(c.permission_overwrites),
                ..j
            }),
            ..s
        }
    } else if s.voice_channels.contains_key(c.id) {
        let v = s.voice_channels[c.id];
        CacheView {
            voice_channels: s.voice_channels.insert(c.id, VoiceChannelView {
                bitrate: match c.bitrate {
                    Some(b) => b,
                    None => v.bitrate,
                },
                name: match c.name {
                    Some(n) => n@,
                    None => v.name,
                },
                permission_overwrites: overwrites_or_empty(c.permission_overwrites),
                rate_limit_per_user: c.rate_limit_per_user,
                rtc_region: opt_string_view(c.rtc_region),
                user_limit: c.user_limit,
                video_quality_mode: match c.video_quality_mode {
                    Some(m) => m,
                    None => v.video_quality_mode,
                },
                ..v
            }),
            ..s
        }
    } else {
        s
    }
}

fn keep_or_replace<T>(v: Option<T>) -> (r: Change<T>)
    ensures
        r == match v {
            Some(x) => Change::Replace(x),
            None => Change::<T>::Keep,
        },
{
    match v {
        Some(x) => Change::Replace(x),
        None => Change::Keep,
    }
}

/// Applies a channel change reported by the platform to the cached channel.
pub fn on_channel_changed(cache: &mut Cache, change: ChannelChange)
    requires
        old(cache).wf(),
    ensures
        final(cache).wf(),
        final(cache)@ == channel_changed(old(cache)@, change),
{
    let ghost s0 = cache@;
    let ghost c0 = change;
    let id = change.id;
    let permission_overwrites = match change.permission_overwrites {
        Some(o) => o,
        None => Vec::new(),
    };
    if cache.join_channel(id).is_some() {
        let update = CachedJoinChannelUpdate {
            access_role_id: Change::Keep,
            name: keep_or_replace(change.name),
            parent_id: Change::Keep,
            permanence: Change::Keep,
            permission_overwrites: Change::Replace(permission_overwrites),
            privacy: Change::Keep,
        };
        cache.update_join_channel(id, update);
        proof {
            assert(cache@.join_channels =~= channel_changed(s0, c0).join_channels);
        }
    } else if cache.voice_channel(id).is_some() {
        let update = crate::store::CachedVoiceChannelUpdate {
            bitrate: keep_or_replace(change.bitrate),
            name: keep_or_replace(change.name),
            owner_id: Change::Keep,
            permanence: Change::Keep,
            permission_overwrites: Change::Replace(permission_overwrites),
            privacy: Change::Keep,
            rate_limit_per_user: Change::Replace(change.rate_limit_per_user),
            rtc_region: Change::Replace(change.rtc_region),
            user_limit: Change::Replace(change.user_limit),
            video_quality_mode: keep_or_replace(change.video_quality_mode),
        };
        cache.update_voice_channel(id, update);
        proof {
            assert(cache@.voice_channels =~= channel_changed(s0, c0).voice_channels);
        }
    }
}

/// The join channels of a guild whose access role is `role_id`.
pub open spec fn join_channels_with_role(s: CacheView, guild_id: u64, role_id: u64) -> Set<u64> {
    Set::new(|c: u64| s.guilds.contains_key(guild_id) && s.guilds[guild_id].join_channel_ids.contains(c)
        && s.join_channels.contains_key(c) && s.join_channels[c].access_role_id == Some(role_id))
}

/// The join channels of a guild that lose their access role when the role is removed.
pub fn join_channels_with_access_role(cache: &Cache, guild_id: u64, role_id: u64) -> (r: Vec<u64>)
    ensures
        r@.to_set() == join_channels_with_role(cache@, guild_id, role_id),
        r@.no_duplicates(),
{
    let mut r: Vec<u64> = Vec::new();
    let guild = match cache.guild(guild_id) {
        Some(g) => g,
        None => {
            proof {
                assert(r@.to_set() =~= join_channels_with_role(cache@, guild_id, role_id));
            }
            return r;
        },
    };
    let ids = ids_of(&guild.join_channel_ids);
    let ghost target = join_channels_with_role(cache@, guild_id, role_id);
    let mut i: usize = 0;
    while i < ids.len()
        invariant
            i <= ids.len(),
            ids@.no_duplicates(),
            ids@.to_set() == cache@.guilds[guild_id].join_channel_ids,
            cache@.guilds.contains_key(guild_id),
            target == join_channels_with_role(cache@, guild_id, role_id),
            r@.no_duplicates(),
            forall|c: u64| #[trigger] r@.contains(c) <==> (target.contains(c) && exists|k: int| 0 <= k < i && ids@[k] == c),
        decreases ids.len() - i,
    {
        let c = ids[i];
        proof {
            assert(ids@.contains(c));
            assert(ids@.to_set().contains(c));
        }
        let matches = match cache.join_channel(c) {
            Some(j) => j.access_role_id == Some(role_id),
            None => false,
        };
        let ghost r0 = r@;
        proof {
            assert(matches == target.contains(c));
        }
        if matches {
            proof {
                assert forall|k: int| 0 <= k < r.len() implies r@[k] != c by {
                    assert(r@.contains(r@[k]));
                    let k2 = choose|k2: int| 0 <= k2 < i && ids@[k2] == r@[k];
                    assert(ids@[k2] != ids@[i as int]);
                }
            }
            r.push(c);
        }
        proof {
            assert forall|x: u64| #[trigger] r@.contains(x) <==> (target.contains(x) && exists|k: int| 0 <= k < i + 1 && ids@[k] == x) by {
                if r@.contains(x) {
                    let k = choose|k: int| 0 <= k < r.len() && r@[k] == x;
                    if k < r0.len() {
                        assert(r0[k] == x);
                        assert(r0.contains(x));
                        let k2 = choose|k2: int| 0 <= k2 < i && ids@[k2] == x;
                        assert(0 <= k2 < i + 1 && ids@[k2] == x);
                    } else {
                        assert(x == c);
                        assert(ids@[i as int] == x);
                    }
                }
                if target.contains(x) && exists|k: int| 0 <= k < i + 1 && ids@[k] == x {
                    let k = choose|k: int| 0 <= k < i + 1 && ids@[k] == x;
                    if k < i {
                        assert(r0.contains(x));
                        let j = choose|j: int| 0 <= j < r0.len() && r0[j] == x;
                        assert(r@[j] == x);
                    } else {
                        assert(x == c);
                        assert(r@[r.len() - 1] == x);
                    }
                }
            }
        }
        i += 1;
    }
    proof {
        assert forall|c: u64| r@.to_set().contains(c) <==> target.contains(c) by {
            if target.contains(c) {
                assert(ids@.to_set().contains(c));
                assert(ids@.contains(c));
            }
        }
        assert(r@.to_set() =~= target);
    }
    r
}

/// An update that clears the access role of a join channel and nothing else.
pub fn access_role_cleared() -> (r: CachedJoinChannelUpdate)
    ensures
        r == (CachedJoinChannelUpdate {
            access_role_id: Change::Replace(None),
            name: Change::Keep,
            parent_id: Change::Keep,
            permanence: Change::Keep,
            permission_overwrites: Change::Keep,
            privacy: Change::Keep,
        }),
{
    CachedJoinChannelUpdate {
        access_role_id: Change::Replace(None),
        name: Change::Keep,
        parent_id: Change::Keep,
        permanence: Change::Keep,
        permission_overwrites: Change::Keep,
        privacy: Change::Keep,
    }
}

/// Renames a cached guild when its name changed.
pub fn on_guild_renamed(cache: &mut Cache, guild_id: u64, name: String)
    requires
        old(cache).wf(),
    ensures
        final(cache).wf(),
        final(cache)@ == old(cache)@.rename_guild(guild_id, name@),
{
    let ghost s0 = cache@;
    let ghost n = name@;
    let changed = match cache.guild(guild_id) {
        Some(guild) => guild.name != name,
        None => false,
    };
    if changed {
        cache.update_guild(guild_id, CachedGuildUpdate { name: Some(name) });
    } else {
        proof {
            if s0.guilds.contains_key(guild_id) {
                assert(s0.guilds[guild_id].name == n);
                assert(s0.rename_guild(guild_id, n).guilds =~= s0.guilds);
            }
        }
    }
}

} // verus!
