use std::collections::HashMap;
use std::collections::HashSet;
use vstd::prelude::*;
use vstd::std_specs::iter::IteratorSpec;

use crate::model::{Change, ChannelPrivacy, PermissionOverwrite, VideoQualityMode};
use crate::store::{
    opt_string_view,
    lemma_add_guild_wf, lemma_add_join_wf, lemma_add_presence_wf, lemma_add_unavailable_wf,
    lemma_add_voice_wf, lemma_patch_join_wf, lemma_patch_voice_wf, lemma_remove_guild_wf,
    lemma_remove_join_wf, lemma_remove_presence_wf, lemma_remove_voice_wf, lemma_rename_guild_wf,
    CacheView, CachedGuild, CachedGuildUpdate, CachedJoinChannel, CachedJoinChannelUpdate,
    CachedVoiceChannel, CachedVoiceChannelUpdate, GuildView, JoinChannelView, VoiceChannelView,
};

verus! {

broadcast use vstd::std_specs::hash::group_hash_axioms;

/// The in-memory store of guilds, join channels and voice channels, with the
/// owner and presence indices kept inside each guild record.
pub struct Cache {
    pub guilds: HashMap<u64, CachedGuild>,
    pub join_channels: HashMap<u64, CachedJoinChannel>,
    pub unavailable_guilds: HashSet<u64>,
    pub voice_channels: HashMap<u64, CachedVoiceChannel>,
}

impl View for Cache {
    type V = CacheView;

    open spec fn view(&self) -> CacheView {
        CacheView {
            guilds: self.guilds@.map_values(|g: CachedGuild| g@),
            join_channels: self.join_channels@.map_values(|j: CachedJoinChannel| j@),
            voice_channels: self.voice_channels@.map_values(|v: CachedVoiceChannel| v@),
            unavailable_guilds: self.unavailable_guilds@,
        }
    }
}

/// The elements of a set of ids, each once.
pub(crate) fn ids_of(s: &HashSet<u64>) -> (r: Vec<u64>)
    ensures
        r@.to_set() == s@,
        r@.no_duplicates(),
{
    let mut r: Vec<u64> = Vec::new();
    let ghost elems = vstd::std_specs::hash::spec_hash_keys_iter(s).remaining();
    for x in it: s.iter()
        invariant
            it.seq() == elems,
            r.len() == it.index(),
            forall|i: int| 0 <= i < r.len() ==> r@[i] == *elems[i],
    {
        r.push(*x);
    }
    proof {
        assert(r@ =~= elems.map_values(|p: &u64| *p));
        assert(elems.unref() =~= elems.map_values(|p: &u64| *p));
    }
    r
}

/// Removes every key of `keys` from `m`.
fn remove_keys(m: &mut HashMap<u64, u64>, keys: &HashSet<u64>)
    ensures
        final(m)@ == old(m)@.remove_keys(keys@),
{
    let users = ids_of(keys);
    let ghost m0 = m@;
    let mut i: usize = 0;
    while i < users.len()
        invariant
            i <= users.len(),
            users@.to_set() == keys@,
            forall|k: u64| #[trigger] m@.contains_key(k) <==> (m0.contains_key(k) && forall|j: int| 0 <= j < i ==> users@[j] != k),
            forall|k: u64| #[trigger] m@.contains_key(k) ==> m@[k] == m0[k],
        decreases users.len() - i,
    {
        m.remove(&users[i]);
        i += 1;
    }
    proof {
        assert forall|k: u64| #[trigger] m@.contains_key(k) <==> m0.remove_keys(keys@).contains_key(k) by {
            if keys@.contains(k) {
                assert(users@.contains(k));
            }
            if !m@.contains_key(k) && m0.contains_key(k) {
                let j = choose|j: int| 0 <= j < users.len() && users@[j] == k;
                assert(users@.contains(k));
            }
        }
        assert(m@ =~= m0.remove_keys(keys@));
    }
}

spec fn presence_added_guilds(s: CacheView, guild_id: u64, user_id: u64, channel_id: u64) -> Map<u64, GuildView> {
    s.guilds.insert(guild_id, GuildView {
        presence: s.guilds[guild_id].presence.insert(user_id, channel_id),
        ..s.guilds[guild_id]
    })
}

spec fn presence_added_voice(s: CacheView, guild_id: u64, user_id: u64, channel_id: u64) -> Map<u64, VoiceChannelView> {
    s.voice_channels.insert(channel_id, VoiceChannelView {
        connected_user_ids: s.voice_channels[channel_id].connected_user_ids.insert(user_id),
        ..s.voice_channels[channel_id]
    })
}

impl Cache {
    pub open spec fn wf(&self) -> bool {
        self@.wf()
    }

    pub fn new() -> (r: Cache)
        ensures
            r.wf(),
            r@ == CacheView::empty(),
    {
        let r = Cache {
            guilds: HashMap::new(),
            join_channels: HashMap::new(),
            unavailable_guilds: HashSet::new(),
            voice_channels: HashMap::new(),
        };
        proof {
            assert(r@.guilds =~= Map::empty());
            assert(r@.join_channels =~= Map::empty());
            assert(r@.voice_channels =~= Map::empty());
        }
        r
    }

    pub fn guild(&self, id: u64) -> (r: Option<&CachedGuild>)
        ensures
            match r {
                Some(g) => self@.guilds.contains_key(id) && g@ == self@.guilds[id],
                None => !self@.guilds.contains_key(id),
            },
    {
        self.guilds.get(&id)
    }

    pub fn join_channel(&self, id: u64) -> (r: Option<&CachedJoinChannel>)
        ensures
            match r {
                Some(j) => self@.join_channels.contains_key(id) && j@ == self@.join_channels[id],
                None => !self@.join_channels.contains_key(id),
            },
    {
        self.join_channels.get(&id)
    }

    pub fn voice_channel(&self, id: u64) -> (r: Option<&CachedVoiceChannel>)
        ensures
            match r {
                Some(v) => self@.voice_channels.contains_key(id) && v@ == self@.voice_channels[id],
                None => !self@.voice_channels.contains_key(id),
            },
    {
        self.voice_channels.get(&id)
    }

    /// The voice channel that a user owns in a guild.
    pub fn voice_channel_owner(&self, guild_id: u64, user_id: u64) -> (r: Option<u64>)
        ensures
            r == self@.owned_channel(guild_id, user_id),
    {
        match self.guilds.get(&guild_id) {
            Some(guild) => match guild.voice_channel_owners.get(&user_id) {
                Some(c) => Some(*c),
                None => None,
            },
            None => None,
        }
    }

    /// The tracked voice channel that a user is in, in a guild.
    pub fn voice_state(&self, guild_id: u64, user_id: u64) -> (r: Option<u64>)
        ensures
            r == self@.present_channel(guild_id, user_id),
    {
        match self.guilds.get(&guild_id) {
            Some(guild) => match guild.voice_states.get(&user_id) {
                Some(c) => Some(*c),
                None => None,
            },
            None => None,
        }
    }

    pub fn remove_join_channel(&mut self, id: u64)
        requires
            old(self).wf(),
        ensures
            final(self).wf(),
            final(self)@ == old(self)@.remove_join(id),
    {
        proof { lemma_remove_join_wf(self@, id); }
        let ghost s0 = self@;
        match self.join_channels.remove(&id) {
            None => {
                proof { assert(self@.join_channels =~= s0.join_channels); }
            },
            Some(join_channel) => {
                let guild_id = join_channel.guild_id;
                match self.guilds.remove(&guild_id) {
                    Some(mut guild) => {
                        guild.join_channel_ids.remove(&id);
                        self.guilds.insert(guild_id, guild);
                    },
                    None => {},
                }
                proof {
                    assert(self@.guilds =~= s0.remove_join(id).guilds);
                    assert(self@.join_channels =~= s0.remove_join(id).join_channels);
                }
            },
        }
    }

    /// Stores a join channel of a cached guild, replacing any earlier record of that id.
    pub fn insert_join_channel(
        &mut self,
        access_role_id: Option<u64>,
        id: u64,
        guild_id: u64,
        name: String,
        parent_id: Option<u64>,
        permanence: bool,
        permission_overwrites: Vec<PermissionOverwrite>,
        privacy: ChannelPrivacy,
    )
        requires
            old(self).wf(),
        ensures
            final(self).wf(),
            final(self)@ == old(self)@.add_join(JoinChannelView {
                access_role_id,
                id,
                guild_id,
                name: name@,
                parent_id,
                permanence,
                permission_overwrites: permission_overwrites@,
                privacy,
            }),
    {
        let ghost j = JoinChannelView {
            access_role_id,
            id,
            guild_id,
            name: name@,
            parent_id,
            permanence,
            permission_overwrites: permission_overwrites@,
            privacy,
        };
        let ghost s0 = self@;
        proof { lemma_add_join_wf(self@, j); }
        if !self.guilds.contains_key(&guild_id) {
            return;
        }
        self.remove_join_channel(id);
        let ghost s1 = self@;
        assert(s0.guilds.contains_key(guild_id));
        assert(s1.guilds.contains_key(guild_id));
        assert(self.guilds@.contains_key(guild_id));
        match self.guilds.remove(&guild_id) {
            Some(mut guild) => {
                guild.join_channel_ids.insert(id);
                self.guilds.insert(guild_id, guild);
            },
            None => {},
        }
        self.join_channels.insert(id, CachedJoinChannel {
            access_role_id,
            id,
            guild_id,
            name,
            parent_id,
            permanence,
            permission_overwrites,
            privacy,
        });
        proof {
            assert(self@.guilds =~= s1.guilds.insert(guild_id, GuildView {
                join_channel_ids: s1.guilds[guild_id].join_channel_ids.insert(id),
                ..s1.guilds[guild_id]
            }));
            assert(self@.join_channels =~= s1.join_channels.insert(id, j));
        }
    }

    /// Forgets the tracked presence of a user in a guild.
    pub fn remove_voice_state(&mut self, guild_id: u64, user_id: u64)
        requires
            old(self).wf(),
        ensures
            final(self).wf(),
            final(self)@ == old(self)@.remove_presence(guild_id, user_id),
    {
        proof { lemma_remove_presence_wf(self@, guild_id, user_id); }
        let ghost s0 = self@;
        match self.guilds.remove(&guild_id) {
            None => {
                proof { assert(self@.guilds =~= s0.guilds); }
            },
            Some(mut guild) => {
                assert(guild@ == s0.guilds[guild_id]);
                let ghost p0 = guild.voice_states@;
                match guild.voice_states.remove(&user_id) {
                    None => {
                        assert(guild.voice_states@ =~= p0);
                    },
                    Some(channel_id) => {
                        match self.voice_channels.remove(&channel_id) {
                            Some(mut voice_channel) => {
                                voice_channel.connected_user_ids.remove(&user_id);
                                self.voice_channels.insert(channel_id, voice_channel);
                            },
                            None => {},
                        }
                    },
                }
                self.guilds.insert(guild_id, guild);
                proof {
                    assert(self@.guilds =~= s0.remove_presence(guild_id, user_id).guilds);
                    assert(self@.voice_channels =~= s0.remove_presence(guild_id, user_id).voice_channels);
                }
            },
        }
    }

    /// Records that a user is in a cached voice channel of a guild.
    pub fn insert_voice_state(&mut self, guild_id: u64, user_id: u64, channel_id: u64)
        requires
            old(self).wf(),
        ensures
            final(self).wf(),
            final(self)@ == old(self)@.add_presence(guild_id, user_id, channel_id),
    {
        proof { lemma_add_presence_wf(self@, guild_id, user_id, channel_id); }
        let known = match self.voice_channels.get(&channel_id) {
            Some(voice_channel) => voice_channel.guild_id == guild_id,
            None => false,
        };
        if !known || !self.guilds.contains_key(&guild_id) {
            return;
        }
        self.remove_voice_state(guild_id, user_id);
        let ghost s1 = self@;
        assert(self.guilds@.contains_key(guild_id));
        assert(self.voice_channels@.contains_key(channel_id));
        match self.guilds.remove(&guild_id) {
            Some(mut guild) => {
                guild.voice_states.insert(user_id, channel_id);
                self.guilds.insert(guild_id, guild);
            },
            None => {},
        }
        match self.voice_channels.remove(&channel_id) {
            Some(mut voice_channel) => {
                voice_channel.connected_user_ids.insert(user_id);
                self.voice_channels.insert(channel_id, voice_channel);
            },
            None => {},
        }
        proof {
            assert(self@.guilds =~= presence_added_guilds(s1, guild_id, user_id, channel_id));
            assert(self@.voice_channels =~= presence_added_voice(s1, guild_id, user_id, channel_id));
        }
    }

    /// Removes a voice channel with its guild membership, owner entry and presence entries.
    pub fn remove_voice_channel(&mut self, id: u64)
        requires
            old(self).wf(),
        ensures
            final(self).wf(),
            final(self)@ == old(self)@.remove_voice(id),
    {
        proof { lemma_remove_voice_wf(self@, id); }
        let ghost s0 = self@;
        match self.voice_channels.remove(&id) {
            None => {
                proof { assert(self@.voice_channels =~= s0.voice_channels); }
            },
            Some(voice_channel) => {
                let guild_id = voice_channel.guild_id;
                assert(self.guilds@.contains_key(guild_id));
                match self.guilds.remove(&guild_id) {
                    Some(mut guild) => {
                        guild.voice_channel_ids.remove(&id);
                        match voice_channel.owner_id {
                            Some(owner_id) => {
                                guild.voice_channel_owners.remove(&owner_id);
                            },
                            None => {},
                        }
                        remove_keys(&mut guild.voice_states, &voice_channel.connected_user_ids);
                        self.guilds.insert(guild_id, guild);
                    },
                    None => {},
                }
                proof {
                    assert(self@.guilds =~= s0.remove_voice(id).guilds);
                    assert(self@.voice_channels =~= s0.remove_voice(id).voice_channels);
                }
            },
        }
    }

    /// Stores a voice channel of a cached guild with no connected users, replacing any
    /// earlier record of that id. An owner who already owns another voice channel of the
    /// guild is not recorded.
    pub fn insert_voice_channel(
        &mut self,
        bitrate: u32,
        id: u64,
        guild_id: u64,
        name: String,
        owner_id: Option<u64>,
        permanence: bool,
        permission_overwrites: Vec<PermissionOverwrite>,
        privacy: ChannelPrivacy,
        rate_limit_per_user: Option<u16>,
        rtc_region: Option<String>,
        user_limit: Option<u32>,
        video_quality_mode: VideoQualityMode,
    )
        requires
            old(self).wf(),
        ensures
            final(self).wf(),
            final(self)@ == old(self)@.add_voice(VoiceChannelView {
                bitrate,
                connected_user_ids: Set::empty(),
                id,
                guild_id,
                name: name@,
                owner_id,
                permanence,
                permission_overwrites: permission_overwrites@,
                privacy,
                rate_limit_per_user,
                rtc_region: opt_string_view(rtc_region),
                user_limit,
                video_quality_mode,
            }),
    {
        let ghost v = VoiceChannelView {
            bitrate,
            connected_user_ids: Set::empty(),
            id,
            guild_id,
            name: name@,
            owner_id,
            permanence,
            permission_overwrites: permission_overwrites@,
            privacy,
            rate_limit_per_user,
            rtc_region: opt_string_view(rtc_region),
            user_limit,
            video_quality_mode,
        };
        let ghost s0 = self@;
        proof { lemma_add_voice_wf(self@, v); }
        if !self.guilds.contains_key(&guild_id) {
            return;
        }
        self.remove_voice_channel(id);
        let ghost s1 = self@;
        assert(s1.guilds.contains_key(guild_id));
        assert(self.guilds@.contains_key(guild_id));
        let mut owner: Option<u64> = None;
        match self.guilds.remove(&guild_id) {
            Some(mut guild) => {
                owner = match owner_id {
                    Some(u) => if guild.voice_channel_owners.contains_key(&u) {
                        None
                    } else {
                        Some(u)
                    },
                    None => None,
                };
                guild.voice_channel_ids.insert(id);
                match owner {
                    Some(u) => {
                        guild.voice_channel_owners.insert(u, id);
                    },
                    None => {},
                }
                self.guilds.insert(guild_id, guild);
            },
            None => {},
        }
        self.voice_channels.insert(id, CachedVoiceChannel {
            bitrate,
            connected_user_ids: HashSet::new(),
            id,
            guild_id,
            name,
            owner_id: owner,
            permanence,
            permission_overwrites,
            privacy,
            rate_limit_per_user,
            rtc_region,
            user_limit,
            video_quality_mode,
        });
        proof {
            assert(self@.guilds =~= s0.add_voice(v).guilds);
            assert(self@.voice_channels =~= s0.add_voice(v).voice_channels);
        }
    }

    /// Sets or clears the owner of a voice channel together with the owner index.
    fn assign_owner(&mut self, id: u64, owner: Option<u64>)
        requires
            old(self).wf(),
        ensures
            final(self)@ == old(self)@.assign_owner(id, owner),
    {
        let ghost s0 = self@;
        let (guild_id, current) = match self.voice_channels.get(&id) {
            Some(voice_channel) => (voice_channel.guild_id, voice_channel.owner_id),
            None => {
                return;
            },
        };
        match self.guilds.get(&guild_id) {
            Some(guild) => {
                match owner {
                    Some(u) => match guild.voice_channel_owners.get(&u) {
                        Some(c) => if *c != id {
                            return;
                        },
                        None => {},
                    },
                    None => {},
                }
            },
            None => {
                return;
            },
        }
        assert(s0.owner_available(id, owner));
        match self.guilds.remove(&guild_id) {
            Some(mut guild) => {
                match current {
                    Some(o) => {
                        guild.voice_channel_owners.remove(&o);
                    },
                    None => {},
                }
                match owner {
                    Some(u) => {
                        guild.voice_channel_owners.insert(u, id);
                    },
                    None => {},
                }
                self.guilds.insert(guild_id, guild);
            },
            None => {},
        }
        match self.voice_channels.remove(&id) {
            Some(mut voice_channel) => {
                voice_channel.owner_id = owner;
                self.voice_channels.insert(id, voice_channel);
            },
            None => {},
        }
        proof {
            assert(self@.guilds =~= s0.assign_owner(id, owner).guilds);
            assert(self@.voice_channels =~= s0.assign_owner(id, owner).voice_channels);
        }
    }

    pub fn update_guild(&mut self, id: u64, update: CachedGuildUpdate)
        requires
            old(self).wf(),
        ensures
            final(self).wf(),
            final(self)@ == match update.name {
                Some(name) => old(self)@.rename_guild(id, name@),
                None => old(self)@,
            },
    {
        let ghost s0 = self@;
        match update.name {
            Some(name) => {
                proof { lemma_rename_guild_wf(self@, id, name@); }
                let ghost n = name@;
                match self.guilds.remove(&id) {
                    Some(mut guild) => {
                        guild.name = name;
                        self.guilds.insert(id, guild);
                    },
                    None => {},
                }
                proof { assert(self@.guilds =~= s0.rename_guild(id, n).guilds); }
            },
            None => {},
        }
    }

    /// Applies the present fields of `update` to a cached join channel.
    pub fn update_join_channel(&mut self, id: u64, update: CachedJoinChannelUpdate)
        requires
            old(self).wf(),
        ensures
            final(self).wf(),
            final(self)@ == old(self)@.patch_join(id, update),
    {
        let ghost s0 = self@;
        proof { lemma_patch_join_wf(self@, id, update); }
        match self.join_channels.remove(&id) {
            Some(mut join_channel) => {
                match update.access_role_id {
                    Change::Replace(v) => join_channel.access_role_id = v,
                    Change::Keep => {},
                }
                match update.name {
                    Change::Replace(v) => join_channel.name = v,
                    Change::Keep => {},
                }
                match update.parent_id {
                    Change::Replace(v) => join_channel.parent_id = v,
                    Change::Keep => {},
                }
                match update.permanence {
                    Change::Replace(v) => join_channel.permanence = v,
                    Change::Keep => {},
                }
                match update.permission_overwrites {
                    Change::Replace(v) => join_channel.permission_overwrites = v,
                    Change::Keep => {},
                }
                match update.privacy {
                    Change::Replace(v) => join_channel.privacy = v,
                    Change::Keep => {},
                }
                self.join_channels.insert(id, join_channel);
                proof { assert(self@.join_channels =~= s0.patch_join(id, update).join_channels); }
            },
            None => {
                proof { assert(self@.join_channels =~= s0.join_channels); }
            },
        }
    }

    /// Applies the present fields of `update` to a cached voice channel; an owner change
    /// also moves the owner index entry.
    pub fn update_voice_channel(&mut self, id: u64, update: CachedVoiceChannelUpdate)
        requires
            old(self).wf(),
        ensures
            final(self).wf(),
            final(self)@ == old(self)@.patch_voice(id, update),
    {
        let ghost s0 = self@;
        let ghost u = update;
        proof { lemma_patch_voice_wf(self@, id, update); }
        let CachedVoiceChannelUpdate {
            bitrate,
            name,
            owner_id,
            permanence,
            permission_overwrites,
            privacy,
            rate_limit_per_user,
            rtc_region,
            user_limit,
            video_quality_mode,
        } = update;
        match self.voice_channels.remove(&id) {
            Some(mut voice_channel) => {
                match bitrate {
                    Change::Replace(v) => voice_channel.bitrate = v,
                    Change::Keep => {},
                }
                match name {
                    Change::Replace(v) => voice_channel.name = v,
                    Change::Keep => {},
                }
                match permanence {
                    Change::Replace(v) => voice_channel.permanence = v,
                    Change::Keep => {},
                }
                match permission_overwrites {
                    Change::Replace(v) => voice_channel.permission_overwrites = v,
                    Change::Keep => {},
                }
                match privacy {
                    Change::Replace(v) => voice_channel.privacy = v,
                    Change::Keep => {},
                }
                match rate_limit_per_user {
                    Change::Replace(v) => voice_channel.rate_limit_per_user = v,
                    Change::Keep => {},
                }
                match rtc_region {
                    Change::Replace(v) => voice_channel.rtc_region = v,
                    Change::Keep => {},
                }
                match user_limit {
                    Change::Replace(v) => voice_channel.user_limit = v,
                    Change::Keep => {},
                }
                match video_quality_mode {
                    Change::Replace(v) => voice_channel.video_quality_mode = v,
                    Change::Keep => {},
                }
                self.voice_channels.insert(id, voice_channel);
                proof { assert(self@.voice_channels =~= s0.patch_voice_fields(id, u).voice_channels); }
            },
            None => {
                proof { assert(self@.voice_channels =~= s0.voice_channels); }
            },
        }
        proof {
            assert(self@ == s0.patch_voice_fields(id, u));
            lemma_patch_voice_wf(s0, id, CachedVoiceChannelUpdate { owner_id: Change::Keep, ..u });
        }
        match owner_id {
            Change::Replace(o) => self.assign_owner(id, o),
            Change::Keep => {},
        }
    }

    /// Removes a guild: each of its join and voice channels is removed first, one at
    /// a time, and then the guild record with its indices.
    pub fn remove_guild(&mut self, id: u64)
        requires
            old(self).wf(),
        ensures
            final(self).wf(),
            final(self)@ == old(self)@.remove_guild(id),
    {
        let ghost s0 = self@;
        proof { lemma_remove_guild_wf(self@, id); }
        let mut join_ids: Vec<u64> = Vec::new();
        let mut voice_ids: Vec<u64> = Vec::new();
        match self.guilds.get(&id) {
            Some(guild) => {
                join_ids = ids_of(&guild.join_channel_ids);
                voice_ids = ids_of(&guild.voice_channel_ids);
                proof {
                    assert(guild@ == s0.guilds[id]);
                }
            },
            None => {},
        }
        proof {
            if s0.guilds.contains_key(id) {
                assert(join_ids@.to_set() == s0.guilds[id].join_channel_ids);
                assert(voice_ids@.to_set() == s0.guilds[id].voice_channel_ids);
            } else {
                assert(join_ids@.len() == 0);
                assert(voice_ids@.len() == 0);
            }
        }
        proof {
            assert forall|c: u64| (s0.join_channels.contains_key(c) && s0.join_channels[c].guild_id == id) <==> join_ids@.contains(c) by {
                if (s0.join_channels.contains_key(c) && s0.join_channels[c].guild_id == id) {
                    assert(s0.guilds[id].join_channel_ids.contains(c));
                    assert(join_ids@.to_set().contains(c));
                }
                if join_ids@.contains(c) {
                    assert(join_ids@.to_set().contains(c));
                    assert(s0.guilds.contains_key(id));
                    assert(s0.guilds[id].join_channel_ids.contains(c));
                }
            }
            assert forall|c: u64| (s0.voice_channels.contains_key(c) && s0.voice_channels[c].guild_id == id) <==> voice_ids@.contains(c) by {
                if (s0.voice_channels.contains_key(c) && s0.voice_channels[c].guild_id == id) {
                    assert(s0.guilds[id].voice_channel_ids.contains(c));
                    assert(voice_ids@.to_set().contains(c));
                }
                if voice_ids@.contains(c) {
                    assert(voice_ids@.to_set().contains(c));
                    assert(s0.guilds.contains_key(id));
                    assert(s0.guilds[id].voice_channel_ids.contains(c));
                }
            }
        }
        let mut i: usize = 0;
        while i < join_ids.len()
            invariant
                i <= join_ids.len(),
                self.wf(),
                join_ids@.no_duplicates(),
                forall|c: u64| (s0.join_channels.contains_key(c) && s0.join_channels[c].guild_id == id) <==> join_ids@.contains(c),
                self@.voice_channels == s0.voice_channels,
                self@.unavailable_guilds == s0.unavailable_guilds,
                self@.guilds.dom() == s0.guilds.dom(),
                forall|g: u64| g != id && #[trigger] self@.guilds.contains_key(g) ==> self@.guilds[g] == s0.guilds[g],
                forall|c: u64| #[trigger] self@.join_channels.contains_key(c)
                    <==> (s0.join_channels.contains_key(c) && forall|k: int| 0 <= k < i ==> join_ids@[k] != c),
                forall|c: u64| #[trigger] self@.join_channels.contains_key(c) ==> self@.join_channels[c] == s0.join_channels[c],
            decreases join_ids.len() - i,
        {
            let c = join_ids[i];
            proof {
                assert(join_ids@.contains(c));
                assert((s0.join_channels.contains_key(c) && s0.join_channels[c].guild_id == id));
                assert forall|k: int| 0 <= k < i implies join_ids@[k] != c by {
                    assert(join_ids@[k] != join_ids@[i as int]);
                }
                assert(self@.join_channels.contains_key(c));
                assert(self@.join_channels[c].guild_id == id);
            }
            self.remove_join_channel(c);
            i += 1;
        }
        let ghost s1 = self@;
        let mut i: usize = 0;
        while i < voice_ids.len()
            invariant
                i <= voice_ids.len(),
                self.wf(),
                voice_ids@.no_duplicates(),
                forall|c: u64| (s0.voice_channels.contains_key(c) && s0.voice_channels[c].guild_id == id) <==> voice_ids@.contains(c),
                self@.join_channels == s1.join_channels,
                self@.unavailable_guilds == s0.unavailable_guilds,
                self@.guilds.dom() == s0.guilds.dom(),
                forall|g: u64| g != id && #[trigger] self@.guilds.contains_key(g) ==> self@.guilds[g] == s0.guilds[g],
                forall|c: u64| #[trigger] self@.voice_channels.contains_key(c)
                    <==> (s0.voice_channels.contains_key(c) && forall|k: int| 0 <= k < i ==> voice_ids@[k] != c),
                forall|c: u64| #[trigger] self@.voice_channels.contains_key(c) ==> self@.voice_channels[c] == s0.voice_channels[c],
            decreases voice_ids.len() - i,
        {
            let c = voice_ids[i];
            proof {
                assert(voice_ids@.contains(c));
                assert((s0.voice_channels.contains_key(c) && s0.voice_channels[c].guild_id == id));
                assert forall|k: int| 0 <= k < i implies voice_ids@[k] != c by {
                    assert(voice_ids@[k] != voice_ids@[i as int]);
                }
                assert(self@.voice_channels.contains_key(c));
                assert(self@.voice_channels[c].guild_id == id);
            }
            self.remove_voice_channel(c);
            i += 1;
        }
        self.guilds.remove(&id);
        self.unavailable_guilds.remove(&id);
        proof {
            let t = s0.remove_guild(id);
            assert(self@.guilds =~= t.guilds);
            assert forall|c: u64| #[trigger] self@.join_channels.contains_key(c) <==> t.join_channels.contains_key(c) by {
                if t.join_channels.contains_key(c) && !self@.join_channels.contains_key(c) {
                    let k = choose|k: int| 0 <= k < join_ids.len() && join_ids@[k] == c;
                    assert(join_ids@.contains(c));
                }
                if self@.join_channels.contains_key(c) && s0.join_channels[c].guild_id == id {
                    assert((s0.join_channels.contains_key(c) && s0.join_channels[c].guild_id == id));
                    let k = choose|k: int| 0 <= k < join_ids.len() && join_ids@[k] == c;
                }
            }
            assert(self@.join_channels =~= t.join_channels);
            assert forall|c: u64| #[trigger] self@.voice_channels.contains_key(c) <==> t.voice_channels.contains_key(c) by {
                if t.voice_channels.contains_key(c) && !self@.voice_channels.contains_key(c) {
                    let k = choose|k: int| 0 <= k < voice_ids.len() && voice_ids@[k] == c;
                    assert(voice_ids@.contains(c));
                }
                if self@.voice_channels.contains_key(c) && s0.voice_channels[c].guild_id == id {
                    assert((s0.voice_channels.contains_key(c) && s0.voice_channels[c].guild_id == id));
                    let k = choose|k: int| 0 <= k < voice_ids.len() && voice_ids@[k] == c;
                }
            }
            assert(self@.voice_channels =~= t.voice_channels);
            assert(self@.unavailable_guilds =~= t.unavailable_guilds);
        }
    }

    /// Starts a guild afresh with no channels; whatever was cached of it is removed first.
    pub fn insert_guild(&mut self, bot_role_id: u64, id: u64, name: String)
        requires
            old(self).wf(),
        ensures
            final(self).wf(),
            final(self)@ == old(self)@.add_guild(bot_role_id, id, name@),
    {
        proof { lemma_add_guild_wf(self@, bot_role_id, id, name@); }
        let ghost s0 = self@;
        let ghost n = name@;
        self.remove_guild(id);
        let ghost s1 = self@;
        self.guilds.insert(id, CachedGuild {
            bot_role_id,
            id,
            join_channel_ids: HashSet::new(),
            name,
            voice_channel_ids: HashSet::new(),
            voice_channel_owners: HashMap::new(),
            voice_states: HashMap::new(),
        });
        proof {
            assert(self@.guilds =~= s1.guilds.insert(id, CacheView::fresh_guild(bot_role_id, id, n)));
        }
    }

    pub fn insert_unavailable_guilds(&mut self, ids: Vec<u64>)
        requires
            old(self).wf(),
        ensures
            final(self).wf(),
            final(self)@ == old(self)@.add_unavailable(ids@),
    {
        proof { lemma_add_unavailable_wf(self@, ids@); }
        let ghost s0 = self@;
        let mut i: usize = 0;
        proof {
            assert(ids@.subrange(0, 0).to_set() =~= Set::empty());
            assert(s0.unavailable_guilds.union(Set::empty()) =~= s0.unavailable_guilds);
        }
        while i < ids.len()
            invariant
                i <= ids.len(),
                self@ == (CacheView { unavailable_guilds: s0.unavailable_guilds.union(ids@.subrange(0, i as int).to_set()), ..s0 }),
            decreases ids.len() - i,
        {
            let ghost before = self@;
            self.unavailable_guilds.insert(ids[i]);
            proof {
                assert(ids@.subrange(0, i + 1) =~= ids@.subrange(0, i as int).push(ids@[i as int]));
                ids@.subrange(0, i as int).lemma_push_to_set_commute(ids@[i as int]);
                assert(self@.unavailable_guilds =~= s0.unavailable_guilds.union(ids@.subrange(0, i + 1).to_set()));
                assert(self@.guilds == before.guilds);
            }
            i += 1;
        }
        proof {
            assert(ids@.subrange(0, ids.len() as int) =~= ids@);
        }
    }
}

} // verus!
