use std::collections::HashMap;
use std::collections::HashSet;
use vstd::prelude::*;

use crate::model::{Change, ChannelPrivacy, PermissionOverwrite, VideoQualityMode};

verus! {

broadcast use vstd::std_specs::hash::group_hash_axioms;

/// The abstract state of a guild record.
pub struct GuildView {
    pub bot_role_id: u64,
    pub id: u64,
    pub name: Seq<char>,
    pub join_channel_ids: Set<u64>,
    pub voice_channel_ids: Set<u64>,
    /// Owner index of this guild: user id to the voice channel that the user owns.
    pub owners: Map<u64, u64>,
    /// Presence index of this guild: user id to the tracked voice channel the user is in.
    pub presence: Map<u64, u64>,
}

/// The abstract state of a join channel configuration.
pub struct JoinChannelView {
    pub access_role_id: Option<u64>,
    pub id: u64,
    pub guild_id: u64,
    pub name: Seq<char>,
    pub parent_id: Option<u64>,
    pub permanence: bool,
    pub permission_overwrites: Seq<PermissionOverwrite>,
    pub privacy: ChannelPrivacy,
}

/// The abstract state of an ephemeral voice channel.
pub struct VoiceChannelView {
    pub bitrate: u32,
    pub connected_user_ids: Set<u64>,
    pub id: u64,
    pub guild_id: u64,
    pub name: Seq<char>,
    pub owner_id: Option<u64>,
    pub permanence: bool,
    pub permission_overwrites: Seq<PermissionOverwrite>,
    pub privacy: ChannelPrivacy,
    pub rate_limit_per_user: Option<u16>,
    pub rtc_region: Option<Seq<char>>,
    pub user_limit: Option<u32>,
    pub video_quality_mode: VideoQualityMode,
}

/// The abstract state of the whole store.
pub struct CacheView {
    pub guilds: Map<u64, GuildView>,
    pub join_channels: Map<u64, JoinChannelView>,
    pub voice_channels: Map<u64, VoiceChannelView>,
    pub unavailable_guilds: Set<u64>,
}

impl CacheView {
    pub open spec fn empty() -> CacheView {
        CacheView {
            guilds: Map::empty(),
            join_channels: Map::empty(),
            voice_channels: Map::empty(),
            unavailable_guilds: Set::empty(),
        }
    }

    /// The owner index, keyed by (guild, user).
    pub open spec fn owner_index(self) -> Map<(u64, u64), u64> {
        Map::new(
            |k: (u64, u64)| self.guilds.contains_key(k.0) && self.guilds[k.0].owners.contains_key(k.1),
            |k: (u64, u64)| self.guilds[k.0].owners[k.1],
        )
    }

    /// The presence index, keyed by (guild, user).
    pub open spec fn presence_index(self) -> Map<(u64, u64), u64> {
        Map::new(
            |k: (u64, u64)| self.guilds.contains_key(k.0) && self.guilds[k.0].presence.contains_key(k.1),
            |k: (u64, u64)| self.guilds[k.0].presence[k.1],
        )
    }

    pub open spec fn owned_channel(self, guild_id: u64, user_id: u64) -> Option<u64> {
        if self.guilds.contains_key(guild_id) && self.guilds[guild_id].owners.contains_key(user_id) {
            Some(self.guilds[guild_id].owners[user_id])
        } else {
            None
        }
    }

    pub open spec fn present_channel(self, guild_id: u64, user_id: u64) -> Option<u64> {
        if self.guilds.contains_key(guild_id) && self.guilds[guild_id].presence.contains_key(user_id) {
            Some(self.guilds[guild_id].presence[user_id])
        } else {
            None
        }
    }

    // ----- well-formedness -----

    pub open spec fn wf_keys(self) -> bool {
        &&& forall|g: u64| #[trigger] self.guilds.contains_key(g) ==> self.guilds[g].id == g
        &&& forall|c: u64| #[trigger] self.join_channels.contains_key(c) ==> self.join_channels[c].id == c
        &&& forall|c: u64| #[trigger] self.voice_channels.contains_key(c) ==> self.voice_channels[c].id == c
    }

    /// Each guild's join channel set is exactly the join channels that name that guild.
    pub open spec fn wf_join(self) -> bool {
        &&& forall|c: u64| #[trigger] self.join_channels.contains_key(c) ==> {
            &&& self.guilds.contains_key(self.join_channels[c].guild_id)
            &&& self.guilds[self.join_channels[c].guild_id].join_channel_ids.contains(c)
        }
        &&& forall|g: u64, c: u64| self.guilds.contains_key(g) && #[trigger] self.guilds[g].join_channel_ids.contains(c)
            ==> self.join_channels.contains_key(c) && self.join_channels[c].guild_id == g
    }

    /// Each guild's voice channel set is exactly the voice channels that name that guild.
    pub open spec fn wf_voice(self) -> bool {
        &&& forall|c: u64| #[trigger] self.voice_channels.contains_key(c) ==> {
            &&& self.guilds.contains_key(self.voice_channels[c].guild_id)
            &&& self.guilds[self.voice_channels[c].guild_id].voice_channel_ids.contains(c)
        }
        &&& forall|g: u64, c: u64| self.guilds.contains_key(g) && #[trigger] self.guilds[g].voice_channel_ids.contains(c)
            ==> self.voice_channels.contains_key(c) && self.voice_channels[c].guild_id == g
    }

    /// The owner index holds exactly one entry per owned voice channel.
    pub open spec fn wf_owners(self) -> bool {
        &&& forall|g: u64, u: u64| self.guilds.contains_key(g) && #[trigger] self.guilds[g].owners.contains_key(u) ==> {
            &&& self.voice_channels.contains_key(self.guilds[g].owners[u])
            &&& self.voice_channels[self.guilds[g].owners[u]].guild_id == g
            &&& self.voice_channels[self.guilds[g].owners[u]].owner_id == Some(u)
        }
        &&& forall|c: u64| #[trigger] self.voice_channels.contains_key(c) && self.voice_channels[c].owner_id is Some ==> {
            &&& self.guilds[self.voice_channels[c].guild_id].owners.contains_key(self.voice_channels[c].owner_id->0)
            &&& self.guilds[self.voice_channels[c].guild_id].owners[self.voice_channels[c].owner_id->0] == c
        }
    }

    /// The presence index and the connected user sets describe the same relation.
    pub open spec fn wf_presence(self) -> bool {
        &&& forall|g: u64, u: u64| self.guilds.contains_key(g) && #[trigger] self.guilds[g].presence.contains_key(u) ==> {
            &&& self.voice_channels.contains_key(self.guilds[g].presence[u])
            &&& self.voice_channels[self.guilds[g].presence[u]].guild_id == g
            &&& self.voice_channels[self.guilds[g].presence[u]].connected_user_ids.contains(u)
        }
        &&& forall|c: u64, u: u64| self.voice_channels.contains_key(c) && #[trigger] self.voice_channels[c].connected_user_ids.contains(u) ==> {
            &&& self.guilds[self.voice_channels[c].guild_id].presence.contains_key(u)
            &&& self.guilds[self.voice_channels[c].guild_id].presence[u] == c
        }
    }

    pub open spec fn wf(self) -> bool {
        &&& self.wf_keys()
        &&& self.wf_join()
        &&& self.wf_voice()
        &&& self.wf_owners()
        &&& self.wf_presence()
    }

    // ----- transitions -----

    /// Removes a join channel and its guild membership.
    pub open spec fn remove_join(self, id: u64) -> CacheView {
        if self.join_channels.contains_key(id) {
            let g = self.join_channels[id].guild_id;
            CacheView {
                guilds: if self.guilds.contains_key(g) {
                    self.guilds.insert(g, GuildView {
                        join_channel_ids: self.guilds[g].join_channel_ids.remove(id),
                        ..self.guilds[g]
                    })
                } else {
                    self.guilds
                },
                join_channels: self.join_channels.remove(id),
                ..self
            }
        } else {
            self
        }
    }

    /// Inserts (or replaces) a join channel of a cached guild; a join channel of an
    /// unknown guild is not stored.
    pub open spec fn add_join(self, j: JoinChannelView) -> CacheView {
        if self.guilds.contains_key(j.guild_id) {
            let s = self.remove_join(j.id);
            let g = s.guilds[j.guild_id];
            CacheView {
                guilds: s.guilds.insert(j.guild_id, GuildView {
                    join_channel_ids: g.join_channel_ids.insert(j.id),
                    ..g
                }),
                join_channels: s.join_channels.insert(j.id, j),
                ..s
            }
        } else {
            self
        }
    }

    /// Removes a voice channel, its guild membership, its owner entry and the
    /// presence entries that point at it.
    pub open spec fn remove_voice(self, id: u64) -> CacheView {
        if self.voice_channels.contains_key(id) {
            let v = self.voice_channels[id];
            let g = v.guild_id;
            CacheView {
                guilds: if self.guilds.contains_key(g) {
                    self.guilds.insert(g, GuildView {
                        voice_channel_ids: self.guilds[g].voice_channel_ids.remove(id),
                        owners: match v.owner_id {
                            Some(u) => self.guilds[g].owners.remove(u),
                            None => self.guilds[g].owners,
                        },
                        presence: self.guilds[g].presence.remove_keys(v.connected_user_ids),
                        ..self.guilds[g]
                    })
                } else {
                    self.guilds
                },
                voice_channels: self.voice_channels.remove(id),
                ..self
            }
        } else {
            self
        }
    }

    /// Inserts (or replaces) a voice channel with no connected users. A voice channel
    /// of an unknown guild is not stored; a requested owner who already owns another
    /// voice channel of the guild is not recorded, and the channel is stored unowned.
    pub open spec fn add_voice(self, v: VoiceChannelView) -> CacheView {
        if self.guilds.contains_key(v.guild_id) {
            let s = self.remove_voice(v.id);
            let g = s.guilds[v.guild_id];
            let owner = match v.owner_id {
                Some(u) => if g.owners.contains_key(u) { None } else { Some(u) },
                None => None,
            };
            CacheView {
                guilds: s.guilds.insert(v.guild_id, GuildView {
                    voice_channel_ids: g.voice_channel_ids.insert(v.id),
                    owners: match owner {
                        Some(u) => g.owners.insert(u, v.id),
                        None => g.owners,
                    },
                    ..g
                }),
                voice_channels: s.voice_channels.insert(v.id, VoiceChannelView {
                    owner_id: owner,
                    connected_user_ids: Set::empty(),
                    ..v
                }),
                ..s
            }
        } else {
            self
        }
    }

    /// Forgets the tracked presence of a user in a guild.
    pub open spec fn remove_presence(self, guild_id: u64, user_id: u64) -> CacheView {
        if self.guilds.contains_key(guild_id) && self.guilds[guild_id].presence.contains_key(user_id) {
            let c = self.guilds[guild_id].presence[user_id];
            CacheView {
                guilds: self.guilds.insert(guild_id, GuildView {
                    presence: self.guilds[guild_id].presence.remove(user_id),
                    ..self.guilds[guild_id]
                }),
                voice_channels: if self.voice_channels.contains_key(c) {
                    self.voice_channels.insert(c, VoiceChannelView {
                        connected_user_ids: self.voice_channels[c].connected_user_ids.remove(user_id),
                        ..self.voice_channels[c]
                    })
                } else {
                    self.voice_channels
                },
                ..self
            }
        } else {
            self
        }
    }

    /// Records that a user is in a cached voice channel of the guild; any other
    /// tracked presence of the user in that guild is forgotten first.
    pub open spec fn add_presence(self, guild_id: u64, user_id: u64, channel_id: u64) -> CacheView {
        if self.guilds.contains_key(guild_id) && self.voice_channels.contains_key(channel_id)
            && self.voice_channels[channel_id].guild_id == guild_id {
            let s = self.remove_presence(guild_id, user_id);
            CacheView {
                guilds: s.guilds.insert(guild_id, GuildView {
                    presence: s.guilds[guild_id].presence.insert(user_id, channel_id),
                    ..s.guilds[guild_id]
                }),
                voice_channels: s.voice_channels.insert(channel_id, VoiceChannelView {
                    connected_user_ids: s.voice_channels[channel_id].connected_user_ids.insert(user_id),
                    ..s.voice_channels[channel_id]
                }),
                ..s
            }
        } else {
            self
        }
    }

    /// Whether giving `owner` to voice channel `id` keeps one channel per owner.
    pub open spec fn owner_available(self, id: u64, owner: Option<u64>) -> bool {
        match owner {
            Some(u) => {
                let g = self.voice_channels[id].guild_id;
                !self.guilds[g].owners.contains_key(u) || self.guilds[g].owners[u] == id
            },
            None => true,
        }
    }

    /// Sets or clears the owner of a voice channel together with the owner index.
    /// Nothing changes when the new owner already owns another voice channel.
    pub open spec fn assign_owner(self, id: u64, owner: Option<u64>) -> CacheView {
        if self.voice_channels.contains_key(id) && self.guilds.contains_key(self.voice_channels[id].guild_id)
            && self.owner_available(id, owner) {
            let g = self.voice_channels[id].guild_id;
            let gv = self.guilds[g];
            let cleared = match self.voice_channels[id].owner_id {
                Some(o) => gv.owners.remove(o),
                None => gv.owners,
            };
            CacheView {
                guilds: self.guilds.insert(g, GuildView {
                    owners: match owner {
                        Some(u) => cleared.insert(u, id),
                        None => cleared,
                    },
                    ..gv
                }),
                voice_channels: self.voice_channels.insert(id, VoiceChannelView {
                    owner_id: owner,
                    ..self.voice_channels[id]
                }),
                ..self
            }
        } else {
            self
        }
    }

    /// Removes a guild together with every join and voice channel of it, and its
    /// owner and presence entries; the guild is no longer marked unavailable.
    pub open spec fn remove_guild(self, id: u64) -> CacheView {
        CacheView {
            guilds: self.guilds.remove(id),
            join_channels: Map::new(
                |c: u64| self.join_channels.contains_key(c) && self.join_channels[c].guild_id != id,
                |c: u64| self.join_channels[c],
            ),
            voice_channels: Map::new(
                |c: u64| self.voice_channels.contains_key(c) && self.voice_channels[c].guild_id != id,
                |c: u64| self.voice_channels[c],
            ),
            unavailable_guilds: self.unavailable_guilds.remove(id),
        }
    }

    pub open spec fn fresh_guild(bot_role_id: u64, id: u64, name: Seq<char>) -> GuildView {
        GuildView {
            bot_role_id,
            id,
            name,
            join_channel_ids: Set::empty(),
            voice_channel_ids: Set::empty(),
            owners: Map::empty(),
            presence: Map::empty(),
        }
    }

    /// Starts a guild afresh: whatever was cached of it before is removed first.
    pub open spec fn add_guild(self, bot_role_id: u64, id: u64, name: Seq<char>) -> CacheView {
        let s = self.remove_guild(id);
        CacheView {
            guilds: s.guilds.insert(id, Self::fresh_guild(bot_role_id, id, name)),
            ..s
        }
    }

    pub open spec fn rename_guild(self, id: u64, name: Seq<char>) -> CacheView {
        if self.guilds.contains_key(id) {
            CacheView {
                guilds: self.guilds.insert(id, GuildView { name, ..self.guilds[id] }),
                ..self
            }
        } else {
            self
        }
    }

    pub open spec fn add_unavailable(self, ids: Seq<u64>) -> CacheView {
        CacheView { unavailable_guilds: self.unavailable_guilds.union(ids.to_set()), ..self }
    }
}

// ----- preservation of well-formedness -----

pub proof fn lemma_empty_wf()
    ensures
        CacheView::empty().wf(),
{
}

pub proof fn lemma_remove_join_wf(s: CacheView, id: u64)
    requires
        s.wf(),
    ensures
        s.remove_join(id).wf(),
{
}

pub proof fn lemma_add_join_wf(s: CacheView, j: JoinChannelView)
    requires
        s.wf(),
    ensures
        s.add_join(j).wf(),
{
    lemma_remove_join_wf(s, j.id);
}

pub proof fn lemma_remove_voice_wf(s: CacheView, id: u64)
    requires
        s.wf(),
    ensures
        s.remove_voice(id).wf(),
{
    if s.voice_channels.contains_key(id) {
        let t = s.remove_voice(id);
        let v = s.voice_channels[id];
        let g = v.guild_id;
        assert(t.wf_keys());
        assert(t.wf_join());
        assert(t.wf_voice());
        assert forall|g2: u64, u: u64| t.guilds.contains_key(g2) && #[trigger] t.guilds[g2].owners.contains_key(u)
            implies {
            &&& t.voice_channels.contains_key(t.guilds[g2].owners[u])
            &&& t.voice_channels[t.guilds[g2].owners[u]].guild_id == g2
            &&& t.voice_channels[t.guilds[g2].owners[u]].owner_id == Some(u)
        } by {
            assert(s.guilds[g2].owners.contains_key(u));
            let c = s.guilds[g2].owners[u];
            assert(t.guilds[g2].owners[u] == c);
            assert(c != id);
        }
        assert forall|c: u64| #[trigger] t.voice_channels.contains_key(c) && t.voice_channels[c].owner_id is Some implies {
            &&& t.guilds[t.voice_channels[c].guild_id].owners.contains_key(t.voice_channels[c].owner_id->0)
            &&& t.guilds[t.voice_channels[c].guild_id].owners[t.voice_channels[c].owner_id->0] == c
        } by {
            assert(s.voice_channels.contains_key(c));
            assert(c != id);
        }
        assert(t.wf_owners());
        assert forall|g2: u64, u: u64| t.guilds.contains_key(g2) && #[trigger] t.guilds[g2].presence.contains_key(u) implies {
            &&& t.voice_channels.contains_key(t.guilds[g2].presence[u])
            &&& t.voice_channels[t.guilds[g2].presence[u]].guild_id == g2
            &&& t.voice_channels[t.guilds[g2].presence[u]].connected_user_ids.contains(u)
        } by {
            assert(s.guilds[g2].presence.contains_key(u));
            let c = s.guilds[g2].presence[u];
            assert(t.guilds[g2].presence[u] == c);
            if c == id {
                assert(v.connected_user_ids.contains(u));
            }
        }
        assert forall|c: u64, u: u64| t.voice_channels.contains_key(c) && #[trigger] t.voice_channels[c].connected_user_ids.contains(u) implies {
            &&& t.guilds[t.voice_channels[c].guild_id].presence.contains_key(u)
            &&& t.guilds[t.voice_channels[c].guild_id].presence[u] == c
        } by {
            assert(s.voice_channels[c].connected_user_ids.contains(u));
            if v.connected_user_ids.contains(u) {
                assert(s.guilds[g].presence[u] == id);
            }
        }
        assert(t.wf_presence());
    }
}

pub proof fn lemma_add_voice_wf(s: CacheView, v: VoiceChannelView)
    requires
        s.wf(),
    ensures
        s.add_voice(v).wf(),
{
    lemma_remove_voice_wf(s, v.id);
    let s1 = s.remove_voice(v.id);
    let t = s.add_voice(v);
    assert forall|c: u64, u: u64| t.voice_channels.contains_key(c) && #[trigger] t.voice_channels[c].connected_user_ids.contains(u) implies {
        &&& t.guilds[t.voice_channels[c].guild_id].presence.contains_key(u)
        &&& t.guilds[t.voice_channels[c].guild_id].presence[u] == c
    } by {
        if c != v.id {
            assert(s1.voice_channels[c].connected_user_ids.contains(u));
        }
    }
}

pub proof fn lemma_remove_presence_wf(s: CacheView, guild_id: u64, user_id: u64)
    requires
        s.wf(),
    ensures
        s.remove_presence(guild_id, user_id).wf(),
{
    let t = s.remove_presence(guild_id, user_id);
    assert forall|c: u64, u: u64| t.voice_channels.contains_key(c) && #[trigger] t.voice_channels[c].connected_user_ids.contains(u) implies {
        &&& t.guilds[t.voice_channels[c].guild_id].presence.contains_key(u)
        &&& t.guilds[t.voice_channels[c].guild_id].presence[u] == c
    } by {
        assert(s.voice_channels[c].connected_user_ids.contains(u));
    }
}

pub proof fn lemma_add_presence_wf(s: CacheView, guild_id: u64, user_id: u64, channel_id: u64)
    requires
        s.wf(),
    ensures
        s.add_presence(guild_id, user_id, channel_id).wf(),
{
    lemma_remove_presence_wf(s, guild_id, user_id);
    let s1 = s.remove_presence(guild_id, user_id);
    let t = s.add_presence(guild_id, user_id, channel_id);
    assert forall|c: u64, u: u64| t.voice_channels.contains_key(c) && #[trigger] t.voice_channels[c].connected_user_ids.contains(u) implies {
        &&& t.guilds[t.voice_channels[c].guild_id].presence.contains_key(u)
        &&& t.guilds[t.voice_channels[c].guild_id].presence[u] == c
    } by {
        if s.guilds.contains_key(guild_id) && s.voice_channels.contains_key(channel_id)
            && s.voice_channels[channel_id].guild_id == guild_id {
            if !(c == channel_id && u == user_id) {
                assert(s1.voice_channels[c].connected_user_ids.contains(u));
            }
        } else {
            assert(s.voice_channels[c].connected_user_ids.contains(u));
        }
    }
}

pub proof fn lemma_assign_owner_wf(s: CacheView, id: u64, owner: Option<u64>)
    requires
        s.wf(),
    ensures
        s.assign_owner(id, owner).wf(),
{
    let t = s.assign_owner(id, owner);
    assert forall|c: u64, u: u64| t.voice_channels.contains_key(c) && #[trigger] t.voice_channels[c].connected_user_ids.contains(u) implies {
        &&& t.guilds[t.voice_channels[c].guild_id].presence.contains_key(u)
        &&& t.guilds[t.voice_channels[c].guild_id].presence[u] == c
    } by {
        assert(s.voice_channels[c].connected_user_ids.contains(u));
    }
}

pub proof fn lemma_remove_guild_wf(s: CacheView, id: u64)
    requires
        s.wf(),
    ensures
        s.remove_guild(id).wf(),
{
    let t = s.remove_guild(id);
    assert forall|c: u64, u: u64| t.voice_channels.contains_key(c) && #[trigger] t.voice_channels[c].connected_user_ids.contains(u) implies {
        &&& t.guilds[t.voice_channels[c].guild_id].presence.contains_key(u)
        &&& t.guilds[t.voice_channels[c].guild_id].presence[u] == c
    } by {
        assert(s.voice_channels[c].connected_user_ids.contains(u));
    }
}

pub proof fn lemma_add_guild_wf(s: CacheView, bot_role_id: u64, id: u64, name: Seq<char>)
    requires
        s.wf(),
    ensures
        s.add_guild(bot_role_id, id, name).wf(),
{
    lemma_remove_guild_wf(s, id);
}

// ----- records -----

/// A cached guild, with the ids of its channels and its owner and presence indices.
pub struct CachedGuild {
    pub bot_role_id: u64,
    pub id: u64,
    pub join_channel_ids: HashSet<u64>,
    pub name: String,
    pub voice_channel_ids: HashSet<u64>,
    pub voice_channel_owners: HashMap<u64, u64>,
    pub voice_states: HashMap<u64, u64>,
}

impl View for CachedGuild {
    type V = GuildView;

    open spec fn view(&self) -> GuildView {
        GuildView {
            bot_role_id: self.bot_role_id,
            id: self.id,
            name: self.name@,
            join_channel_ids: self.join_channel_ids@,
            voice_channel_ids: self.voice_channel_ids@,
            owners: self.voice_channel_owners@,
            presence: self.voice_states@,
        }
    }
}

/// Fields of a guild to change; an absent field is left as it is.
pub struct CachedGuildUpdate {
    pub name: Option<String>,
}

/// A cached join channel configuration.
pub struct CachedJoinChannel {
    pub access_role_id: Option<u64>,
    pub id: u64,
    pub guild_id: u64,
    pub name: String,
    pub parent_id: Option<u64>,
    pub permanence: bool,
    pub permission_overwrites: Vec<PermissionOverwrite>,
    pub privacy: ChannelPrivacy,
}

impl View for CachedJoinChannel {
    type V = JoinChannelView;

    open spec fn view(&self) -> JoinChannelView {
        JoinChannelView {
            access_role_id: self.access_role_id,
            id: self.id,
            guild_id: self.guild_id,
            name: self.name@,
            parent_id: self.parent_id,
            permanence: self.permanence,
            permission_overwrites: self.permission_overwrites@,
            privacy: self.privacy,
        }
    }
}

/// Fields of a join channel to change.
pub struct CachedJoinChannelUpdate {
    pub access_role_id: Change<Option<u64>>,
    pub name: Change<String>,
    pub parent_id: Change<Option<u64>>,
    pub permanence: Change<bool>,
    pub permission_overwrites: Change<Vec<PermissionOverwrite>>,
    pub privacy: Change<ChannelPrivacy>,
}

/// A cached ephemeral voice channel.
pub struct CachedVoiceChannel {
    pub bitrate: u32,
    pub connected_user_ids: HashSet<u64>,
    pub id: u64,
    pub guild_id: u64,
    pub name: String,
    pub owner_id: Option<u64>,
    pub permanence: bool,
    pub permission_overwrites: Vec<PermissionOverwrite>,
    pub privacy: ChannelPrivacy,
    pub rate_limit_per_user: Option<u16>,
    pub rtc_region: Option<String>,
    pub user_limit: Option<u32>,
    pub video_quality_mode: VideoQualityMode,
}

pub open spec fn opt_string_view(s: Option<String>) -> Option<Seq<char>> {
    match s {
        Some(r) => Some(r@),
        None => None,
    }
}

impl View for CachedVoiceChannel {
    type V = VoiceChannelView;

    open spec fn view(&self) -> VoiceChannelView {
        VoiceChannelView {
            bitrate: self.bitrate,
            connected_user_ids: self.connected_user_ids@,
            id: self.id,
            guild_id: self.guild_id,
            name: self.name@,
            owner_id: self.owner_id,
            permanence: self.permanence,
            permission_overwrites: self.permission_overwrites@,
            privacy: self.privacy,
            rate_limit_per_user: self.rate_limit_per_user,
            rtc_region: opt_string_view(self.rtc_region),
            user_limit: self.user_limit,
            video_quality_mode: self.video_quality_mode,
        }
    }
}

/// Fields of a voice channel to change.
pub struct CachedVoiceChannelUpdate {
    pub bitrate: Change<u32>,
    pub name: Change<String>,
    pub owner_id: Change<Option<u64>>,
    pub permanence: Change<bool>,
    pub permission_overwrites: Change<Vec<PermissionOverwrite>>,
    pub privacy: Change<ChannelPrivacy>,
    pub rate_limit_per_user: Change<Option<u16>>,
    pub rtc_region: Change<Option<String>>,
    pub user_limit: Change<Option<u32>>,
    pub video_quality_mode: Change<VideoQualityMode>,
}

pub open spec fn changed_string(c: Change<String>, cur: Seq<char>) -> Seq<char> {
    match c {
        Change::Keep => cur,
        Change::Replace(v) => v@,
    }
}

pub open spec fn changed_overwrites(
    c: Change<Vec<PermissionOverwrite>>,
    cur: Seq<PermissionOverwrite>,
) -> Seq<PermissionOverwrite> {
    match c {
        Change::Keep => cur,
        Change::Replace(v) => v@,
    }
}

pub open spec fn changed_region(c: Change<Option<String>>, cur: Option<Seq<char>>) -> Option<Seq<char>> {
    match c {
        Change::Keep => cur,
        Change::Replace(v) => opt_string_view(v),
    }
}

impl CacheView {
    /// Applies the present fields of a join channel update.
    pub open spec fn patch_join(self, id: u64, u: CachedJoinChannelUpdate) -> CacheView {
        if self.join_channels.contains_key(id) {
            let j = self.join_channels[id];
            CacheView {
                join_channels: self.join_channels.insert(id, JoinChannelView {
                    access_role_id: u.access_role_id.apply(j.access_role_id),
                    name: changed_string(u.name, j.name),
                    parent_id: u.parent_id.apply(j.parent_id),
                    permanence: u.permanence.apply(j.permanence),
                    permission_overwrites: changed_overwrites(u.permission_overwrites, j.permission_overwrites),
                    privacy: u.privacy.apply(j.privacy),
                    ..j
                }),
                ..self
            }
        } else {
            self
        }
    }

    /// Applies the present fields of a voice channel update other than the owner.
    pub open spec fn patch_voice_fields(self, id: u64, u: CachedVoiceChannelUpdate) -> CacheView {
        if self.voice_channels.contains_key(id) {
            let v = self.voice_channels[id];
            CacheView {
                voice_channels: self.voice_channels.insert(id, VoiceChannelView {
                    bitrate: u.bitrate.apply(v.bitrate),
                    name: changed_string(u.name, v.name),
                    permanence: u.permanence.apply(v.permanence),
                    permission_overwrites: changed_overwrites(u.permission_overwrites, v.permission_overwrites),
                    privacy: u.privacy.apply(v.privacy),
                    rate_limit_per_user: u.rate_limit_per_user.apply(v.rate_limit_per_user),
                    rtc_region: changed_region(u.rtc_region, v.rtc_region),
                    user_limit: u.user_limit.apply(v.user_limit),
                    video_quality_mode: u.video_quality_mode.apply(v.video_quality_mode),
                    ..v
                }),
                ..self
            }
        } else {
            self
        }
    }

    /// Applies the present fields of a voice channel update; an owner change goes
    /// through `assign_owner`, which keeps the owner index in step.
    pub open spec fn patch_voice(self, id: u64, u: CachedVoiceChannelUpdate) -> CacheView {
        let s = self.patch_voice_fields(id, u);
        match u.owner_id {
            Change::Keep => s,
            Change::Replace(o) => s.assign_owner(id, o),
        }
    }
}

pub proof fn lemma_patch_join_wf(s: CacheView, id: u64, u: CachedJoinChannelUpdate)
    requires
        s.wf(),
    ensures
        s.patch_join(id, u).wf(),
{
}

pub proof fn lemma_patch_voice_wf(s: CacheView, id: u64, u: CachedVoiceChannelUpdate)
    requires
        s.wf(),
    ensures
        s.patch_voice(id, u).wf(),
{
    let t = s.patch_voice_fields(id, u);
    assert forall|c: u64, x: u64| t.voice_channels.contains_key(c) && #[trigger] t.voice_channels[c].connected_user_ids.contains(x) implies {
        &&& t.guilds[t.voice_channels[c].guild_id].presence.contains_key(x)
        &&& t.guilds[t.voice_channels[c].guild_id].presence[x] == c
    } by {
        assert(s.voice_channels[c].connected_user_ids.contains(x));
    }
    assert(t.wf());
    match u.owner_id {
        Change::Keep => {},
        Change::Replace(o) => lemma_assign_owner_wf(t, id, o),
    }
}

pub proof fn lemma_rename_guild_wf(s: CacheView, id: u64, name: Seq<char>)
    requires
        s.wf(),
    ensures
        s.rename_guild(id, name).wf(),
{
}

pub proof fn lemma_add_unavailable_wf(s: CacheView, ids: Seq<u64>)
    requires
        s.wf(),
    ensures
        s.add_unavailable(ids).wf(),
{
}

} // verus!
