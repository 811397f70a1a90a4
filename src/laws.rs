use vstd::prelude::*;

use crate::lifecycle::{after_presence, presence_deletes};
use crate::store::{lemma_remove_guild_wf, CacheView, JoinChannelView};

verus! {

/// In a well-formed store, an owned voice channel is the owner index entry of its
/// (guild, owner) pair, and no other voice channel of that guild has the same owner.
pub proof fn lemma_owner_index_bijection(s: CacheView, c: u64, other: u64)
    requires
        s.wf(),
        s.voice_channels.contains_key(c),
        s.voice_channels[c].owner_id is Some,
    ensures
        s.owner_index().contains_key((s.voice_channels[c].guild_id, s.voice_channels[c].owner_id->0)),
        s.owner_index()[(s.voice_channels[c].guild_id, s.voice_channels[c].owner_id->0)] == c,
        s.voice_channels.contains_key(other) && other != c
            && s.voice_channels[other].guild_id == s.voice_channels[c].guild_id
            ==> s.voice_channels[other].owner_id != s.voice_channels[c].owner_id,
{
    if s.voice_channels.contains_key(other) && other != c
        && s.voice_channels[other].guild_id == s.voice_channels[c].guild_id
        && s.voice_channels[other].owner_id == s.voice_channels[c].owner_id {
        assert(s.voice_channels[other].owner_id is Some);
    }
}

/// In a well-formed store, every presence index entry names a cached voice channel of
/// that guild which lists the user as connected.
pub proof fn lemma_presence_integrity(s: CacheView, guild_id: u64, user_id: u64)
    requires
        s.wf(),
        s.presence_index().contains_key((guild_id, user_id)),
    ensures
        s.voice_channels.contains_key(s.presence_index()[(guild_id, user_id)]),
        s.voice_channels[s.presence_index()[(guild_id, user_id)]].guild_id == guild_id,
        s.voice_channels[s.presence_index()[(guild_id, user_id)]].connected_user_ids.contains(user_id),
{
    assert(s.guilds[guild_id].presence.contains_key(user_id));
}

/// Removing a guild leaves no guild record, join channel, voice channel, owner entry or
/// presence entry of that guild, and the store stays well-formed.
pub proof fn lemma_remove_guild_cascades(s: CacheView, guild_id: u64)
    requires
        s.wf(),
    ensures
        s.remove_guild(guild_id).wf(),
        !s.remove_guild(guild_id).guilds.contains_key(guild_id),
        forall|c: u64| #[trigger] s.remove_guild(guild_id).join_channels.contains_key(c)
            ==> s.remove_guild(guild_id).join_channels[c].guild_id != guild_id,
        forall|c: u64| #[trigger] s.remove_guild(guild_id).voice_channels.contains_key(c)
            ==> s.remove_guild(guild_id).voice_channels[c].guild_id != guild_id,
        forall|k: (u64, u64)| #[trigger] s.remove_guild(guild_id).owner_index().contains_key(k) ==> k.0 != guild_id,
        forall|k: (u64, u64)| #[trigger] s.remove_guild(guild_id).presence_index().contains_key(k) ==> k.0 != guild_id,
{
    lemma_remove_guild_wf(s, guild_id);
}

/// Adding a join channel that the store did not hold and then removing it gives back
/// the store as it was, so the guild's join channel ids are as before.
pub proof fn lemma_join_channel_round_trip(s: CacheView, j: JoinChannelView)
    requires
        s.wf(),
        s.guilds.contains_key(j.guild_id),
        !s.join_channels.contains_key(j.id),
    ensures
        s.add_join(j).remove_join(j.id) == s,
        s.add_join(j).remove_join(j.id).guilds[j.guild_id].join_channel_ids == s.guilds[j.guild_id].join_channel_ids,
        !s.add_join(j).remove_join(j.id).join_channels.contains_key(j.id),
{
    let t = s.add_join(j).remove_join(j.id);
    let g = s.guilds[j.guild_id];
    assert(s.remove_join(j.id) == s);
    assert(!g.join_channel_ids.contains(j.id));
    assert(g.join_channel_ids.insert(j.id).remove(j.id) =~= g.join_channel_ids);
    assert(t.guilds[j.guild_id] == g);
    assert(t.guilds =~= s.guilds);
    assert(t.join_channels =~= s.join_channels);
}

/// A leave event applied a second time asks for no deletion and leaves the store as the
/// first application left it.
pub proof fn lemma_leave_idempotent(s: CacheView, guild_id: u64, user_id: u64, is_bot: bool)
    requires
        s.wf(),
    ensures
        presence_deletes(after_presence(s, guild_id, user_id, is_bot, None), guild_id, user_id, is_bot, None) is None,
        after_presence(after_presence(s, guild_id, user_id, is_bot, None), guild_id, user_id, is_bot, None)
            == after_presence(s, guild_id, user_id, is_bot, None),
{
    let s1 = after_presence(s, guild_id, user_id, is_bot, None);
    if !is_bot && s.guilds.contains_key(guild_id) {
        assert(s1.guilds.contains_key(guild_id));
        assert(!s1.guilds[guild_id].presence.contains_key(user_id));
    }
}

} // verus!
