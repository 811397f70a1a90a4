use voice_rooms::cache::Cache;
use voice_rooms::commands::owner_change;
use voice_rooms::model::{Change, ChannelPrivacy, VideoQualityMode};
use voice_rooms::store::{CachedGuildUpdate, CachedJoinChannelUpdate, CachedVoiceChannelUpdate};

const GUILD: u64 = 10;
const BOT_ROLE: u64 = 11;

fn cache_with_guild() -> Cache {
    let mut cache = Cache::new();
    cache.insert_guild(BOT_ROLE, GUILD, "Guild".to_string());
    cache
}

fn add_voice(cache: &mut Cache, id: u64, owner: Option<u64>, permanence: bool) {
    cache.insert_voice_channel(
        64000,
        id,
        GUILD,
        "room".to_string(),
        owner,
        permanence,
        Vec::new(),
        ChannelPrivacy::Unlocked,
        None,
        None,
        None,
        VideoQualityMode::Auto,
    );
}

fn add_join(cache: &mut Cache, id: u64, guild: u64) {
    cache.insert_join_channel(None, id, guild, "join".to_string(), None, false, Vec::new(), ChannelPrivacy::Locked);
}

#[test]
fn new_cache_is_empty() {
    let cache = Cache::new();
    assert!(cache.guild(GUILD).is_none());
    assert!(cache.join_channels.is_empty());
    assert!(cache.voice_channels.is_empty());
    assert!(cache.unavailable_guilds.is_empty());
}

#[test]
fn inserted_guild_is_found() {
    let cache = cache_with_guild();
    let guild = cache.guild(GUILD).unwrap();
    assert_eq!(guild.id, GUILD);
    assert_eq!(guild.bot_role_id, BOT_ROLE);
    assert_eq!(guild.name, "Guild");
    assert!(guild.join_channel_ids.is_empty());
    assert!(guild.voice_channel_ids.is_empty());
}

#[test]
fn join_channel_of_unknown_guild_is_not_stored() {
    let mut cache = cache_with_guild();
    add_join(&mut cache, 20, 99);
    assert!(cache.join_channel(20).is_none());
}

#[test]
fn join_channel_create_then_remove_round_trip() {
    let mut cache = cache_with_guild();
    add_join(&mut cache, 21, GUILD);
    let before = cache.guild(GUILD).unwrap().join_channel_ids.clone();
    add_join(&mut cache, 20, GUILD);
    assert!(cache.guild(GUILD).unwrap().join_channel_ids.contains(&20));
    assert_eq!(cache.join_channel(20).unwrap().guild_id, GUILD);
    cache.remove_join_channel(20);
    assert_eq!(cache.guild(GUILD).unwrap().join_channel_ids, before);
    assert!(cache.join_channel(20).is_none());
}

#[test]
fn owner_index_follows_voice_channel() {
    let mut cache = cache_with_guild();
    add_voice(&mut cache, 30, Some(7), false);
    assert_eq!(cache.voice_channel_owner(GUILD, 7), Some(30));
    assert_eq!(cache.voice_channel(30).unwrap().owner_id, Some(7));
    assert!(cache.guild(GUILD).unwrap().voice_channel_ids.contains(&30));
    cache.remove_voice_channel(30);
    assert_eq!(cache.voice_channel_owner(GUILD, 7), None);
    assert!(!cache.guild(GUILD).unwrap().voice_channel_ids.contains(&30));
}

#[test]
fn second_channel_of_an_owner_is_stored_unowned() {
    let mut cache = cache_with_guild();
    add_voice(&mut cache, 30, Some(7), false);
    add_voice(&mut cache, 31, Some(7), false);
    assert_eq!(cache.voice_channel_owner(GUILD, 7), Some(30));
    assert_eq!(cache.voice_channel(31).unwrap().owner_id, None);
}

#[test]
fn presence_is_purged_with_its_channel() {
    let mut cache = cache_with_guild();
    add_voice(&mut cache, 30, None, false);
    cache.insert_voice_state(GUILD, 1, 30);
    cache.insert_voice_state(GUILD, 2, 30);
    assert_eq!(cache.voice_state(GUILD, 1), Some(30));
    assert!(cache.voice_channel(30).unwrap().connected_user_ids.contains(&2));
    cache.remove_voice_channel(30);
    assert_eq!(cache.voice_state(GUILD, 1), None);
    assert_eq!(cache.voice_state(GUILD, 2), None);
}

#[test]
fn presence_outside_tracked_channels_is_not_indexed() {
    let mut cache = cache_with_guild();
    add_join(&mut cache, 20, GUILD);
    cache.insert_voice_state(GUILD, 1, 20);
    assert_eq!(cache.voice_state(GUILD, 1), None);
}

#[test]
fn presence_moves_between_channels() {
    let mut cache = cache_with_guild();
    add_voice(&mut cache, 30, None, false);
    add_voice(&mut cache, 31, None, false);
    cache.insert_voice_state(GUILD, 1, 30);
    cache.insert_voice_state(GUILD, 1, 31);
    assert_eq!(cache.voice_state(GUILD, 1), Some(31));
    assert!(!cache.voice_channel(30).unwrap().connected_user_ids.contains(&1));
    cache.remove_voice_state(GUILD, 1);
    assert_eq!(cache.voice_state(GUILD, 1), None);
    assert!(cache.voice_channel(31).unwrap().connected_user_ids.is_empty());
}

#[test]
fn removing_a_guild_cascades() {
    let mut cache = cache_with_guild();
    cache.insert_guild(BOT_ROLE, 50, "Other".to_string());
    add_join(&mut cache, 20, GUILD);
    add_join(&mut cache, 52, 50);
    add_voice(&mut cache, 30, Some(7), false);
    cache.insert_voice_state(GUILD, 1, 30);
    cache.insert_unavailable_guilds(vec![GUILD]);
    cache.remove_guild(GUILD);
    assert!(cache.guild(GUILD).is_none());
    assert!(cache.join_channel(20).is_none());
    assert!(cache.voice_channel(30).is_none());
    assert_eq!(cache.voice_channel_owner(GUILD, 7), None);
    assert_eq!(cache.voice_state(GUILD, 1), None);
    assert!(!cache.unavailable_guilds.contains(&GUILD));
    assert!(cache.join_channel(52).is_some());
    assert!(cache.guild(50).is_some());
}

#[test]
fn reinserting_a_guild_starts_it_afresh() {
    let mut cache = cache_with_guild();
    add_join(&mut cache, 20, GUILD);
    cache.insert_guild(12, GUILD, "Renamed".to_string());
    assert!(cache.join_channel(20).is_none());
    assert_eq!(cache.guild(GUILD).unwrap().bot_role_id, 12);
}

#[test]
fn unavailable_guilds_accumulate() {
    let mut cache = Cache::new();
    cache.insert_unavailable_guilds(vec![1, 2]);
    cache.insert_unavailable_guilds(vec![3]);
    assert_eq!(cache.unavailable_guilds.len(), 3);
    assert!(cache.unavailable_guilds.contains(&2));
}

#[test]
fn guild_update_renames_only_when_given() {
    let mut cache = cache_with_guild();
    cache.update_guild(GUILD, CachedGuildUpdate { name: None });
    assert_eq!(cache.guild(GUILD).unwrap().name, "Guild");
    cache.update_guild(GUILD, CachedGuildUpdate { name: Some("New".to_string()) });
    assert_eq!(cache.guild(GUILD).unwrap().name, "New");
}

#[test]
fn join_channel_patch_touches_present_fields_only() {
    let mut cache = cache_with_guild();
    add_join(&mut cache, 20, GUILD);
    cache.update_join_channel(
        20,
        CachedJoinChannelUpdate {
            access_role_id: Change::Replace(Some(5)),
            name: Change::Keep,
            parent_id: Change::Keep,
            permanence: Change::Replace(true),
            permission_overwrites: Change::Keep,
            privacy: Change::Keep,
        },
    );
    let j = cache.join_channel(20).unwrap();
    assert_eq!(j.access_role_id, Some(5));
    assert!(j.permanence);
    assert_eq!(j.name, "join");
    assert_eq!(j.privacy, ChannelPrivacy::Locked);
}

#[test]
fn owner_transfer_moves_the_index_entry() {
    let mut cache = cache_with_guild();
    add_voice(&mut cache, 30, Some(7), false);
    cache.update_voice_channel(30, owner_change(Some(8)));
    assert_eq!(cache.voice_channel_owner(GUILD, 7), None);
    assert_eq!(cache.voice_channel_owner(GUILD, 8), Some(30));
    assert_eq!(cache.voice_channel(30).unwrap().owner_id, Some(8));
    cache.update_voice_channel(30, owner_change(None));
    assert_eq!(cache.voice_channel_owner(GUILD, 8), None);
    assert_eq!(cache.voice_channel(30).unwrap().owner_id, None);
}

#[test]
fn owner_change_to_an_owner_of_another_channel_is_refused() {
    let mut cache = cache_with_guild();
    add_voice(&mut cache, 30, Some(7), false);
    add_voice(&mut cache, 31, Some(8), false);
    cache.update_voice_channel(31, owner_change(Some(7)));
    assert_eq!(cache.voice_channel(31).unwrap().owner_id, Some(8));
    assert_eq!(cache.voice_channel_owner(GUILD, 7), Some(30));
}

#[test]
fn voice_channel_patch_keeps_owner_and_presence() {
    let mut cache = cache_with_guild();
    add_voice(&mut cache, 30, Some(7), false);
    cache.insert_voice_state(GUILD, 1, 30);
    cache.update_voice_channel(
        30,
        CachedVoiceChannelUpdate {
            bitrate: Change::Replace(96000),
            name: Change::Replace("renamed".to_string()),
            owner_id: Change::Keep,
            permanence: Change::Keep,
            permission_overwrites: Change::Keep,
            privacy: Change::Keep,
            rate_limit_per_user: Change::Replace(Some(5)),
            rtc_region: Change::Replace(Some("rotterdam".to_string())),
            user_limit: Change::Keep,
            video_quality_mode: Change::Replace(VideoQualityMode::Full),
        },
    );
    let v = cache.voice_channel(30).unwrap();
    assert_eq!(v.bitrate, 96000);
    assert_eq!(v.name, "renamed");
    assert_eq!(v.owner_id, Some(7));
    assert_eq!(v.rate_limit_per_user, Some(5));
    assert_eq!(v.rtc_region.as_deref(), Some("rotterdam"));
    assert_eq!(v.video_quality_mode, VideoQualityMode::Full);
    assert!(v.connected_user_ids.contains(&1));
}
