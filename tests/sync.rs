use voice_rooms::cache::Cache;
use voice_rooms::database::{JoinChannel, VoiceChannel};
use voice_rooms::model::{ChannelPrivacy, OverwriteKind, PermissionOverwrite, VideoQualityMode};
use voice_rooms::sync::{
    access_role_cleared, find_bot_role, join_channels_with_access_role, known_voice_channel_ids,
    on_channel_changed, on_guild_renamed, rehydrate_guild, removed_channel_kind, ChannelChange,
    ChannelKind, RoleInfo, SnapshotChannel, SnapshotVoiceState,
};

const GUILD: u64 = 10;
const BOT_ROLE: u64 = 11;

fn voice_channel(id: u64, name: &str) -> SnapshotChannel {
    SnapshotChannel {
        id,
        is_voice: true,
        bitrate: Some(96000),
        name: Some(name.to_string()),
        permission_overwrites: Some(vec![PermissionOverwrite { allow: 1, deny: 2, id: 3, kind: OverwriteKind::Role }]),
        rate_limit_per_user: Some(5),
        rtc_region: Some("brazil".to_string()),
        user_limit: Some(4),
        video_quality_mode: None,
    }
}

#[test]
fn bot_role_is_the_managed_role_of_the_application() {
    let roles = vec![
        RoleInfo { id: 1, managed: false, bot_id: Some(99) },
        RoleInfo { id: 2, managed: true, bot_id: Some(98) },
        RoleInfo { id: 3, managed: true, bot_id: Some(99) },
        RoleInfo { id: 4, managed: true, bot_id: Some(99) },
    ];
    assert_eq!(find_bot_role(&roles, 99), Some(3));
    assert_eq!(find_bot_role(&roles, 97), None);
}

#[test]
fn known_ids_are_the_voice_channels() {
    let mut text = voice_channel(2, "text");
    text.is_voice = false;
    let channels = vec![voice_channel(1, "a"), text, voice_channel(3, "b")];
    assert_eq!(known_voice_channel_ids(&channels), vec![1, 3]);
}

#[test]
fn rehydration_uses_live_attributes_and_defaults() {
    let mut cache = Cache::new();
    let channels = vec![voice_channel(20, "Lobby"), voice_channel(30, "Room")];
    let join_rows = vec![
        JoinChannel { id: 20, guild_id: GUILD, access_role_id: Some(7), parent_id: None, permanence: false, privacy: ChannelPrivacy::Locked },
        JoinChannel { id: 21, guild_id: GUILD, access_role_id: None, parent_id: Some(40), permanence: true, privacy: ChannelPrivacy::Unlocked },
    ];
    let voice_rows = vec![
        VoiceChannel { id: 30, guild_id: GUILD, owner_id: Some(5), permanence: false, privacy: ChannelPrivacy::Invisible },
        VoiceChannel { id: 31, guild_id: GUILD, owner_id: None, permanence: true, privacy: ChannelPrivacy::Unlocked },
    ];
    let states = vec![
        SnapshotVoiceState { user_id: 1, channel_id: Some(30) },
        SnapshotVoiceState { user_id: 2, channel_id: Some(20) },
        SnapshotVoiceState { user_id: 3, channel_id: None },
    ];
    rehydrate_guild(&mut cache, BOT_ROLE, GUILD, "Guild".to_string(), &channels, &join_rows, &voice_rows, &states);
    let g = cache.guild(GUILD).unwrap();
    assert_eq!(g.join_channel_ids.len(), 2);
    assert_eq!(g.voice_channel_ids.len(), 2);
    assert_eq!(cache.join_channel(20).unwrap().name, "Lobby");
    assert_eq!(cache.join_channel(20).unwrap().access_role_id, Some(7));
    assert_eq!(cache.join_channel(21).unwrap().name, "");
    assert!(cache.join_channel(21).unwrap().permission_overwrites.is_empty());
    let live = cache.voice_channel(30).unwrap();
    assert_eq!(live.bitrate, 96000);
    assert_eq!(live.name, "Room");
    assert_eq!(live.user_limit, Some(4));
    assert_eq!(live.video_quality_mode, VideoQualityMode::Auto);
    let stale = cache.voice_channel(31).unwrap();
    assert_eq!(stale.bitrate, 64000);
    assert_eq!(stale.name, "");
    assert!(stale.permission_overwrites.is_empty());
    assert_eq!(cache.voice_channel_owner(GUILD, 5), Some(30));
    assert_eq!(cache.voice_state(GUILD, 1), Some(30));
    assert_eq!(cache.voice_state(GUILD, 2), None);
    assert_eq!(cache.voice_state(GUILD, 3), None);
}

fn populated() -> Cache {
    let mut cache = Cache::new();
    cache.insert_guild(BOT_ROLE, GUILD, "Guild".to_string());
    cache.insert_join_channel(Some(7), 20, GUILD, "a".to_string(), None, false, Vec::new(), ChannelPrivacy::Locked);
    cache.insert_join_channel(Some(8), 21, GUILD, "b".to_string(), None, false, Vec::new(), ChannelPrivacy::Locked);
    cache.insert_join_channel(Some(7), 22, GUILD, "c".to_string(), None, false, Vec::new(), ChannelPrivacy::Locked);
    cache.insert_voice_channel(
        64000, 30, GUILD, "room".to_string(), Some(5), false, Vec::new(),
        ChannelPrivacy::Unlocked, None, None, None, VideoQualityMode::Auto,
    );
    cache
}

#[test]
fn removed_channels_are_classified() {
    let cache = populated();
    assert_eq!(removed_channel_kind(&cache, 20), Some(ChannelKind::Join));
    assert_eq!(removed_channel_kind(&cache, 30), Some(ChannelKind::Voice));
    assert_eq!(removed_channel_kind(&cache, 40), None);
}

#[test]
fn channel_changes_apply_to_the_cached_channel() {
    let mut cache = populated();
    on_channel_changed(&mut cache, ChannelChange {
        id: 30,
        name: None,
        permission_overwrites: None,
        bitrate: Some(8000),
        rate_limit_per_user: Some(10),
        rtc_region: None,
        user_limit: Some(2),
        video_quality_mode: Some(VideoQualityMode::Full),
    });
    let v = cache.voice_channel(30).unwrap();
    assert_eq!(v.name, "room");
    assert_eq!(v.bitrate, 8000);
    assert_eq!(v.rate_limit_per_user, Some(10));
    assert_eq!(v.user_limit, Some(2));
    assert_eq!(v.owner_id, Some(5));
    on_channel_changed(&mut cache, ChannelChange {
        id: 20,
        name: Some("renamed".to_string()),
        permission_overwrites: None,
        bitrate: None,
        rate_limit_per_user: None,
        rtc_region: None,
        user_limit: None,
        video_quality_mode: None,
    });
    assert_eq!(cache.join_channel(20).unwrap().name, "renamed");
}

#[test]
fn role_removal_clears_access_roles() {
    let mut cache = populated();
    let mut ids = join_channels_with_access_role(&cache, GUILD, 7);
    ids.sort();
    assert_eq!(ids, vec![20, 22]);
    for id in ids {
        cache.update_join_channel(id, access_role_cleared());
    }
    assert_eq!(cache.join_channel(20).unwrap().access_role_id, None);
    assert_eq!(cache.join_channel(20).unwrap().name, "a");
    assert_eq!(cache.join_channel(21).unwrap().access_role_id, Some(8));
    assert!(join_channels_with_access_role(&cache, 50, 7).is_empty());
}

#[test]
fn guild_rename() {
    let mut cache = populated();
    on_guild_renamed(&mut cache, GUILD, "Other".to_string());
    assert_eq!(cache.guild(GUILD).unwrap().name, "Other");
    on_guild_renamed(&mut cache, 50, "Nobody".to_string());
    assert!(cache.guild(50).is_none());
}
