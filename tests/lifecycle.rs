use voice_rooms::cache::Cache;
use voice_rooms::commands::voice_channel_row;
use voice_rooms::database::VoiceChannel;
use voice_rooms::lifecycle::{on_voice_channel_created, on_voice_presence, CreatedChannel, MoveMember};
use voice_rooms::model::{ChannelPrivacy, OverwriteKind, PermissionOverwrite, VideoQualityMode, CONNECT};
use voice_rooms::text::voice_channel_name;

const GUILD: u64 = 10;
const BOT_ROLE: u64 = 11;
const JOIN: u64 = 20;

fn setup(privacy: ChannelPrivacy) -> Cache {
    let mut cache = Cache::new();
    cache.insert_guild(BOT_ROLE, GUILD, "Guild".to_string());
    cache.insert_join_channel(None, JOIN, GUILD, "join".to_string(), Some(40), false, Vec::new(), privacy);
    cache
}

fn add_voice(cache: &mut Cache, id: u64, permanence: bool) {
    cache.insert_voice_channel(
        64000,
        id,
        GUILD,
        "room".to_string(),
        None,
        permanence,
        Vec::new(),
        ChannelPrivacy::Unlocked,
        None,
        None,
        None,
        VideoQualityMode::Auto,
    );
}

fn created(id: u64) -> CreatedChannel {
    CreatedChannel {
        id,
        bitrate: None,
        permission_overwrites: None,
        rate_limit_per_user: None,
        rtc_region: None,
        user_limit: None,
        video_quality_mode: None,
    }
}

#[test]
fn entering_a_locked_join_channel_creates_a_voice_channel() {
    let mut cache = setup(ChannelPrivacy::Locked);
    let outcome = on_voice_presence(&mut cache, GUILD, 1, false, "Max", Some(JOIN));
    assert_eq!(outcome.delete_channel, None);
    let req = outcome.create_channel.unwrap();
    assert_eq!(req.name, "Max's voice");
    assert_eq!(req.parent_id, Some(40));
    assert_eq!(
        req.permission_overwrites,
        vec![
            PermissionOverwrite { allow: CONNECT, deny: 0, id: BOT_ROLE, kind: OverwriteKind::Role },
            PermissionOverwrite { allow: 0, deny: CONNECT, id: GUILD, kind: OverwriteKind::Role },
        ]
    );
    assert!(!req.permanence);
    let row = voice_channel_row(&req, 30);
    assert_eq!(
        row,
        VoiceChannel { id: 30, guild_id: GUILD, owner_id: None, permanence: false, privacy: ChannelPrivacy::Locked }
    );
    let mv = on_voice_channel_created(&mut cache, req, created(30));
    assert_eq!(mv, MoveMember { guild_id: GUILD, user_id: 1, channel_id: 30 });
    let v = cache.voice_channel(30).unwrap();
    assert_eq!(v.owner_id, None);
    assert!(!v.permanence);
    assert_eq!(v.bitrate, 64000);
    assert_eq!(v.name, "Max's voice");
    assert_eq!(v.privacy, ChannelPrivacy::Locked);
    assert!(cache.guild(GUILD).unwrap().voice_channel_ids.contains(&30));
}

#[test]
fn name_ending_in_s_takes_a_bare_apostrophe() {
    assert_eq!(voice_channel_name("Chris"), "Chris' voice");
    assert_eq!(voice_channel_name("Max"), "Max's voice");
    assert_eq!(voice_channel_name(""), "'s voice");
}

#[test]
fn last_leave_of_a_temporary_channel_deletes_it() {
    let mut cache = setup(ChannelPrivacy::Unlocked);
    add_voice(&mut cache, 30, false);
    cache.insert_voice_state(GUILD, 1, 30);
    let outcome = on_voice_presence(&mut cache, GUILD, 1, false, "u1", None);
    assert_eq!(outcome.delete_channel, Some(30));
    assert!(outcome.create_channel.is_none());
    cache.remove_voice_channel(30);
    assert!(cache.voice_channel(30).is_none());
    assert_eq!(cache.voice_state(GUILD, 1), None);
}

#[test]
fn last_leave_of_a_permanent_channel_keeps_it() {
    let mut cache = setup(ChannelPrivacy::Unlocked);
    add_voice(&mut cache, 30, true);
    cache.insert_voice_state(GUILD, 1, 30);
    let outcome = on_voice_presence(&mut cache, GUILD, 1, false, "u1", None);
    assert_eq!(outcome.delete_channel, None);
    assert!(cache.voice_channel(30).unwrap().connected_user_ids.is_empty());
    assert_eq!(cache.voice_state(GUILD, 1), None);
}

#[test]
fn leave_with_others_left_keeps_the_channel() {
    let mut cache = setup(ChannelPrivacy::Unlocked);
    add_voice(&mut cache, 30, false);
    cache.insert_voice_state(GUILD, 1, 30);
    cache.insert_voice_state(GUILD, 2, 30);
    let outcome = on_voice_presence(&mut cache, GUILD, 1, false, "u1", None);
    assert_eq!(outcome.delete_channel, None);
}

#[test]
fn repeated_leave_deletes_once() {
    let mut cache = setup(ChannelPrivacy::Unlocked);
    add_voice(&mut cache, 30, false);
    cache.insert_voice_state(GUILD, 1, 30);
    let first = on_voice_presence(&mut cache, GUILD, 1, false, "u1", None);
    let second = on_voice_presence(&mut cache, GUILD, 1, false, "u1", None);
    assert_eq!(first.delete_channel, Some(30));
    assert_eq!(second.delete_channel, None);
    assert!(second.create_channel.is_none());
}

#[test]
fn bots_are_ignored() {
    let mut cache = setup(ChannelPrivacy::Unlocked);
    let outcome = on_voice_presence(&mut cache, GUILD, 1, true, "bot", Some(JOIN));
    assert!(outcome.create_channel.is_none());
    assert!(outcome.delete_channel.is_none());
}

#[test]
fn owners_get_no_second_channel() {
    let mut cache = setup(ChannelPrivacy::Unlocked);
    cache.insert_voice_channel(
        64000, 30, GUILD, "room".to_string(), Some(1), false, Vec::new(),
        ChannelPrivacy::Unlocked, None, None, None, VideoQualityMode::Auto,
    );
    let outcome = on_voice_presence(&mut cache, GUILD, 1, false, "Max", Some(JOIN));
    assert!(outcome.create_channel.is_none());
}

#[test]
fn entering_a_tracked_channel_records_presence() {
    let mut cache = setup(ChannelPrivacy::Unlocked);
    add_voice(&mut cache, 30, false);
    let outcome = on_voice_presence(&mut cache, GUILD, 1, false, "u1", Some(30));
    assert!(outcome.create_channel.is_none());
    assert_eq!(cache.voice_state(GUILD, 1), Some(30));
}

#[test]
fn moving_out_of_an_emptied_channel_into_a_join_channel() {
    let mut cache = setup(ChannelPrivacy::Invisible);
    add_voice(&mut cache, 30, false);
    cache.insert_voice_state(GUILD, 1, 30);
    let outcome = on_voice_presence(&mut cache, GUILD, 1, false, "Sam", Some(JOIN));
    assert_eq!(outcome.delete_channel, Some(30));
    let req = outcome.create_channel.unwrap();
    assert_eq!(req.permission_overwrites[0].allow, 1024);
    assert_eq!(req.privacy, ChannelPrivacy::Invisible);
}
