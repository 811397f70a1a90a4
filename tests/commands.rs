use voice_rooms::cache::Cache;
use voice_rooms::commands::{
    commit_owner, join_channel_row, owned_voice_channel, parse_privacy, plan_access_role,
    plan_allow_member, plan_claim, plan_join_category, plan_join_channel, plan_join_name,
    plan_join_privacy, plan_remove_member, plan_voice_region,
    plan_slow_mode, plan_transfer, plan_user_limit, plan_voice_privacy, ClaimError,
    JoinChannelError, JoinChannelOptions, JoinSettingError, MemberError, MemberRemoval,
    OwnershipError, PermissionGrant, SettingError, TransferError,
};
use voice_rooms::database::JoinChannel;
use voice_rooms::model::{
    privacy_permissions, ChannelPrivacy, OverwriteKind, PermissionOverwrite, VideoQualityMode,
    CONNECT, VIEW_CHANNEL,
};
use voice_rooms::text::humanize;

const GUILD: u64 = 10;
const BOT_ROLE: u64 = 11;
const APP: u64 = 99;

fn member(id: u64, allow: u64, deny: u64) -> PermissionOverwrite {
    PermissionOverwrite { allow, deny, id, kind: OverwriteKind::Member }
}

fn role(id: u64, allow: u64, deny: u64) -> PermissionOverwrite {
    PermissionOverwrite { allow, deny, id, kind: OverwriteKind::Role }
}

fn setup(owner: Option<u64>, privacy: ChannelPrivacy, overwrites: Vec<PermissionOverwrite>) -> Cache {
    let mut cache = Cache::new();
    cache.insert_guild(BOT_ROLE, GUILD, "Guild".to_string());
    cache.insert_voice_channel(
        64000, 30, GUILD, "room".to_string(), owner, false, overwrite_copy(&overwrites),
        privacy, None, None, None, VideoQualityMode::Auto,
    );
    cache
}

fn overwrite_copy(v: &Vec<PermissionOverwrite>) -> Vec<PermissionOverwrite> {
    v.clone()
}

#[test]
fn privacy_levels_withhold_their_bits() {
    assert_eq!(privacy_permissions(ChannelPrivacy::Invisible), VIEW_CHANNEL);
    assert_eq!(privacy_permissions(ChannelPrivacy::Locked), CONNECT);
    assert_eq!(privacy_permissions(ChannelPrivacy::Unlocked), 0);
}

#[test]
fn privacy_names_parse() {
    assert_eq!(parse_privacy("invisible"), ChannelPrivacy::Invisible);
    assert_eq!(parse_privacy("locked"), ChannelPrivacy::Locked);
    assert_eq!(parse_privacy("open"), ChannelPrivacy::Unlocked);
}

#[test]
fn claim_of_an_unowned_channel() {
    let mut cache = setup(None, ChannelPrivacy::Locked, Vec::new());
    cache.insert_voice_state(GUILD, 1, 30);
    let grant = plan_claim(&cache, GUILD, 1).unwrap();
    assert_eq!(grant, PermissionGrant { channel_id: 30, overwrite: member(1, CONNECT, 0) });
    commit_owner(&mut cache, 30, Some(1));
    assert_eq!(cache.voice_channel_owner(GUILD, 1), Some(30));
    assert_eq!(plan_claim(&cache, GUILD, 1), Err(ClaimError::AlreadyOwner));
}

#[test]
fn claim_errors() {
    let mut cache = setup(Some(5), ChannelPrivacy::Locked, Vec::new());
    assert_eq!(plan_claim(&cache, GUILD, 1), Err(ClaimError::NotConnected));
    cache.insert_voice_state(GUILD, 1, 30);
    assert_eq!(plan_claim(&cache, GUILD, 1), Err(ClaimError::AlreadyOwned));
    assert_eq!(plan_claim(&cache, GUILD, 5), Err(ClaimError::AlreadyOwner));
}

#[test]
fn owned_channel_lookup() {
    let cache = setup(Some(5), ChannelPrivacy::Locked, Vec::new());
    assert_eq!(owned_voice_channel(&cache, GUILD, 5), Ok(30));
    assert_eq!(owned_voice_channel(&cache, GUILD, 6), Err(OwnershipError::NotOwner));
}

#[test]
fn transfer_repoints_the_owner_overwrite() {
    let cache = setup(
        Some(5),
        ChannelPrivacy::Locked,
        vec![role(BOT_ROLE, CONNECT, 0), member(5, CONNECT, 0), role(5, 1, 0)],
    );
    let change = plan_transfer(&cache, APP, GUILD, 5, 6).unwrap();
    assert_eq!(change.channel_id, 30);
    assert_eq!(
        change.permission_overwrites,
        vec![role(BOT_ROLE, CONNECT, 0), member(6, CONNECT, 0), role(5, 1, 0)]
    );
}

#[test]
fn transfer_errors() {
    let mut cache = setup(Some(5), ChannelPrivacy::Locked, Vec::new());
    assert_eq!(plan_transfer(&cache, APP, GUILD, 6, 7).err(), Some(TransferError::NotOwner));
    assert_eq!(plan_transfer(&cache, APP, GUILD, 5, APP).err(), Some(TransferError::InvalidMember));
    assert_eq!(plan_transfer(&cache, APP, GUILD, 5, 5).err(), Some(TransferError::InvalidMember));
    cache.insert_voice_channel(
        64000, 31, GUILD, "other".to_string(), Some(7), false, Vec::new(),
        ChannelPrivacy::Locked, None, None, None, VideoQualityMode::Auto,
    );
    assert_eq!(plan_transfer(&cache, APP, GUILD, 5, 7).err(), Some(TransferError::MemberIsOwner));
}

#[test]
fn voice_privacy_rewrites_overwrites() {
    let cache = setup(
        Some(5),
        ChannelPrivacy::Unlocked,
        vec![
            role(BOT_ROLE, 0, 0),
            role(GUILD, 0, 0),
            member(5, 0, 0),
            member(6, 8, 0),
            member(7, 0, VIEW_CHANNEL),
            member(8, 0, 0),
        ],
    );
    let change = plan_voice_privacy(&cache, GUILD, 5, "locked").unwrap();
    assert_eq!(change.privacy, ChannelPrivacy::Locked);
    assert_eq!(
        change.permission_overwrites,
        vec![
            role(BOT_ROLE, CONNECT, 0),
            role(GUILD, 0, CONNECT),
            member(5, CONNECT, 0),
            member(6, CONNECT, 0),
            member(7, 0, VIEW_CHANNEL),
            member(8, 0, 0),
        ]
    );
    assert_eq!(plan_voice_privacy(&cache, GUILD, 5, "unlocked").err(), Some(SettingError::Unchanged));
    assert_eq!(plan_voice_privacy(&cache, GUILD, 6, "locked").err(), Some(SettingError::NotOwner));
}

#[test]
fn allow_member_grants_privacy_bits() {
    let cache = setup(Some(5), ChannelPrivacy::Locked, vec![member(6, VIEW_CHANNEL | 8, CONNECT | 16)]);
    let grant = plan_allow_member(&cache, APP, GUILD, 5, 6).unwrap();
    assert_eq!(grant, PermissionGrant { channel_id: 30, overwrite: member(6, CONNECT | 8, 16) });
    let fresh = plan_allow_member(&cache, APP, GUILD, 5, 9).unwrap();
    assert_eq!(fresh.overwrite, member(9, CONNECT, 0));
    assert_eq!(plan_allow_member(&cache, APP, GUILD, 5, 5), Err(MemberError::InvalidMember));
    assert_eq!(plan_allow_member(&cache, APP, GUILD, 6, 9), Err(MemberError::NotOwner));
}

#[test]
fn allow_member_already_allowed() {
    let cache = setup(Some(5), ChannelPrivacy::Locked, vec![member(6, CONNECT, 0)]);
    assert_eq!(plan_allow_member(&cache, APP, GUILD, 5, 6), Err(MemberError::AlreadyAllowed));
}

#[test]
fn remove_member_plan() {
    let mut cache = setup(Some(5), ChannelPrivacy::Locked, vec![member(6, CONNECT, 0)]);
    cache.insert_voice_state(GUILD, 6, 30);
    assert_eq!(
        plan_remove_member(&cache, APP, GUILD, 5, 6),
        Ok(MemberRemoval { channel_id: 30, delete_overwrite: true, disconnect: true })
    );
    assert_eq!(
        plan_remove_member(&cache, APP, GUILD, 5, 7),
        Ok(MemberRemoval { channel_id: 30, delete_overwrite: false, disconnect: false })
    );
    assert_eq!(plan_remove_member(&cache, APP, GUILD, 5, APP), Err(MemberError::InvalidMember));
}

#[test]
fn user_limit_and_slow_mode() {
    let cache = setup(Some(5), ChannelPrivacy::Locked, Vec::new());
    assert_eq!(plan_user_limit(&cache, GUILD, 5, 4), Ok((30, Some(4))));
    assert_eq!(plan_user_limit(&cache, GUILD, 5, 0), Err(SettingError::Unchanged));
    assert_eq!(plan_slow_mode(&cache, GUILD, 5, 30), Ok((30, Some(30))));
    assert_eq!(plan_slow_mode(&cache, GUILD, 5, 0), Err(SettingError::Unchanged));
    assert_eq!(plan_slow_mode(&cache, GUILD, 6, 30), Err(SettingError::NotOwner));
}

fn options() -> JoinChannelOptions {
    JoinChannelOptions { name: None, access_role_id: None, parent_id: None, permanence: None, privacy: None }
}

#[test]
fn join_channel_defaults() {
    let cache = setup(None, ChannelPrivacy::Locked, Vec::new());
    let plan = plan_join_channel(cache.guild(GUILD).unwrap(), options()).unwrap();
    assert_eq!(plan.name, "join-1");
    assert_eq!(plan.privacy, ChannelPrivacy::Unlocked);
    assert!(!plan.permanence);
    assert_eq!(plan.permission_overwrites, vec![role(BOT_ROLE, 0, 0), role(GUILD, 0, 0)]);
    assert_eq!(
        join_channel_row(&plan, 20),
        JoinChannel { id: 20, guild_id: GUILD, access_role_id: None, parent_id: None, permanence: false, privacy: ChannelPrivacy::Unlocked }
    );
}

#[test]
fn join_channel_locked_with_access_role() {
    let cache = setup(None, ChannelPrivacy::Locked, Vec::new());
    let opts = JoinChannelOptions {
        name: Some("Lobby".to_string()),
        access_role_id: Some(77),
        parent_id: Some(40),
        permanence: Some(true),
        privacy: Some("locked".to_string()),
    };
    let plan = plan_join_channel(cache.guild(GUILD).unwrap(), opts).unwrap();
    assert_eq!(plan.name, "Lobby");
    assert_eq!(plan.privacy, ChannelPrivacy::Locked);
    assert!(plan.permanence);
    assert_eq!(
        plan.permission_overwrites,
        vec![role(BOT_ROLE, CONNECT, 0), role(GUILD, 0, CONNECT), role(77, CONNECT, 0)]
    );
}

#[test]
fn join_channel_limit_and_forbidden_roles() {
    let mut cache = setup(None, ChannelPrivacy::Locked, Vec::new());
    let mut forbidden = options();
    forbidden.access_role_id = Some(GUILD);
    assert_eq!(plan_join_channel(cache.guild(GUILD).unwrap(), forbidden).err(), Some(JoinChannelError::ForbiddenAccessRole));
    let mut forbidden = options();
    forbidden.access_role_id = Some(BOT_ROLE);
    assert_eq!(plan_join_channel(cache.guild(GUILD).unwrap(), forbidden).err(), Some(JoinChannelError::ForbiddenAccessRole));
    cache.insert_join_channel(None, 20, GUILD, "a".to_string(), None, false, Vec::new(), ChannelPrivacy::Unlocked);
    cache.insert_join_channel(None, 21, GUILD, "b".to_string(), None, false, Vec::new(), ChannelPrivacy::Unlocked);
    assert_eq!(plan_join_channel(cache.guild(GUILD).unwrap(), options()).unwrap().name, "join-3");
    cache.insert_join_channel(None, 22, GUILD, "c".to_string(), None, false, Vec::new(), ChannelPrivacy::Unlocked);
    assert_eq!(plan_join_channel(cache.guild(GUILD).unwrap(), options()).err(), Some(JoinChannelError::LimitReached));
}

#[test]
fn join_privacy_and_access_role_changes() {
    let mut cache = setup(None, ChannelPrivacy::Locked, Vec::new());
    cache.insert_join_channel(
        Some(77), 20, GUILD, "a".to_string(), None, false,
        vec![role(BOT_ROLE, 0, 0), role(GUILD, 0, 0), role(77, 0, 0), member(5, 1, 0)],
        ChannelPrivacy::Unlocked,
    );
    let change = plan_join_privacy(&cache, GUILD, 20, "invisible").unwrap();
    assert_eq!(
        change.permission_overwrites,
        vec![role(BOT_ROLE, VIEW_CHANNEL, 0), role(GUILD, 0, VIEW_CHANNEL), role(77, VIEW_CHANNEL, 0), member(5, 1, 0)]
    );
    assert_eq!(plan_join_privacy(&cache, GUILD, 20, "other").err(), Some(JoinSettingError::Unchanged));
    assert_eq!(plan_join_privacy(&cache, GUILD, 21, "locked").err(), Some(JoinSettingError::UnknownChannel));
    assert_eq!(plan_access_role(&cache, GUILD, 20, Some(78)), Ok(Some(77)));
    assert_eq!(plan_access_role(&cache, GUILD, 20, Some(77)), Err(JoinSettingError::Unchanged));
    assert_eq!(plan_access_role(&cache, 50, 20, None), Err(JoinSettingError::UnknownChannel));
}

#[test]
fn humanize_writes_nonzero_parts() {
    assert_eq!(humanize(3661), "1h 1m 1s");
    assert_eq!(humanize(0), "");
    assert_eq!(humanize(60), "1m");
    assert_eq!(humanize(7200), "2h");
    assert_eq!(humanize(59), "59s");
    assert_eq!(humanize(3605), "1h 5s");
    assert_eq!(humanize(21600), "6h");
}

#[test]
fn join_category_and_name_changes() {
    let mut cache = setup(None, ChannelPrivacy::Locked, Vec::new());
    cache.insert_join_channel(None, 20, GUILD, "Lobby".to_string(), Some(40), false, Vec::new(), ChannelPrivacy::Unlocked);
    assert_eq!(plan_join_category(&cache, GUILD, 20, Some(41)), Ok(()));
    assert_eq!(plan_join_category(&cache, GUILD, 20, Some(40)), Err(JoinSettingError::Unchanged));
    assert_eq!(plan_join_category(&cache, GUILD, 21, None), Err(JoinSettingError::UnknownChannel));
    assert_eq!(plan_join_name(&cache, GUILD, 20, "Hall"), Ok(()));
    assert_eq!(plan_join_name(&cache, GUILD, 20, "Lobby"), Err(JoinSettingError::Unchanged));
}

#[test]
fn voice_region_changes() {
    let cache = setup(Some(5), ChannelPrivacy::Locked, Vec::new());
    assert_eq!(plan_voice_region(&cache, GUILD, 5, "automatic"), Err(SettingError::Unchanged));
    assert_eq!(plan_voice_region(&cache, GUILD, 5, "japan"), Ok((30, Some("japan".to_string()))));
    assert_eq!(plan_voice_region(&cache, GUILD, 6, "japan"), Err(SettingError::NotOwner));
}
