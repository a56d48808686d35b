use std::collections::HashMap;
use twilight_permission_calculator::calculator::Calculator;
use twilight_permission_calculator::channel::{
    ChannelType, PermissionOverwrite, PermissionOverwriteType,
};
use twilight_permission_calculator::id::{GuildId, RoleId, UserId};
use twilight_permission_calculator::permissions::{
    Permissions, ADMINISTRATOR, ALL_BITS, ATTACH_FILES, BAN_MEMBERS, CONNECT, CREATE_INVITE,
    EMBED_LINKS, MANAGE_GUILD, MANAGE_MESSAGES, MANAGE_ROLES, MENTION_EVERYONE,
    PERMISSIONS_ROOT, PERMISSIONS_TEXT, PERMISSIONS_VOICE, SEND_MESSAGES, SEND_TTS_MESSAGES,
    SPEAK, VIEW_AUDIT_LOG, VIEW_CHANNEL,
};

fn perms(bits: u64) -> Permissions {
    Permissions::from_bits_truncate(bits)
}

fn overwrite(allow: u64, deny: u64, kind: PermissionOverwriteType) -> PermissionOverwrite {
    PermissionOverwrite {
        allow: perms(allow),
        deny: perms(deny),
        kind,
    }
}

#[test]
fn role_overwrites_of_held_and_unheld_roles() {
    let mut roles = HashMap::new();
    roles.insert(1, perms(VIEW_CHANNEL));
    roles.insert(4, perms(MANAGE_ROLES));
    roles.insert(5, perms(SEND_MESSAGES));
    let overwrites = &[
        overwrite(SEND_TTS_MESSAGES, 0, PermissionOverwriteType::Role(RoleId(4))),
        overwrite(MANAGE_MESSAGES, SEND_MESSAGES, PermissionOverwriteType::Role(RoleId(5))),
    ];

    let calculated = Calculator::new(GuildId(1), UserId(2), &roles)
        .member(UserId(6), &[RoleId(5)])
        .in_channel(ChannelType::GuildText, overwrites)
        .unwrap();

    assert_eq!(calculated, perms(VIEW_CHANNEL | MANAGE_MESSAGES));
}

#[test]
fn owner_in_channel_keeps_channel_flags_only() {
    let roles: HashMap<u64, Permissions> = HashMap::new();
    let calculated = Calculator::new(GuildId(1), UserId(2), &roles)
        .member(UserId(2), &[])
        .in_channel(ChannelType::GuildText, &[])
        .unwrap();

    assert_eq!(calculated.bits(), ALL_BITS & !PERMISSIONS_ROOT & !PERMISSIONS_VOICE);
}

#[test]
fn member_view_channel_deny_beats_role_allows() {
    let mut roles = HashMap::new();
    roles.insert(1, perms(VIEW_CHANNEL | SEND_MESSAGES));
    roles.insert(4, Permissions::empty());
    let overwrites = &[
        overwrite(VIEW_CHANNEL | SEND_MESSAGES, 0, PermissionOverwriteType::Role(RoleId(4))),
        overwrite(SEND_MESSAGES, VIEW_CHANNEL, PermissionOverwriteType::Member(UserId(3))),
    ];

    let calculated = Calculator::new(GuildId(1), UserId(2), &roles)
        .member(UserId(3), &[RoleId(4)])
        .in_channel(ChannelType::GuildText, overwrites)
        .unwrap();

    assert!(calculated.is_empty());
}

#[test]
fn view_channel_deny_with_allow_on_same_level_is_kept_visible() {
    let mut roles = HashMap::new();
    roles.insert(1, perms(SEND_MESSAGES));
    roles.insert(4, Permissions::empty());
    roles.insert(5, Permissions::empty());
    let overwrites = &[
        overwrite(0, VIEW_CHANNEL, PermissionOverwriteType::Role(RoleId(4))),
        overwrite(VIEW_CHANNEL, 0, PermissionOverwriteType::Role(RoleId(5))),
    ];

    let calculated = Calculator::new(GuildId(1), UserId(2), &roles)
        .member(UserId(3), &[RoleId(4), RoleId(5)])
        .in_channel(ChannelType::GuildText, overwrites)
        .unwrap();

    assert_eq!(calculated, perms(SEND_MESSAGES | VIEW_CHANNEL));
}

#[test]
fn member_send_messages_deny_strips_allowed_messaging_flags() {
    let mut roles = HashMap::new();
    roles.insert(1, perms(VIEW_CHANNEL | SEND_MESSAGES | EMBED_LINKS));
    let overwrites = &[overwrite(
        ATTACH_FILES | MENTION_EVERYONE,
        SEND_MESSAGES,
        PermissionOverwriteType::Member(UserId(3)),
    )];

    let calculated = Calculator::new(GuildId(1), UserId(2), &roles)
        .member(UserId(3), &[])
        .in_channel(ChannelType::GuildText, overwrites)
        .unwrap();

    assert_eq!(calculated, perms(VIEW_CHANNEL));
}

#[test]
fn other_channel_keeps_neither_text_nor_voice_flags() {
    let mut roles = HashMap::new();
    roles.insert(1, perms(VIEW_CHANNEL | CREATE_INVITE | SEND_MESSAGES | CONNECT | SPEAK));

    let calculated = Calculator::new(GuildId(1), UserId(2), &roles)
        .member(UserId(3), &[])
        .in_channel(ChannelType::Other, &[])
        .unwrap();

    assert_eq!(calculated, perms(VIEW_CHANNEL | CREATE_INVITE));
    assert_eq!(calculated.bits() & (PERMISSIONS_TEXT | PERMISSIONS_VOICE), 0);
}

#[test]
fn guild_only_flags_never_reach_a_channel() {
    let mut roles = HashMap::new();
    roles.insert(1, perms(VIEW_CHANNEL | BAN_MEMBERS | MANAGE_GUILD));
    let overwrites = &[overwrite(
        VIEW_AUDIT_LOG | ADMINISTRATOR,
        0,
        PermissionOverwriteType::Member(UserId(3)),
    )];

    let calculated = Calculator::new(GuildId(1), UserId(2), &roles)
        .member(UserId(3), &[])
        .in_channel(ChannelType::GuildVoice, overwrites)
        .unwrap();

    assert_eq!(calculated, perms(VIEW_CHANNEL));
    let root = Calculator::new(GuildId(1), UserId(2), &roles)
        .member(UserId(3), &[])
        .permissions()
        .unwrap();
    assert_eq!(root, perms(VIEW_CHANNEL | BAN_MEMBERS | MANAGE_GUILD));
}

#[test]
fn member_allow_beats_role_deny() {
    let mut roles = HashMap::new();
    roles.insert(1, perms(VIEW_CHANNEL | MANAGE_MESSAGES));
    roles.insert(4, Permissions::empty());
    let overwrites = &[
        overwrite(0, MANAGE_MESSAGES, PermissionOverwriteType::Role(RoleId(4))),
        overwrite(MANAGE_MESSAGES, 0, PermissionOverwriteType::Member(UserId(3))),
    ];

    let calculated = Calculator::new(GuildId(1), UserId(2), &roles)
        .member(UserId(3), &[RoleId(4)])
        .in_channel(ChannelType::GuildText, overwrites)
        .unwrap();

    assert!(calculated.contains(perms(MANAGE_MESSAGES)));
}

#[test]
fn member_deny_beats_role_allow() {
    let mut roles = HashMap::new();
    roles.insert(1, perms(VIEW_CHANNEL));
    roles.insert(4, Permissions::empty());
    let overwrites = &[
        overwrite(MANAGE_MESSAGES, 0, PermissionOverwriteType::Role(RoleId(4))),
        overwrite(0, MANAGE_MESSAGES, PermissionOverwriteType::Member(UserId(3))),
    ];

    let calculated = Calculator::new(GuildId(1), UserId(2), &roles)
        .member(UserId(3), &[RoleId(4)])
        .in_channel(ChannelType::GuildText, overwrites)
        .unwrap();

    assert_eq!(calculated, perms(VIEW_CHANNEL));
}

#[test]
fn everyone_overwrites_apply_in_order() {
    let mut roles = HashMap::new();
    roles.insert(1, perms(VIEW_CHANNEL));
    let overwrites = &[
        overwrite(EMBED_LINKS, 0, PermissionOverwriteType::Role(RoleId(1))),
        overwrite(0, EMBED_LINKS, PermissionOverwriteType::Role(RoleId(1))),
        overwrite(SEND_MESSAGES, 0, PermissionOverwriteType::Member(UserId(7))),
    ];

    let calculated = Calculator::new(GuildId(1), UserId(2), &roles)
        .member(UserId(3), &[])
        .in_channel(ChannelType::GuildText, overwrites)
        .unwrap();

    assert_eq!(calculated, perms(VIEW_CHANNEL));
}

#[test]
fn administrator_just_before_a_missing_role_does_not_hide_it() {
    let mut roles = HashMap::new();
    roles.insert(1, perms(VIEW_CHANNEL));
    roles.insert(4, perms(ADMINISTRATOR));
    let result = Calculator::new(GuildId(1), UserId(2), &roles)
        .member(UserId(3), &[RoleId(4), RoleId(5)])
        .permissions();

    assert_eq!(
        result,
        Err(twilight_permission_calculator::error::Error::MemberRoleMissing {
            role_id: RoleId(5),
            user_id: UserId(3)
        })
    );
}

#[test]
fn everyone_administrator_ends_before_a_missing_role() {
    let mut roles = HashMap::new();
    roles.insert(1, perms(ADMINISTRATOR));
    roles.insert(4, perms(VIEW_CHANNEL));
    let calculated = Calculator::new(GuildId(1), UserId(2), &roles)
        .member(UserId(3), &[RoleId(4), RoleId(5)])
        .permissions()
        .unwrap();

    assert_eq!(calculated, Permissions::all());
}
