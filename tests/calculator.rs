use std::collections::HashMap;
use twilight_permission_calculator::calculator::Calculator;
use twilight_permission_calculator::channel::{
    ChannelType, PermissionOverwrite, PermissionOverwriteType,
};
use twilight_permission_calculator::error::Error;
use twilight_permission_calculator::id::{GuildId, RoleId, UserId};
use twilight_permission_calculator::permissions::{
    Permissions, ADMINISTRATOR, ATTACH_FILES, CONNECT, EMBED_LINKS, MANAGE_MESSAGES,
    MENTION_EVERYONE, SEND_MESSAGES, SEND_TTS_MESSAGES, VIEW_CHANNEL,
};

fn perms(bits: u64) -> Permissions {
    Permissions::from_bits_truncate(bits)
}

// A permission overwrite denying the "View Channel" permission implicitly denies all other
// permissions.
#[test]
fn calculator_test_view_channel_deny_implicit() {
    let guild_id = GuildId(1);
    let guild_owner_id = UserId(2);
    let user_id = UserId(3);
    let member_roles = &[RoleId(4)];
    let mut roles = HashMap::with_capacity(1);
    roles.insert(1, perms(SEND_MESSAGES | MENTION_EVERYONE));
    roles.insert(4, Permissions::empty());

    // First, when it's denied for an overwrite on a role the user has.
    let overwrites = &[PermissionOverwrite {
        allow: perms(SEND_TTS_MESSAGES),
        deny: perms(VIEW_CHANNEL),
        kind: PermissionOverwriteType::Role(RoleId(4)),
    }];

    let calculated = Calculator::new(guild_id, guild_owner_id, &roles)
        .member(user_id, member_roles)
        .in_channel(ChannelType::GuildText, overwrites)
        .unwrap();

    assert_eq!(calculated, Permissions::empty());

    // And now when it's denied for an overwrite on the member.
    let overwrites = &[PermissionOverwrite {
        allow: perms(SEND_TTS_MESSAGES),
        deny: perms(VIEW_CHANNEL),
        kind: PermissionOverwriteType::Member(UserId(3)),
    }];

    let calculated = Calculator::new(guild_id, guild_owner_id, &roles)
        .member(user_id, member_roles)
        .in_channel(ChannelType::GuildText, overwrites)
        .unwrap();

    assert_eq!(calculated, Permissions::empty());
}

#[test]
fn calculator_test_remove_text_perms_when_voice() {
    let guild_id = GuildId(1);
    let guild_owner_id = UserId(2);
    let user_id = UserId(3);
    let member_roles = &[RoleId(4)];
    let mut roles = HashMap::with_capacity(1);
    roles.insert(1, perms(CONNECT));
    roles.insert(4, perms(SEND_MESSAGES));

    let calculated = Calculator::new(guild_id, guild_owner_id, &roles)
        .member(user_id, member_roles)
        .in_channel(ChannelType::GuildVoice, &[])
        .unwrap();

    assert_eq!(calculated, perms(CONNECT));
}

#[test]
fn calculator_test_remove_voice_perms_when_text() {
    let guild_id = GuildId(1);
    let guild_owner_id = UserId(2);
    let user_id = UserId(3);
    let member_roles = &[RoleId(4)];
    let mut roles = HashMap::with_capacity(1);
    roles.insert(1, perms(CONNECT));
    roles.insert(4, perms(SEND_MESSAGES));

    let calculated = Calculator::new(guild_id, guild_owner_id, &roles)
        .member(user_id, member_roles)
        .in_channel(ChannelType::GuildText, &[])
        .unwrap();

    assert_eq!(calculated, perms(SEND_MESSAGES));
}

// Denying the "Send Messages" permission denies all message send related permissions.
#[test]
fn calculator_test_deny_send_messages_removes_related() {
    let guild_id = GuildId(1);
    let guild_owner_id = UserId(2);
    let user_id = UserId(3);
    let member_roles = &[RoleId(4)];
    let mut roles = HashMap::with_capacity(1);
    roles.insert(1, perms(MANAGE_MESSAGES | EMBED_LINKS | MENTION_EVERYONE));
    roles.insert(4, Permissions::empty());

    let overwrites = &[PermissionOverwrite {
        allow: perms(ATTACH_FILES),
        deny: perms(SEND_MESSAGES),
        kind: PermissionOverwriteType::Role(RoleId(4)),
    }];

    let calculated = Calculator::new(guild_id, guild_owner_id, &roles)
        .member(user_id, member_roles)
        .in_channel(ChannelType::GuildText, overwrites)
        .unwrap();

    assert_eq!(calculated, perms(MANAGE_MESSAGES));
}

#[test]
fn calculator_owner_has_every_flag() {
    let roles: HashMap<u64, Permissions> = HashMap::new();
    let calculated = Calculator::new(GuildId(1), UserId(2), &roles)
        .member(UserId(2), &[RoleId(9)])
        .permissions()
        .unwrap();

    assert_eq!(calculated, Permissions::all());
}

#[test]
fn calculator_everyone_role_missing() {
    let mut roles = HashMap::new();
    roles.insert(4, perms(SEND_MESSAGES));
    let result = Calculator::new(GuildId(1), UserId(2), &roles)
        .member(UserId(3), &[RoleId(4)])
        .permissions();

    assert_eq!(result, Err(Error::EveryoneRoleMissing { guild_id: GuildId(1) }));
}

#[test]
fn calculator_member_role_missing() {
    let mut roles = HashMap::new();
    roles.insert(1, perms(VIEW_CHANNEL));
    roles.insert(4, perms(SEND_MESSAGES));
    let result = Calculator::new(GuildId(1), UserId(2), &roles)
        .member(UserId(3), &[RoleId(4), RoleId(5)])
        .in_channel(ChannelType::GuildText, &[]);

    assert_eq!(
        result,
        Err(Error::MemberRoleMissing {
            role_id: RoleId(5),
            user_id: UserId(3)
        })
    );
}

#[test]
fn calculator_best_effort_passes_over_missing_roles() {
    let mut roles = HashMap::new();
    roles.insert(4, perms(SEND_MESSAGES));
    let calculated = Calculator::new(GuildId(1), UserId(2), &roles)
        .continue_on_missing_items(true)
        .member(UserId(3), &[RoleId(5), RoleId(4)])
        .permissions()
        .unwrap();

    assert_eq!(calculated, perms(SEND_MESSAGES));
}

#[test]
fn calculator_administrator_grants_every_flag() {
    let mut roles = HashMap::new();
    roles.insert(1, perms(VIEW_CHANNEL));
    roles.insert(4, perms(ADMINISTRATOR));
    roles.insert(5, perms(SEND_MESSAGES));
    let calculated = Calculator::new(GuildId(1), UserId(2), &roles)
        .member(UserId(3), &[RoleId(4), RoleId(5)])
        .permissions()
        .unwrap();

    assert_eq!(calculated, Permissions::all());
}

#[test]
fn calculator_administrator_of_last_role_is_only_added() {
    let mut roles = HashMap::new();
    roles.insert(1, perms(VIEW_CHANNEL));
    roles.insert(4, perms(ADMINISTRATOR));
    let calculated = Calculator::new(GuildId(1), UserId(2), &roles)
        .member(UserId(3), &[RoleId(4)])
        .permissions()
        .unwrap();

    assert_eq!(calculated, perms(VIEW_CHANNEL | ADMINISTRATOR));
}
