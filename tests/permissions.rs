use twilight_model::guild::Permissions as Wire;
use twilight_permission_calculator::permissions as p;
use twilight_permission_calculator::permissions::{
    Permissions, ADMINISTRATOR, ALL_BITS, CONNECT, PERMISSIONS_MESSAGING, REQUEST_TO_SPEAK,
    SEND_MESSAGES, VIEW_CHANNEL,
};

#[test]
fn flags_match_the_wire_encoding() {
    let pairs = [
        (p::CREATE_INVITE, Wire::CREATE_INVITE),
        (p::KICK_MEMBERS, Wire::KICK_MEMBERS),
        (p::BAN_MEMBERS, Wire::BAN_MEMBERS),
        (p::ADMINISTRATOR, Wire::ADMINISTRATOR),
        (p::MANAGE_CHANNELS, Wire::MANAGE_CHANNELS),
        (p::MANAGE_GUILD, Wire::MANAGE_GUILD),
        (p::ADD_REACTIONS, Wire::ADD_REACTIONS),
        (p::VIEW_AUDIT_LOG, Wire::VIEW_AUDIT_LOG),
        (p::PRIORITY_SPEAKER, Wire::PRIORITY_SPEAKER),
        (p::STREAM, Wire::STREAM),
        (p::VIEW_CHANNEL, Wire::VIEW_CHANNEL),
        (p::SEND_MESSAGES, Wire::SEND_MESSAGES),
        (p::SEND_TTS_MESSAGES, Wire::SEND_TTS_MESSAGES),
        (p::MANAGE_MESSAGES, Wire::MANAGE_MESSAGES),
        (p::EMBED_LINKS, Wire::EMBED_LINKS),
        (p::ATTACH_FILES, Wire::ATTACH_FILES),
        (p::READ_MESSAGE_HISTORY, Wire::READ_MESSAGE_HISTORY),
        (p::MENTION_EVERYONE, Wire::MENTION_EVERYONE),
        (p::USE_EXTERNAL_EMOJIS, Wire::USE_EXTERNAL_EMOJIS),
        (p::VIEW_GUILD_INSIGHTS, Wire::VIEW_GUILD_INSIGHTS),
        (p::CONNECT, Wire::CONNECT),
        (p::SPEAK, Wire::SPEAK),
        (p::MUTE_MEMBERS, Wire::MUTE_MEMBERS),
        (p::DEAFEN_MEMBERS, Wire::DEAFEN_MEMBERS),
        (p::MOVE_MEMBERS, Wire::MOVE_MEMBERS),
        (p::USE_VAD, Wire::USE_VAD),
        (p::CHANGE_NICKNAME, Wire::CHANGE_NICKNAME),
        (p::MANAGE_NICKNAMES, Wire::MANAGE_NICKNAMES),
        (p::MANAGE_ROLES, Wire::MANAGE_ROLES),
        (p::MANAGE_WEBHOOKS, Wire::MANAGE_WEBHOOKS),
        (p::MANAGE_EMOJIS, Wire::MANAGE_EMOJIS),
        (p::USE_SLASH_COMMANDS, Wire::USE_SLASH_COMMANDS),
        (p::REQUEST_TO_SPEAK, Wire::REQUEST_TO_SPEAK),
    ];
    for (ours, wire) in pairs.iter() {
        assert_eq!(*ours, wire.bits());
    }
    assert_eq!(ALL_BITS, Wire::all().bits());
}

#[test]
fn from_bits_truncate_drops_unknown_bits() {
    let p = Permissions::from_bits_truncate(u64::MAX);
    assert_eq!(p, Permissions::all());
    assert!(p.is_all());
    assert_eq!(Permissions::from_bits_truncate(1 << 40), Permissions::empty());
}

#[test]
fn from_bits_refuses_unknown_bits() {
    assert_eq!(Permissions::from_bits(1 << 33), None);
    assert_eq!(
        Permissions::from_bits(REQUEST_TO_SPEAK).map(|p| p.bits()),
        Some(REQUEST_TO_SPEAK)
    );
}

#[test]
fn insert_remove_contains() {
    let mut p = Permissions::empty();
    assert!(p.is_empty());
    p.insert(Permissions::from_bits_truncate(SEND_MESSAGES | CONNECT));
    assert_eq!(p.bits(), SEND_MESSAGES | CONNECT);
    assert!(p.contains(Permissions::from_bits_truncate(SEND_MESSAGES)));
    assert!(!p.contains(Permissions::from_bits_truncate(SEND_MESSAGES | VIEW_CHANNEL)));
    p.remove(Permissions::from_bits_truncate(CONNECT | ADMINISTRATOR));
    assert_eq!(p.bits(), SEND_MESSAGES);
    assert!(p.contains(Permissions::empty()));
}

#[test]
fn union_and_difference() {
    let a = Permissions::from_bits_truncate(PERMISSIONS_MESSAGING);
    let b = Permissions::from_bits_truncate(SEND_MESSAGES);
    assert_eq!(a.union(b).bits(), PERMISSIONS_MESSAGING | SEND_MESSAGES);
    assert_eq!(a.union(b).difference(a), b);
    assert_eq!(Permissions::all().difference(Permissions::all()), Permissions::empty());
}
