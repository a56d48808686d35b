use crate::id::{RoleId, UserId};
use crate::permissions::Permissions;
use vstd::prelude::*;

verus! {

/// The kind of channel that permissions are computed in, as far as it decides which flags
/// stay meaningful.
#[derive(Clone, Copy, Debug, PartialEq, Eq, Hash, Structural)]
pub enum ChannelType {
    /// A text channel of a guild: text flags stay, voice flags go.
    GuildText,
    /// A voice channel of a guild: voice flags stay, text flags go.
    GuildVoice,
    /// Any other channel (a category, for one): text and voice flags both go.
    Other,
}

/// Whom a permission overwrite applies to.
#[derive(Clone, Copy, Debug, PartialEq, Eq, Hash, Structural)]
pub enum PermissionOverwriteType {
    /// Every member that holds the role.
    Role(RoleId),
    /// One member.
    Member(UserId),
}

/// A channel-level change to permissions: the flags of `deny` are taken away, then the
/// flags of `allow` are granted.
#[derive(Clone, Copy, Debug, PartialEq, Eq, Hash, Structural)]
pub struct PermissionOverwrite {
    pub allow: Permissions,
    pub deny: Permissions,
    pub kind: PermissionOverwriteType,
}

} // verus!
