use crate::id::{GuildId, RoleId, UserId};
use crate::message::{decimal, everyone_role_missing, member_role_missing, overwrite_not_role};
use crate::resolve::MissingRole;
use vstd::prelude::*;

verus! {

/// Error of the calculators of the `calculator` module.
///
/// Only returned where missing items are not passed over
/// (see `Calculator::continue_on_missing_items`).
#[derive(Clone, Copy, Debug, PartialEq, Eq, Hash, Structural)]
pub enum Error {
    /// The `@everyone` role is missing from the guild's roles.
    EveryoneRoleMissing {
        /// ID of the guild and of the role.
        guild_id: GuildId,
    },
    /// One of the member's roles is missing from the guild's roles.
    MemberRoleMissing {
        /// ID of the missing role that the member holds.
        role_id: RoleId,
        /// ID of the member.
        user_id: UserId,
    },
    /// The permission overwrite is not the overwrite of a role.
    PermissionOverwriteNotRole,
}

impl Error {
    /// The error that reports `missing` for the member `user_id` of the guild `guild_id`.
    pub open spec fn of_missing(missing: MissingRole, guild_id: u64, user_id: u64) -> Error {
        match missing {
            MissingRole::Everyone => Error::EveryoneRoleMissing { guild_id: GuildId(guild_id) },
            MissingRole::Role(role_id) => Error::MemberRoleMissing {
                role_id,
                user_id: UserId(user_id),
            },
        }
    }

    /// `r`, with a missing role reported as an `Error`.
    pub open spec fn reported(r: Result<u64, MissingRole>, guild_id: u64, user_id: u64) -> Result<
        u64,
        Error,
    > {
        match r {
            Ok(bits) => Ok(bits),
            Err(missing) => Err(Error::of_missing(missing, guild_id, user_id)),
        }
    }

    /// The text of the error.
    pub open spec fn message(self) -> Seq<char> {
        match self {
            Error::EveryoneRoleMissing { guild_id } => "@everyone role is missing for guild "@
                + decimal(guild_id.0 as nat),
            Error::MemberRoleMissing { role_id, user_id } => "member "@ + decimal(user_id.0 as nat)
                + " is missing role "@ + decimal(role_id.0 as nat),
            Error::PermissionOverwriteNotRole => "permission overwrite is not role overwrite"@,
        }
    }

    /// The text of the error.
    #[allow(clippy::inherent_to_string)]
    pub fn to_string(&self) -> (r: String)
        ensures
            r@ == self.message(),
    {
        match self {
            Error::EveryoneRoleMissing { guild_id } => everyone_role_missing(guild_id.0),
            Error::MemberRoleMissing { role_id, user_id } => {
                member_role_missing(user_id.0, role_id.0)
            },
            Error::PermissionOverwriteNotRole => overwrite_not_role(),
        }
    }

    pub(crate) fn from_missing(missing: MissingRole, guild_id: GuildId, user_id: UserId) -> (r:
        Error)
        ensures
            r == Error::of_missing(missing, guild_id.0, user_id.0),
    {
        match missing {
            MissingRole::Everyone => Error::EveryoneRoleMissing { guild_id },
            MissingRole::Role(role_id) => Error::MemberRoleMissing { role_id, user_id },
        }
    }
}

} // verus!
