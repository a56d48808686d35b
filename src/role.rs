//! A calculator for a role, over one overwrite of that role.
use crate::channel::{PermissionOverwrite, PermissionOverwriteType};
use crate::permissions::Permissions;
use crate::message::overwrite_not_role;
use vstd::prelude::*;

verus! {

/// Error of `RoleCalculator`.
#[derive(Clone, Copy, Debug, PartialEq, Eq, Hash, Structural)]
pub enum RoleCalculatorError {
    /// The permission overwrite is not the overwrite of a role.
    PermissionOverwriteNotRole,
}

impl RoleCalculatorError {
    /// The text of the error.
    pub open spec fn message(self) -> Seq<char> {
        match self {
            RoleCalculatorError::PermissionOverwriteNotRole => {
                "permission overwrite is not role overwrite"@
            },
        }
    }

    /// The text of the error.
    #[allow(clippy::inherent_to_string)]
    pub fn to_string(&self) -> (r: String)
        ensures
            r@ == self.message(),
    {
        match self {
            RoleCalculatorError::PermissionOverwriteNotRole => overwrite_not_role(),
        }
    }
}

/// Calculator of the permissions of a role in a channel, from the role's guild-level flags.
#[derive(Clone, Copy, Debug, PartialEq, Eq)]
pub struct RoleCalculator {
    permissions: Permissions,
}

impl View for RoleCalculator {
    type V = u64;

    closed spec fn view(&self) -> u64 {
        self.permissions@
    }
}

impl RoleCalculator {
    /// A calculator for a role whose guild-level flags are `permissions`.
    pub fn new(permissions: Permissions) -> (r: Self)
        ensures
            r@ == permissions@,
    {
        RoleCalculator { permissions }
    }

    /// The role's flags in a channel where `permission_overwrite` is its overwrite: the flags
    /// of its deny are taken away, then those of its allow are granted.
    ///
    /// # Errors
    ///
    /// `RoleCalculatorError::PermissionOverwriteNotRole` where the overwrite is a member's.
    pub fn in_channel(self, permission_overwrite: PermissionOverwrite) -> (r: Result<
        Permissions,
        RoleCalculatorError,
    >)
        ensures
            permission_overwrite.kind is Member ==> r == Err::<Permissions, _>(
                RoleCalculatorError::PermissionOverwriteNotRole,
            ),
            permission_overwrite.kind is Role ==> r is Ok && r->Ok_0@ == (self@
                & !permission_overwrite.deny@) | permission_overwrite.allow@,
    {
        if let PermissionOverwriteType::Member(_) = permission_overwrite.kind {
            return Err(RoleCalculatorError::PermissionOverwriteNotRole);
        }
        let mut permissions = self.permissions;
        permissions.remove(permission_overwrite.deny);
        permissions.insert(permission_overwrite.allow);
        Ok(permissions)
    }
}

} // verus!
