//! A calculator for a member given by references to the roles it holds, each with its flags.
use crate::channel::{ChannelType, PermissionOverwrite};
use crate::id::{GuildId, RoleId, UserId};
use crate::permissions::Permissions;
use crate::resolve::{
    apply_overwrites, baseline, compute_baseline, in_channel, outcome, MemberModel, MissingRole,
    RoleSource,
};
use crate::role_list::{first_flags, held_pairs, list_model};
use crate::message::{decimal, everyone_role_missing};
use vstd::prelude::*;

verus! {

/// Error of `MemberCalculator`.
#[derive(Clone, Copy, Debug, PartialEq, Eq, Hash, Structural)]
pub enum MemberCalculatorError {
    /// The `@everyone` role is missing from the member's roles.
    EveryoneRoleMissing {
        /// ID of the guild and of the role.
        guild_id: GuildId,
    },
}

impl MemberCalculatorError {
    /// The text of the error.
    pub open spec fn message(self) -> Seq<char> {
        match self {
            MemberCalculatorError::EveryoneRoleMissing { guild_id } => {
                "@everyone role is missing for guild "@ + decimal(guild_id.0 as nat)
            },
        }
    }

    /// The text of the error.
    #[allow(clippy::inherent_to_string)]
    pub fn to_string(&self) -> (r: String)
        ensures
            r@ == self.message(),
    {
        match self {
            MemberCalculatorError::EveryoneRoleMissing { guild_id } => {
                everyone_role_missing(guild_id.0)
            },
        }
    }
}

/// The `(role, flags)` pairs behind `roles` as plain numbers.
pub open spec fn ref_pairs(roles: Seq<&(RoleId, Permissions)>) -> Seq<(u64, u64)> {
    roles.map_values(|t: &(RoleId, Permissions)| (t.0.0, t.1@))
}

/// `r`, with a missing `@everyone` role reported as a `MemberCalculatorError`.
pub open spec fn reported(r: Result<u64, MissingRole>, guild_id: u64) -> Result<
    u64,
    MemberCalculatorError,
> {
    match r {
        Ok(bits) => Ok(bits),
        Err(_) => Err(MemberCalculatorError::EveryoneRoleMissing { guild_id: GuildId(guild_id) }),
    }
}

/// Calculator of the permissions of a member, from references to the roles it holds, each
/// with its flags; the `@everyone` role is among them. A missing `@everyone` role is always
/// an error.
#[derive(Clone, Copy, Debug, PartialEq, Eq)]
pub struct MemberCalculator<'a> {
    guild_id: GuildId,
    member_roles: &'a [&'a (RoleId, Permissions)],
    owner_id: Option<UserId>,
    user_id: UserId,
}

impl<'a> View for MemberCalculator<'a> {
    type V = MemberModel;

    closed spec fn view(&self) -> MemberModel {
        MemberModel {
            guild_id: self.guild_id.0,
            user_id: self.user_id.0,
            is_owner: self.owner_id == Some(self.user_id),
            best_effort: false,
            everyone: self.everyone_spec(),
            held: self.held_spec(),
        }
    }
}

impl<'a> RoleSource for MemberCalculator<'a> {
    closed spec fn everyone_spec(&self) -> Option<u64> {
        first_flags(ref_pairs(self.member_roles@), self.guild_id.0)
    }

    closed spec fn held_spec(&self) -> Seq<(u64, Option<u64>)> {
        held_pairs(ref_pairs(self.member_roles@))
    }

    fn everyone(&self) -> (r: Option<Permissions>) {
        let ghost all = ref_pairs(self.member_roles@);
        let n = self.member_roles.len();
        let mut i: usize = 0;
        assert(all.subrange(0, n as int) =~= all);
        while i < n
            invariant
                n == self.member_roles@.len(),
                all == ref_pairs(self.member_roles@),
                0 <= i <= n,
                first_flags(all.subrange(i as int, n as int), self.guild_id.0) == first_flags(
                    all,
                    self.guild_id.0,
                ),
            decreases n - i,
        {
            assert(all.subrange(i as int, n as int).drop_first() =~= all.subrange(i + 1, n as int));
            let (id, flags) = *self.member_roles[i];
            if id.0 == self.guild_id.0 {
                return Some(flags);
            }
            i = i + 1;
        }
        None
    }

    fn held_len(&self) -> (n: usize) {
        self.member_roles.len()
    }

    fn held_at(&self, i: usize) -> (r: (RoleId, Option<Permissions>)) {
        let (id, flags) = *self.member_roles[i];
        (id, Some(flags))
    }
}

impl<'a> MemberCalculator<'a> {
    /// Creates a calculator for the member `user_id` of the guild `guild_id`, which holds the
    /// roles behind `member_roles`, each with its flags. The guild has no known owner.
    pub fn new(
        guild_id: GuildId,
        user_id: UserId,
        member_roles: &'a [&'a (RoleId, Permissions)],
    ) -> (r: Self)
        ensures
            r@ == list_model(guild_id.0, user_id.0, None, false, ref_pairs(member_roles@)),
    {
        MemberCalculator { guild_id, member_roles, owner_id: None, user_id }
    }

    /// Sets the owner of the guild: where the member is the owner, it has every flag.
    pub fn owner_id(self, owner_id: UserId) -> (r: Self)
        ensures
            r@ == (MemberModel { is_owner: owner_id.0 == self@.user_id, ..self@ }),
    {
        MemberCalculator { owner_id: Some(owner_id), ..self }
    }

    /// The guild-level permissions of the member; see `Calculator::root` for the rules.
    ///
    /// # Errors
    ///
    /// `MemberCalculatorError::EveryoneRoleMissing` where the member's roles lack the
    /// `@everyone` role.
    pub fn root(&self) -> (r: Result<Permissions, MemberCalculatorError>)
        ensures
            outcome(r) == reported(baseline(self@), self@.guild_id),
    {
        match compute_baseline(self, self.owner_id == Some(self.user_id), false) {
            Ok(p) => Ok(p),
            Err(_) => Err(MemberCalculatorError::EveryoneRoleMissing { guild_id: self.guild_id }),
        }
    }

    /// The permissions of the member in a channel of type `channel_type` with the
    /// overwrites `channel_overwrites`; see `calculator::MemberCalculator::in_channel` for the
    /// rules.
    ///
    /// # Errors
    ///
    /// Those of `root`.
    pub fn in_channel(
        self,
        channel_type: ChannelType,
        channel_overwrites: &[PermissionOverwrite],
    ) -> (r: Result<Permissions, MemberCalculatorError>)
        ensures
            outcome(r) == reported(
                in_channel(self@, channel_type, channel_overwrites@),
                self@.guild_id,
            ),
    {
        let permissions = self.root()?;
        Ok(
            apply_overwrites(
                &self,
                self.guild_id,
                self.user_id,
                permissions,
                channel_type,
                channel_overwrites,
            ),
        )
    }
}

} // verus!
