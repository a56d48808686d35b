//! A calculator of the permissions of a member of a guild, taking into account the roles the
//! member holds and the permission overwrites of a channel.
pub mod calculator;
pub mod channel;
pub mod error;
pub mod id;
pub mod laws;
pub mod member;
pub mod message;
pub mod permissions;
pub mod prelude;
pub mod resolve;
pub mod role;
pub mod role_list;

use crate::channel::{ChannelType, PermissionOverwrite};
use crate::id::{GuildId, RoleId, UserId};
use crate::permissions::Permissions;
use crate::resolve::{
    apply_overwrites, baseline, compute_baseline, in_channel, outcome, MemberModel, MissingRole,
    RoleSource,
};
use crate::laws::lemma_best_effort;
use crate::role_list::{first_flags, list_model};
use crate::message::{decimal, everyone_role_missing};
use vstd::prelude::*;

verus! {

/// Error of `Calculator`.
///
/// Only returned where missing items are not passed over.
#[derive(Clone, Copy, Debug, PartialEq, Eq, Hash, Structural)]
pub enum CalculatorError {
    /// The `@everyone` role is missing from the member's roles.
    EveryoneRoleMissing {
        /// ID of the guild and of the role.
        guild_id: GuildId,
    },
}

impl CalculatorError {
    /// The text of the error.
    pub open spec fn message(self) -> Seq<char> {
        match self {
            CalculatorError::EveryoneRoleMissing { guild_id } => {
                "@everyone role is missing for guild "@ + decimal(guild_id.0 as nat)
            },
        }
    }

    /// The text of the error.
    #[allow(clippy::inherent_to_string)]
    pub fn to_string(&self) -> (r: String)
        ensures
            r@ == self.message(),
    {
        match self {
            CalculatorError::EveryoneRoleMissing { guild_id } => everyone_role_missing(guild_id.0),
        }
    }
}

/// The `(role, flags)` pairs of `roles` as plain numbers.
pub open spec fn pairs(roles: Seq<(RoleId, Permissions)>) -> Seq<(u64, u64)> {
    roles.map_values(|t: (RoleId, Permissions)| (t.0.0, t.1@))
}

/// `r`, with a missing `@everyone` role reported as a `CalculatorError`.
pub open spec fn reported(r: Result<u64, resolve::MissingRole>, guild_id: u64) -> Result<
    u64,
    CalculatorError,
> {
    match r {
        Ok(bits) => Ok(bits),
        Err(_) => Err(CalculatorError::EveryoneRoleMissing { guild_id: GuildId(guild_id) }),
    }
}

/// Calculator of the permissions of a member, from the roles it holds, each given with its
/// flags; the `@everyone` role is among them.
#[derive(Clone, Copy, Debug, PartialEq, Eq)]
pub struct Calculator<'a> {
    continue_on_missing_items: bool,
    guild_id: GuildId,
    member_roles: &'a [(RoleId, Permissions)],
    owner_id: Option<UserId>,
    user_id: UserId,
}

impl<'a> View for Calculator<'a> {
    type V = MemberModel;

    closed spec fn view(&self) -> MemberModel {
        MemberModel {
            guild_id: self.guild_id.0,
            user_id: self.user_id.0,
            is_owner: self.owner_id == Some(self.user_id),
            best_effort: self.continue_on_missing_items,
            everyone: self.everyone_spec(),
            held: self.held_spec(),
        }
    }
}

impl<'a> RoleSource for Calculator<'a> {
    closed spec fn everyone_spec(&self) -> Option<u64> {
        first_flags(pairs(self.member_roles@), self.guild_id.0)
    }

    closed spec fn held_spec(&self) -> Seq<(u64, Option<u64>)> {
        role_list::held_pairs(pairs(self.member_roles@))
    }

    fn everyone(&self) -> (r: Option<Permissions>) {
        let ghost all = pairs(self.member_roles@);
        let n = self.member_roles.len();
        let mut i: usize = 0;
        assert(all.subrange(0, n as int) =~= all);
        while i < n
            invariant
                n == self.member_roles@.len(),
                all == pairs(self.member_roles@),
                0 <= i <= n,
                first_flags(all.subrange(i as int, n as int), self.guild_id.0) == first_flags(
                    all,
                    self.guild_id.0,
                ),
            decreases n - i,
        {
            assert(all.subrange(i as int, n as int).drop_first() =~= all.subrange(i + 1, n as int));
            let (id, flags) = self.member_roles[i];
            if id.0 == self.guild_id.0 {
                return Some(flags);
            }
            i = i + 1;
        }
        None
    }

    fn held_len(&self) -> (n: usize) {
        self.member_roles.len()
    }

    fn held_at(&self, i: usize) -> (r: (RoleId, Option<Permissions>)) {
        let (id, flags) = self.member_roles[i];
        (id, Some(flags))
    }
}

impl<'a> Calculator<'a> {
    /// Creates a calculator for the member `user_id` of the guild `guild_id`, which holds the
    /// roles of `member_roles`, each given with its flags. The guild has no known owner, and
    /// a missing `@everyone` role is an error.
    pub fn new(guild_id: GuildId, user_id: UserId, member_roles: &'a [(RoleId, Permissions)]) -> (r:
        Self)
        ensures
            r@ == list_model(guild_id.0, user_id.0, None, false, pairs(member_roles@)),
    {
        Calculator {
            continue_on_missing_items: false,
            guild_id,
            member_roles,
            owner_id: None,
            user_id,
        }
    }

    /// Sets the owner of the guild: where the member is the owner, it has every flag.
    pub fn owner_id(self, owner_id: UserId) -> (r: Self)
        ensures
            r@ == (MemberModel { is_owner: owner_id.0 == self@.user_id, ..self@ }),
    {
        Calculator { owner_id: Some(owner_id), ..self }
    }

    /// The guild-level permissions of the member.
    ///
    /// The owner has every flag. Otherwise the `@everyone` role's flags are united with
    /// those of each of the member's roles, in order; once the running set holds
    /// ADMINISTRATOR, the next role ends the calculation with every flag.
    ///
    /// # Errors
    ///
    /// Unless missing items are passed over, `CalculatorError::EveryoneRoleMissing` where the
    /// member's roles lack the `@everyone` role.
    pub fn root(&self) -> (r: Result<Permissions, CalculatorError>)
        ensures
            outcome(r) == reported(baseline(self@), self@.guild_id),
    {
        let is_owner = self.owner_id == Some(self.user_id);
        match compute_baseline(self, is_owner, self.continue_on_missing_items) {
            Ok(p) => Ok(p),
            Err(_) => Err(CalculatorError::EveryoneRoleMissing { guild_id: self.guild_id }),
        }
    }

    /// The permissions of the member in a channel of type `channel_type` with the
    /// overwrites `channel_overwrites`; see `calculator::MemberCalculator::in_channel` for the
    /// rules.
    ///
    /// # Errors
    ///
    /// Those of `root`.
    pub fn in_channel(
        self,
        channel_type: ChannelType,
        channel_overwrites: &[PermissionOverwrite],
    ) -> (r: Result<Permissions, CalculatorError>)
        ensures
            outcome(r) == reported(
                in_channel(self@, channel_type, channel_overwrites@),
                self@.guild_id,
            ),
    {
        let permissions = self.root()?;
        Ok(
            apply_overwrites(
                &self,
                self.guild_id,
                self.user_id,
                permissions,
                channel_type,
                channel_overwrites,
            ),
        )
    }
}

/// Calculator of the permissions of a member that passes over missing items instead of
/// failing; otherwise a `Calculator`.
///
/// A result computed without the `@everyone` role's flags can be wrong in either direction.
#[derive(Clone, Copy, Debug, PartialEq, Eq)]
pub struct InfallibleCalculator<'a>(Calculator<'a>);

impl<'a> View for InfallibleCalculator<'a> {
    type V = MemberModel;

    closed spec fn view(&self) -> MemberModel {
        self.0@
    }
}

impl<'a> InfallibleCalculator<'a> {
    #[verifier::type_invariant]
    spec fn passes_over_missing_items(self) -> bool {
        self.0.continue_on_missing_items
    }

    /// Creates an infallible calculator for the member `user_id` of the guild `guild_id`,
    /// which holds the roles of `member_roles`, each given with its flags. The guild has no
    /// known owner.
    pub fn new(guild_id: GuildId, user_id: UserId, member_roles: &'a [(RoleId, Permissions)]) -> (r:
        Self)
        ensures
            r@ == list_model(guild_id.0, user_id.0, None, true, pairs(member_roles@)),
    {
        let inner = Calculator::new(guild_id, user_id, member_roles);
        InfallibleCalculator(Calculator { continue_on_missing_items: true, ..inner })
    }

    /// Sets the owner of the guild: where the member is the owner, it has every flag.
    pub fn owner_id(self, owner_id: UserId) -> (r: Self)
        ensures
            r@ == (MemberModel { is_owner: owner_id.0 == self@.user_id, ..self@ }),
    {
        proof {
            use_type_invariant(&self);
        }
        InfallibleCalculator(self.0.owner_id(owner_id))
    }

    /// The guild-level permissions of the member; see `Calculator::root`.
    pub fn root(&self) -> (r: Permissions)
        ensures
            Ok::<u64, MissingRole>(r@) == baseline(self@),
    {
        proof {
            use_type_invariant(self);
            lemma_best_effort(self@, ChannelType::Other, Seq::empty());
        }
        self.0.root().unwrap()
    }

    /// The permissions of the member in a channel of type `channel_type` with the
    /// overwrites `channel_overwrites`; see `Calculator::in_channel`.
    pub fn in_channel(
        self,
        channel_type: ChannelType,
        channel_overwrites: &[PermissionOverwrite],
    ) -> (r: Permissions)
        ensures
            Ok::<u64, MissingRole>(r@) == in_channel(self@, channel_type, channel_overwrites@),
    {
        proof {
            use_type_invariant(&self);
            lemma_best_effort(self@, channel_type, channel_overwrites@);
        }
        self.0.in_channel(channel_type, channel_overwrites).unwrap()
    }
}

} // verus!
