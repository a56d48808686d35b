//! A calculator over a map of every role of a guild, for a member given by the IDs of the
//! roles it holds.
use crate::channel::{ChannelType, PermissionOverwrite};
use crate::error::Error;
use crate::id::{GuildId, RoleId, UserId};
use crate::permissions::Permissions;
use crate::resolve::{
    apply_overwrites, baseline, compute_baseline, in_channel, outcome, MemberModel,
    RoleSource,
};
use std::collections::HashMap;
use vstd::prelude::*;

verus! {

broadcast use vstd::std_specs::hash::group_hash_axioms;

/// Flags of role `id` in `roles`, where `roles` has it.
pub open spec fn lookup(roles: Map<u64, Permissions>, id: u64) -> Option<u64> {
    if roles.contains_key(id) {
        Some(roles[id]@)
    } else {
        None
    }
}

/// What a `Calculator` holds.
pub struct GuildModel {
    pub guild_id: u64,
    pub owner_id: u64,
    pub continue_on_missing_items: bool,
    /// The flags of each role of the guild, by role ID.
    pub roles: Map<u64, Permissions>,
}

/// The member model of the member `user_id` of the guild `g` that holds the roles
/// `member_role_ids`.
pub open spec fn member_model(
    g: GuildModel,
    user_id: u64,
    member_role_ids: Seq<RoleId>,
) -> MemberModel {
    MemberModel {
        guild_id: g.guild_id,
        user_id,
        is_owner: user_id == g.owner_id,
        best_effort: g.continue_on_missing_items,
        everyone: lookup(g.roles, g.guild_id),
        held: member_role_ids.map_values(|r: RoleId| (r.0, lookup(g.roles, r.0))),
    }
}

/// A calculator of permissions within a guild, over the guild's roles keyed by role ID.
#[derive(Clone, Copy, Debug, PartialEq, Eq)]
pub struct Calculator<'a> {
    continue_on_missing_items: bool,
    id: GuildId,
    owner_id: UserId,
    roles: &'a HashMap<u64, Permissions>,
}

impl<'a> View for Calculator<'a> {
    type V = GuildModel;

    closed spec fn view(&self) -> GuildModel {
        GuildModel {
            guild_id: self.id.0,
            owner_id: self.owner_id.0,
            continue_on_missing_items: self.continue_on_missing_items,
            roles: self.roles@,
        }
    }
}

impl<'a> Calculator<'a> {
    /// Creates a calculator for the guild `id` owned by `owner_id`, whose roles have the
    /// flags that `roles` maps their IDs to. Missing items are reported as errors.
    pub fn new(id: GuildId, owner_id: UserId, roles: &'a HashMap<u64, Permissions>) -> (r: Self)
        ensures
            r@ == (GuildModel {
                guild_id: id.0,
                owner_id: owner_id.0,
                continue_on_missing_items: false,
                roles: roles@,
            }),
    {
        Calculator { continue_on_missing_items: false, id, owner_id, roles }
    }

    /// Sets whether a role that is not among the guild's roles is passed over instead of
    /// reported as an error.
    ///
    /// Passing over missing roles can make the result wrong in either direction.
    pub fn continue_on_missing_items(self, continue_on_missing_items: bool) -> (r: Self)
        ensures
            r@ == (GuildModel { continue_on_missing_items, ..self@ }),
    {
        Calculator { continue_on_missing_items, ..self }
    }

    /// A calculator for the member `user_id`, which holds the roles `member_role_ids`.
    pub fn member(self, user_id: UserId, member_role_ids: &'a [RoleId]) -> (r: MemberCalculator<'a>)
        ensures
            r@ == member_model(self@, user_id.0, member_role_ids@),
    {
        let r = MemberCalculator {
            continue_on_missing_items: self.continue_on_missing_items,
            guild_id: self.id,
            guild_owner_id: self.owner_id,
            member_role_ids,
            roles: self.roles,
            user_id,
        };
        assert(r.held_spec() =~= member_role_ids@.map_values(
            |id: RoleId| (id.0, lookup(self.roles@, id.0)),
        ));
        r
    }
}

/// Calculator of the permissions of one member, made by `Calculator::member`.
#[derive(Clone, Copy, Debug, PartialEq, Eq)]
pub struct MemberCalculator<'a> {
    continue_on_missing_items: bool,
    guild_id: GuildId,
    guild_owner_id: UserId,
    member_role_ids: &'a [RoleId],
    roles: &'a HashMap<u64, Permissions>,
    user_id: UserId,
}

impl<'a> View for MemberCalculator<'a> {
    type V = MemberModel;

    closed spec fn view(&self) -> MemberModel {
        MemberModel {
            guild_id: self.guild_id.0,
            user_id: self.user_id.0,
            is_owner: self.user_id.0 == self.guild_owner_id.0,
            best_effort: self.continue_on_missing_items,
            everyone: self.everyone_spec(),
            held: self.held_spec(),
        }
    }
}

impl<'a> RoleSource for MemberCalculator<'a> {
    closed spec fn everyone_spec(&self) -> Option<u64> {
        lookup(self.roles@, self.guild_id.0)
    }

    closed spec fn held_spec(&self) -> Seq<(u64, Option<u64>)> {
        Seq::new(
            self.member_role_ids@.len(),
            |i: int| (self.member_role_ids@[i].0, lookup(self.roles@, self.member_role_ids@[i].0)),
        )
    }

    fn everyone(&self) -> (r: Option<Permissions>) {
        match self.roles.get(&self.guild_id.0) {
            Some(p) => Some(*p),
            None => None,
        }
    }

    fn held_len(&self) -> (n: usize) {
        self.member_role_ids.len()
    }

    fn held_at(&self, i: usize) -> (r: (RoleId, Option<Permissions>)) {
        let id = self.member_role_ids[i];
        match self.roles.get(&id.0) {
            Some(p) => (id, Some(*p)),
            None => (id, None),
        }
    }
}

impl<'a> MemberCalculator<'a> {
    /// The guild-level permissions of the member.
    ///
    /// The owner has every flag. Otherwise the `@everyone` role's flags are united with
    /// those of each role the member holds, in order; once the running set holds
    /// ADMINISTRATOR, the next role found ends the calculation with every flag.
    ///
    /// # Errors
    ///
    /// Unless missing items are passed over, `Error::EveryoneRoleMissing` where the guild's
    /// roles lack the `@everyone` role, and `Error::MemberRoleMissing` for the first held
    /// role that they lack.
    pub fn permissions(&self) -> (r: Result<Permissions, Error>)
        ensures
            outcome(r) == Error::reported(baseline(self@), self@.guild_id, self@.user_id),
    {
        let is_owner = self.user_id.0 == self.guild_owner_id.0;
        match compute_baseline(self, is_owner, self.continue_on_missing_items) {
            Ok(p) => Ok(p),
            Err(missing) => Err(Error::from_missing(missing, self.guild_id, self.user_id)),
        }
    }

    /// The permissions of the member in a channel of type `channel_type` with the
    /// overwrites `channel_overwrites`.
    ///
    /// The `@everyone` role's overwrites apply first, in order. The overwrites of the other
    /// roles the member holds are then united into one allow and one deny, and the member's
    /// own overwrites likewise; the role-level ones apply before the member-level ones.
    /// Where View Channel is denied on one level without being allowed on the same level, the
    /// result is empty. Where Send Messages is denied that way, the flags that depend on it
    /// are dropped. Guild-only flags are always dropped, text flags outside text channels, and
    /// voice flags outside voice channels.
    ///
    /// # Errors
    ///
    /// Those of `permissions`.
    pub fn in_channel(
        self,
        channel_type: ChannelType,
        channel_overwrites: &[PermissionOverwrite],
    ) -> (r: Result<Permissions, Error>)
        ensures
            outcome(r) == Error::reported(
                in_channel(self@, channel_type, channel_overwrites@),
                self@.guild_id,
                self@.user_id,
            ),
    {
        let permissions = self.permissions()?;
        Ok(
            apply_overwrites(
                &self,
                self.guild_id,
                self.user_id,
                permissions,
                channel_type,
                channel_overwrites,
            ),
        )
    }
}

} // verus!
