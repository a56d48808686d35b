//! Role data given as a list of the roles a member holds, each paired with its flags. The
//! `@everyone` role is the first pair whose role has the guild's ID, and every pair is
//! processed as a held role.
use crate::resolve::MemberModel;
use vstd::prelude::*;

verus! {

/// Flags of the first pair of `roles` whose role is `id`.
pub open spec fn first_flags(roles: Seq<(u64, u64)>, id: u64) -> Option<u64>
    decreases roles.len(),
{
    if roles.len() == 0 {
        None
    } else if roles[0].0 == id {
        Some(roles[0].1)
    } else {
        first_flags(roles.drop_first(), id)
    }
}

/// Every pair of `roles` as a held role whose flags are present.
pub open spec fn held_pairs(roles: Seq<(u64, u64)>) -> Seq<(u64, Option<u64>)> {
    roles.map_values(|t: (u64, u64)| (t.0, Some(t.1)))
}

/// The member model of the member `user_id` of the guild `guild_id`, owned by `owner_id`
/// where that is known, that holds the roles of `roles`.
pub open spec fn list_model(
    guild_id: u64,
    user_id: u64,
    owner_id: Option<u64>,
    best_effort: bool,
    roles: Seq<(u64, u64)>,
) -> MemberModel {
    MemberModel {
        guild_id,
        user_id,
        is_owner: owner_id == Some(user_id),
        best_effort,
        everyone: first_flags(roles, guild_id),
        held: held_pairs(roles),
    }
}

} // verus!
