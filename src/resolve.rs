//! The permission resolution shared by every calculator: the guild-level baseline computed
//! from roles, and the channel-level result computed from the baseline and the channel's
//! overwrites.
//!
//! Role overwrites of several roles are merged as sets (every allow is united, every deny is
//! united), so their order among themselves does not matter; role positions play no part.
use crate::channel::{ChannelType, PermissionOverwrite, PermissionOverwriteType};
use crate::id::{GuildId, RoleId, UserId};
use crate::permissions::{
    has_all, lemma_masks_within_all, Permissions, ADMINISTRATOR, ALL_BITS, PERMISSIONS_MESSAGING,
    PERMISSIONS_ROOT, PERMISSIONS_TEXT, PERMISSIONS_VOICE, SEND_MESSAGES, VIEW_CHANNEL,
};
use vstd::prelude::*;

verus! {

/// What a member's permissions are computed from.
pub struct MemberModel {
    pub guild_id: u64,
    pub user_id: u64,
    /// Whether the member owns the guild.
    pub is_owner: bool,
    /// Whether missing role data is passed over instead of reported.
    pub best_effort: bool,
    /// Flags of the `@everyone` role, where its data was supplied.
    pub everyone: Option<u64>,
    /// The roles the member holds, in the order they are processed, each with its flags
    /// where its data was supplied.
    pub held: Seq<(u64, Option<u64>)>,
}

/// Role data that a member's permissions needed and that was not supplied.
#[derive(Clone, Copy, Debug, PartialEq, Eq, Hash, Structural)]
pub enum MissingRole {
    /// The `@everyone` role.
    Everyone,
    /// A role that the member holds.
    Role(RoleId),
}

/// The flags of `p`, where there is a set.
pub open spec fn bits_of(p: Option<Permissions>) -> Option<u64> {
    match p {
        Some(p) => Some(p@),
        None => None,
    }
}

/// `r` with its permission set as flags.
pub open spec fn outcome<E>(r: Result<Permissions, E>) -> Result<u64, E> {
    match r {
        Ok(p) => Ok(p@),
        Err(e) => Err(e),
    }
}

/// Folds the held roles into `acc`, front to back. A role whose data is missing is an error,
/// or is passed over in best-effort mode. Before a role's flags are added, a running set that
/// already holds ADMINISTRATOR ends the fold with every flag.
pub open spec fn role_fold(acc: u64, held: Seq<(u64, Option<u64>)>, best_effort: bool) -> Result<
    u64,
    MissingRole,
>
    decreases held.len(),
{
    if held.len() == 0 {
        Ok(acc)
    } else {
        match held[0].1 {
            None => if best_effort {
                role_fold(acc, held.drop_first(), best_effort)
            } else {
                Err(MissingRole::Role(RoleId(held[0].0)))
            },
            Some(flags) => if has_all(acc, ADMINISTRATOR) {
                Ok(ALL_BITS)
            } else {
                role_fold(acc | flags, held.drop_first(), best_effort)
            },
        }
    }
}

/// The guild-level permissions of a member, from the four parts of `MemberModel` they
/// depend on.
pub open spec fn baseline_of(
    is_owner: bool,
    best_effort: bool,
    everyone: Option<u64>,
    held: Seq<(u64, Option<u64>)>,
) -> Result<u64, MissingRole> {
    if is_owner {
        Ok(ALL_BITS)
    } else {
        match everyone {
            Some(flags) => role_fold(flags, held, best_effort),
            None => if best_effort {
                role_fold(0, held, true)
            } else {
                Err(MissingRole::Everyone)
            },
        }
    }
}

/// The guild-level permissions of a member.
pub open spec fn baseline(m: MemberModel) -> Result<u64, MissingRole> {
    baseline_of(m.is_owner, m.best_effort, m.everyone, m.held)
}

/// Whether the member holds a role numbered `id`.
pub open spec fn holds_role(held: Seq<(u64, Option<u64>)>, id: u64) -> bool {
    exists|i: int| 0 <= i < held.len() && #[trigger] held[i].0 == id
}

/// Whether `ow` is the overwrite of the guild's `@everyone` role.
pub open spec fn is_everyone_overwrite(ow: PermissionOverwrite, guild_id: u64) -> bool {
    match ow.kind {
        PermissionOverwriteType::Role(r) => r.0 == guild_id,
        PermissionOverwriteType::Member(_) => false,
    }
}

/// Whether `ow` is the overwrite of a role, other than `@everyone`, that the member holds.
pub open spec fn is_held_role_overwrite(
    ow: PermissionOverwrite,
    guild_id: u64,
    held: Seq<(u64, Option<u64>)>,
) -> bool {
    match ow.kind {
        PermissionOverwriteType::Role(r) => r.0 != guild_id && holds_role(held, r.0),
        PermissionOverwriteType::Member(_) => false,
    }
}

/// Whether `ow` is the overwrite of the member itself.
pub open spec fn is_member_overwrite(ow: PermissionOverwrite, user_id: u64) -> bool {
    match ow.kind {
        PermissionOverwriteType::Role(_) => false,
        PermissionOverwriteType::Member(u) => u.0 == user_id,
    }
}

/// The state of one pass over a channel's overwrites.
pub struct Scan {
    /// The baseline with every `@everyone` overwrite applied, in order.
    pub permissions: u64,
    /// Union of the allows of the overwrites of held roles.
    pub roles_allow: u64,
    /// Union of the denies of the overwrites of held roles.
    pub roles_deny: u64,
    /// Union of the allows of the member's own overwrites.
    pub member_allow: u64,
    /// Union of the denies of the member's own overwrites.
    pub member_deny: u64,
}

/// `s` after the overwrite `ow`.
pub open spec fn scan_step(
    s: Scan,
    ow: PermissionOverwrite,
    guild_id: u64,
    user_id: u64,
    held: Seq<(u64, Option<u64>)>,
) -> Scan {
    if is_everyone_overwrite(ow, guild_id) {
        Scan { permissions: (s.permissions & !ow.deny@) | ow.allow@, ..s }
    } else if is_held_role_overwrite(ow, guild_id, held) {
        Scan { roles_allow: s.roles_allow | ow.allow@, roles_deny: s.roles_deny | ow.deny@, ..s }
    } else if is_member_overwrite(ow, user_id) {
        Scan {
            member_allow: s.member_allow | ow.allow@,
            member_deny: s.member_deny | ow.deny@,
            ..s
        }
    } else {
        s
    }
}

/// One pass over `ows`, front to back, starting from the baseline `base`.
pub open spec fn scan(
    base: u64,
    ows: Seq<PermissionOverwrite>,
    guild_id: u64,
    user_id: u64,
    held: Seq<(u64, Option<u64>)>,
) -> Scan
    decreases ows.len(),
{
    if ows.len() == 0 {
        Scan { permissions: base, roles_allow: 0, roles_deny: 0, member_allow: 0, member_deny: 0 }
    } else {
        let prev = scan(base, ows.drop_last(), guild_id, user_id, held);
        scan_step(prev, ows.last(), guild_id, user_id, held)
    }
}

/// Whether `flag` is denied on the role level without a role-level allow, or on the member
/// level without a member-level allow.
pub open spec fn denied(s: Scan, flag: u64) -> bool {
    (has_all(s.roles_deny, flag) && !has_all(s.roles_allow, flag)) || (has_all(s.member_deny, flag)
        && !has_all(s.member_allow, flag))
}

/// The channel-level permissions from the baseline `base` and the channel's overwrites.
pub open spec fn overwritten(
    base: u64,
    ct: ChannelType,
    ows: Seq<PermissionOverwrite>,
    guild_id: u64,
    user_id: u64,
    held: Seq<(u64, Option<u64>)>,
) -> u64 {
    let s = scan(base, ows, guild_id, user_id, held);
    if denied(s, VIEW_CHANNEL) {
        0
    } else {
        let (p, roles_allow, member_allow) = if denied(s, SEND_MESSAGES) {
            (
                s.permissions & !PERMISSIONS_MESSAGING,
                s.roles_allow & !PERMISSIONS_MESSAGING,
                s.member_allow & !PERMISSIONS_MESSAGING,
            )
        } else {
            (s.permissions, s.roles_allow, s.member_allow)
        };
        let p = (((p & !s.roles_deny) | roles_allow) & !s.member_deny) | member_allow;
        let p = p & !PERMISSIONS_ROOT;
        let p = if ct != ChannelType::GuildText { p & !PERMISSIONS_TEXT } else { p };
        if ct != ChannelType::GuildVoice { p & !PERMISSIONS_VOICE } else { p }
    }
}

/// The channel-level permissions of a member.
pub open spec fn in_channel(
    m: MemberModel,
    ct: ChannelType,
    ows: Seq<PermissionOverwrite>,
) -> Result<u64, MissingRole> {
    match baseline(m) {
        Ok(base) => Ok(overwritten(base, ct, ows, m.guild_id, m.user_id, m.held)),
        Err(e) => Err(e),
    }
}

/// Role data as a calculator holds it: the `@everyone` role's flags, and the roles a member
/// holds.
pub trait RoleSource {
    /// Flags of the `@everyone` role, where its data is present.
    spec fn everyone_spec(&self) -> Option<u64>;

    /// The held roles, in processing order, each with its flags where its data is present.
    spec fn held_spec(&self) -> Seq<(u64, Option<u64>)>;

    /// Looks the `@everyone` role up.
    fn everyone(&self) -> (r: Option<Permissions>)
        ensures
            bits_of(r) == self.everyone_spec(),
    ;

    /// The number of held roles.
    fn held_len(&self) -> (n: usize)
        ensures
            n == self.held_spec().len(),
    ;

    /// The `i`-th held role, with its flags looked up.
    fn held_at(&self, i: usize) -> (r: (RoleId, Option<Permissions>))
        requires
            i < self.held_spec().len(),
        ensures
            r.0.0 == self.held_spec()[i as int].0,
            bits_of(r.1) == self.held_spec()[i as int].1,
    ;
}

/// Computes the guild-level permissions of a member from its role data.
pub fn compute_baseline<S: RoleSource>(source: &S, is_owner: bool, best_effort: bool) -> (r: Result<
    Permissions,
    MissingRole,
>)
    ensures
        outcome(r) == baseline_of(
            is_owner,
            best_effort,
            source.everyone_spec(),
            source.held_spec(),
        ),
{
    if is_owner {
        return Ok(Permissions::all());
    }
    let mut permissions = match source.everyone() {
        Some(p) => p,
        None => {
            if best_effort {
                Permissions::empty()
            } else {
                return Err(MissingRole::Everyone);
            }
        },
    };
    let ghost held = source.held_spec();
    let n = source.held_len();
    assert(held.subrange(0, n as int) =~= held);
    proof {
        lemma_masks_within_all();
    }
    let administrator = Permissions::flags(ADMINISTRATOR);
    let mut i: usize = 0;
    while i < n
        invariant
            administrator@ == ADMINISTRATOR,
            n == held.len(),
            held == source.held_spec(),
            0 <= i <= n,
            role_fold(permissions@, held.subrange(i as int, n as int), best_effort)
                == baseline_of(is_owner, best_effort, source.everyone_spec(), source.held_spec()),
        decreases n - i,
    {
        let ghost rest = held.subrange(i as int, n as int);
        assert(rest.drop_first() =~= held.subrange(i + 1, n as int));
        let (role_id, found) = source.held_at(i);
        match found {
            None => {
                if !best_effort {
                    return Err(MissingRole::Role(role_id));
                }
            },
            Some(flags) => {
                if permissions.contains(administrator) {
                    return Ok(Permissions::all());
                }
                permissions.insert(flags);
            },
        }
        i = i + 1;
    }
    assert(held.subrange(n as int, n as int).len() == 0);
    Ok(permissions)
}

/// Whether the member holds the role `id`.
fn member_holds<S: RoleSource>(source: &S, id: RoleId) -> (r: bool)
    ensures
        r == holds_role(source.held_spec(), id.0),
{
    let n = source.held_len();
    let mut i: usize = 0;
    while i < n
        invariant
            n == source.held_spec().len(),
            0 <= i <= n,
            forall|j: int| 0 <= j < i ==> source.held_spec()[j].0 != id.0,
        decreases n - i,
    {
        let (held_id, _) = source.held_at(i);
        if held_id.0 == id.0 {
            return true;
        }
        i = i + 1;
    }
    false
}

/// Computes the channel-level permissions of a member from its guild-level permissions
/// `base`, the channel's type and the channel's overwrites.
pub fn apply_overwrites<S: RoleSource>(
    source: &S,
    guild_id: GuildId,
    user_id: UserId,
    base: Permissions,
    channel_type: ChannelType,
    overwrites: &[PermissionOverwrite],
) -> (r: Permissions)
    ensures
        r@ == overwritten(
            base@,
            channel_type,
            overwrites@,
            guild_id.0,
            user_id.0,
            source.held_spec(),
        ),
{
    let ghost ows = overwrites@;
    let ghost held = source.held_spec();
    proof {
        lemma_masks_within_all();
    }
    let mut permissions = base;
    let mut member_allow = Permissions::empty();
    let mut member_deny = Permissions::empty();
    let mut roles_allow = Permissions::empty();
    let mut roles_deny = Permissions::empty();
    let mut i: usize = 0;
    while i < overwrites.len()
        invariant
            ows == overwrites@,
            held == source.held_spec(),
            0 <= i <= ows.len(),
            (Scan {
                permissions: permissions@,
                roles_allow: roles_allow@,
                roles_deny: roles_deny@,
                member_allow: member_allow@,
                member_deny: member_deny@,
            }) == scan(base@, ows.take(i as int), guild_id.0, user_id.0, held),
        decreases ows.len() - i,
    {
        assert(ows.take(i + 1).drop_last() =~= ows.take(i as int));
        let overwrite = overwrites[i];
        match overwrite.kind {
            PermissionOverwriteType::Role(role) => {
                if role.0 == guild_id.0 {
                    permissions.remove(overwrite.deny);
                    permissions.insert(overwrite.allow);
                } else if member_holds(source, role) {
                    roles_allow.insert(overwrite.allow);
                    roles_deny.insert(overwrite.deny);
                }
            },
            PermissionOverwriteType::Member(member) => {
                if member.0 == user_id.0 {
                    member_allow.insert(overwrite.allow);
                    member_deny.insert(overwrite.deny);
                }
            },
        }
        i = i + 1;
    }
    assert(ows.take(ows.len() as int) =~= ows);
    let view_channel = Permissions::flags(VIEW_CHANNEL);
    let role_view_channel_denied = roles_deny.contains(view_channel) && !roles_allow.contains(
        view_channel,
    );
    let member_view_channel_denied = member_deny.contains(view_channel) && !member_allow.contains(
        view_channel,
    );
    if role_view_channel_denied || member_view_channel_denied {
        return Permissions::empty();
    }
    let send_messages = Permissions::flags(SEND_MESSAGES);
    let role_send_messages_denied = roles_deny.contains(send_messages) && !roles_allow.contains(
        send_messages,
    );
    let member_send_messages_denied = member_deny.contains(send_messages)
        && !member_allow.contains(send_messages);
    if role_send_messages_denied || member_send_messages_denied {
        let messaging = Permissions::flags(PERMISSIONS_MESSAGING);
        member_allow.remove(messaging);
        roles_allow.remove(messaging);
        permissions.remove(messaging);
    }
    permissions.remove(roles_deny);
    permissions.insert(roles_allow);
    permissions.remove(member_deny);
    permissions.insert(member_allow);
    permissions.remove(Permissions::flags(PERMISSIONS_ROOT));
    if channel_type != ChannelType::GuildText {
        permissions.remove(Permissions::flags(PERMISSIONS_TEXT));
    }
    if channel_type != ChannelType::GuildVoice {
        permissions.remove(Permissions::flags(PERMISSIONS_VOICE));
    }
    permissions
}

} // verus!
