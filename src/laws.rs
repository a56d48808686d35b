//! Facts about permission resolution, proved over the models that the calculators'
//! contracts speak of.
use crate::channel::{ChannelType, PermissionOverwrite};
use crate::permissions::{
    has_all, ADMINISTRATOR, ALL_BITS, PERMISSIONS_MESSAGING, PERMISSIONS_ROOT, PERMISSIONS_TEXT,
    PERMISSIONS_VOICE, SEND_MESSAGES, VIEW_CHANNEL,
};
use crate::resolve::{
    baseline, denied, in_channel, is_held_role_overwrite, is_member_overwrite, overwritten,
    role_fold, scan, MemberModel, MissingRole,
};
use crate::id::RoleId;
use vstd::prelude::*;

verus! {

/// Whether `flag` is exactly one flag bit.
pub open spec fn single_flag(flag: u64) -> bool {
    flag != 0 && flag & vstd::prelude::sub(flag, 1u64) == 0
}

/// Whether an overwrite of a role (other than `@everyone`) that the member holds denies
/// `flag`.
pub open spec fn role_level_denies(
    ows: Seq<PermissionOverwrite>,
    guild_id: u64,
    held: Seq<(u64, Option<u64>)>,
    flag: u64,
) -> bool {
    exists|i: int|
        0 <= i < ows.len() && is_held_role_overwrite(#[trigger] ows[i], guild_id, held) && has_all(
            ows[i].deny@,
            flag,
        )
}

/// Whether an overwrite of a role (other than `@everyone`) that the member holds allows
/// `flag`.
pub open spec fn role_level_allows(
    ows: Seq<PermissionOverwrite>,
    guild_id: u64,
    held: Seq<(u64, Option<u64>)>,
    flag: u64,
) -> bool {
    exists|i: int|
        0 <= i < ows.len() && is_held_role_overwrite(#[trigger] ows[i], guild_id, held) && has_all(
            ows[i].allow@,
            flag,
        )
}

/// Whether an overwrite of the member itself denies `flag`.
pub open spec fn member_level_denies(
    ows: Seq<PermissionOverwrite>,
    user_id: u64,
    flag: u64,
) -> bool {
    exists|i: int|
        0 <= i < ows.len() && is_member_overwrite(#[trigger] ows[i], user_id) && has_all(
            ows[i].deny@,
            flag,
        )
}

/// Whether an overwrite of the member itself allows `flag`.
pub open spec fn member_level_allows(
    ows: Seq<PermissionOverwrite>,
    user_id: u64,
    flag: u64,
) -> bool {
    exists|i: int|
        0 <= i < ows.len() && is_member_overwrite(#[trigger] ows[i], user_id) && has_all(
            ows[i].allow@,
            flag,
        )
}

/// Whether `flag` is denied on the role level with no role-level allow, or on the member
/// level with no member-level allow.
pub open spec fn denied_by_overwrites(
    ows: Seq<PermissionOverwrite>,
    guild_id: u64,
    user_id: u64,
    held: Seq<(u64, Option<u64>)>,
    flag: u64,
) -> bool {
    (role_level_denies(ows, guild_id, held, flag) && !role_level_allows(ows, guild_id, held, flag))
        || (member_level_denies(ows, user_id, flag) && !member_level_allows(ows, user_id, flag))
}

proof fn lemma_single_flag_union(a: u64, b: u64, flag: u64)
    requires
        single_flag(flag),
    ensures
        has_all(a | b, flag) <==> has_all(a, flag) || has_all(b, flag),
        !has_all(0, flag),
{
    assert(single_flag(flag) ==> (((a | b) & flag == flag) <==> (a & flag == flag || b & flag
        == flag))) by (bit_vector);
    assert(flag != 0 ==> 0u64 & flag != flag) by (bit_vector);
}

/// The role-level and member-level unions of a pass over the overwrites hold a flag exactly
/// where an overwrite of that level holds it.
proof fn lemma_scan_levels(
    base: u64,
    ows: Seq<PermissionOverwrite>,
    guild_id: u64,
    user_id: u64,
    held: Seq<(u64, Option<u64>)>,
    flag: u64,
)
    requires
        single_flag(flag),
    ensures
        has_all(scan(base, ows, guild_id, user_id, held).roles_deny, flag) <==> role_level_denies(
            ows,
            guild_id,
            held,
            flag,
        ),
        has_all(scan(base, ows, guild_id, user_id, held).roles_allow, flag) <==> role_level_allows(
            ows,
            guild_id,
            held,
            flag,
        ),
        has_all(scan(base, ows, guild_id, user_id, held).member_deny, flag)
            <==> member_level_denies(ows, user_id, flag),
        has_all(scan(base, ows, guild_id, user_id, held).member_allow, flag)
            <==> member_level_allows(ows, user_id, flag),
    decreases ows.len(),
{
    lemma_single_flag_union(0, 0, flag);
    if ows.len() > 0 {
        let prev = ows.drop_last();
        let last = ows.last();
        let n = ows.len() - 1;
        lemma_scan_levels(base, prev, guild_id, user_id, held, flag);
        let s = scan(base, prev, guild_id, user_id, held);
        lemma_single_flag_union(s.roles_deny, last.deny@, flag);
        lemma_single_flag_union(s.roles_allow, last.allow@, flag);
        lemma_single_flag_union(s.member_deny, last.deny@, flag);
        lemma_single_flag_union(s.member_allow, last.allow@, flag);
        assert(forall|i: int| 0 <= i < n ==> prev[i] == ows[i]);
        assert(ows[n] == last);
    }
}

/// `denied` on a pass over the overwrites is `denied_by_overwrites`.
proof fn lemma_denied(
    base: u64,
    ows: Seq<PermissionOverwrite>,
    guild_id: u64,
    user_id: u64,
    held: Seq<(u64, Option<u64>)>,
    flag: u64,
)
    requires
        single_flag(flag),
    ensures
        denied(scan(base, ows, guild_id, user_id, held), flag) == denied_by_overwrites(
            ows,
            guild_id,
            user_id,
            held,
            flag,
        ),
{
    lemma_scan_levels(base, ows, guild_id, user_id, held, flag);
}

proof fn lemma_named_flags()
    ensures
        single_flag(VIEW_CHANNEL),
        single_flag(SEND_MESSAGES),
        single_flag(ADMINISTRATOR),
{
    assert(single_flag(VIEW_CHANNEL)) by (bit_vector);
    assert(single_flag(SEND_MESSAGES)) by (bit_vector);
    assert(single_flag(ADMINISTRATOR)) by (bit_vector);
}

/// The guild owner has every flag on the guild level. On the channel level, its permissions
/// are those that every flag comes to under the channel's overwrites and type.
pub proof fn lemma_owner_has_every_flag(m: MemberModel, ct: ChannelType, ows: Seq<PermissionOverwrite>)
    requires
        m.is_owner,
    ensures
        baseline(m) == Ok::<u64, MissingRole>(ALL_BITS),
        in_channel(m, ct, ows) == Ok::<u64, MissingRole>(
            overwritten(ALL_BITS, ct, ows, m.guild_id, m.user_id, m.held),
        ),
{
}

/// A fold whose running set holds ADMINISTRATOR ends with every flag at the next role whose
/// data is present, unless a missing role is reported first.
proof fn lemma_fold_admin_acc(acc: u64, held: Seq<(u64, Option<u64>)>, best_effort: bool, j: int)
    requires
        has_all(acc, ADMINISTRATOR),
        0 <= j < held.len(),
        held[j].1 is Some,
        best_effort || forall|i: int| 0 <= i <= j ==> #[trigger] held[i].1 is Some,
    ensures
        role_fold(acc, held, best_effort) == Ok::<u64, MissingRole>(ALL_BITS),
    decreases j,
{
    if held[0].1 is None {
        lemma_fold_admin_acc(acc, held.drop_first(), best_effort, j - 1);
    }
}

proof fn lemma_fold_admin_role(
    acc: u64,
    held: Seq<(u64, Option<u64>)>,
    best_effort: bool,
    k: int,
    j: int,
)
    requires
        0 <= k < j < held.len(),
        held[k].1 is Some,
        has_all(held[k].1->Some_0, ADMINISTRATOR),
        held[j].1 is Some,
        best_effort || forall|i: int| 0 <= i <= j ==> #[trigger] held[i].1 is Some,
    ensures
        role_fold(acc, held, best_effort) == Ok::<u64, MissingRole>(ALL_BITS),
    decreases k,
{
    lemma_named_flags();
    let rest = held.drop_first();
    match held[0].1 {
        None => {
            lemma_fold_admin_role(acc, rest, best_effort, k - 1, j - 1);
        },
        Some(flags) => {
            if !has_all(acc, ADMINISTRATOR) {
                lemma_single_flag_union(acc, flags, ADMINISTRATOR);
                if k == 0 {
                    lemma_fold_admin_acc(acc | flags, rest, best_effort, j - 1);
                } else {
                    lemma_fold_admin_role(acc | flags, rest, best_effort, k - 1, j - 1);
                }
            }
        },
    }
}

/// ADMINISTRATOR granted by the `@everyone` role grants every flag on the guild level, once
/// a held role whose data is present is processed, where no missing role is reported before.
pub proof fn lemma_everyone_administrator(m: MemberModel, j: int)
    requires
        m.everyone is Some,
        has_all(m.everyone->Some_0, ADMINISTRATOR),
        0 <= j < m.held.len(),
        m.held[j].1 is Some,
        m.best_effort || forall|i: int| 0 <= i <= j ==> #[trigger] m.held[i].1 is Some,
    ensures
        baseline(m) == Ok::<u64, MissingRole>(ALL_BITS),
{
    if !m.is_owner {
        lemma_fold_admin_acc(m.everyone->Some_0, m.held, m.best_effort, j);
    }
}

/// ADMINISTRATOR granted by a held role grants every flag on the guild level, once a later
/// held role whose data is present is processed, where no missing item is reported before.
pub proof fn lemma_role_administrator(m: MemberModel, k: int, j: int)
    requires
        m.everyone is Some || m.best_effort,
        0 <= k < j < m.held.len(),
        m.held[k].1 is Some,
        has_all(m.held[k].1->Some_0, ADMINISTRATOR),
        m.held[j].1 is Some,
        m.best_effort || forall|i: int| 0 <= i <= j ==> #[trigger] m.held[i].1 is Some,
    ensures
        baseline(m) == Ok::<u64, MissingRole>(ALL_BITS),
{
    if !m.is_owner {
        let acc = match m.everyone {
            Some(flags) => flags,
            None => 0,
        };
        lemma_fold_admin_role(acc, m.held, m.best_effort, k, j);
    }
}

/// Without best-effort mode, a missing `@everyone` role is reported, unless the member owns
/// the guild.
pub proof fn lemma_everyone_missing(m: MemberModel, ct: ChannelType, ows: Seq<PermissionOverwrite>)
    requires
        !m.is_owner,
        !m.best_effort,
        m.everyone is None,
    ensures
        baseline(m) == Err::<u64, MissingRole>(MissingRole::Everyone),
        in_channel(m, ct, ows) == Err::<u64, MissingRole>(MissingRole::Everyone),
{
}

proof fn lemma_fold_missing(acc: u64, held: Seq<(u64, Option<u64>)>, k: int)
    requires
        0 <= k < held.len(),
        held[k].1 is None,
        forall|i: int| 0 <= i < k ==> #[trigger] held[i].1 is Some,
        k == 0 || !has_all(acc, ADMINISTRATOR),
        forall|i: int| 0 <= i < k - 1 ==> !has_all(#[trigger] held[i].1->Some_0, ADMINISTRATOR),
    ensures
        role_fold(acc, held, false) == Err::<u64, MissingRole>(
            MissingRole::Role(RoleId(held[k].0)),
        ),
    decreases k,
{
    if k > 0 {
        lemma_named_flags();
        let flags = held[0].1->Some_0;
        let rest = held.drop_first();
        assert(held[0].1 is Some);
        lemma_single_flag_union(acc, flags, ADMINISTRATOR);
        if k > 1 {
            assert(!has_all(held[0].1->Some_0, ADMINISTRATOR));
        }
        assert forall|i: int| 0 <= i < k - 1 implies #[trigger] rest[i].1 is Some by {
            assert(held[i + 1].1 is Some);
        }
        assert forall|i: int| 0 <= i < k - 2 implies !has_all(
            #[trigger] rest[i].1->Some_0,
            ADMINISTRATOR,
        ) by {
            assert(!has_all(held[i + 1].1->Some_0, ADMINISTRATOR));
        }
        lemma_fold_missing(acc | flags, rest, k - 1);
    }
}

/// Without best-effort mode, the first held role whose data is missing is reported, unless
/// the member owns the guild or the ADMINISTRATOR check has already granted every flag: that
/// check, made before each present role is added, sees the `@everyone` role and the roles
/// before the one just before the missing one.
pub proof fn lemma_role_missing(
    m: MemberModel,
    ct: ChannelType,
    ows: Seq<PermissionOverwrite>,
    k: int,
)
    requires
        !m.is_owner,
        !m.best_effort,
        m.everyone is Some,
        0 <= k < m.held.len(),
        m.held[k].1 is None,
        forall|i: int| 0 <= i < k ==> #[trigger] m.held[i].1 is Some,
        k == 0 || !has_all(m.everyone->Some_0, ADMINISTRATOR),
        forall|i: int| 0 <= i < k - 1 ==> !has_all(#[trigger] m.held[i].1->Some_0, ADMINISTRATOR),
    ensures
        baseline(m) == Err::<u64, MissingRole>(MissingRole::Role(RoleId(m.held[k].0))),
        in_channel(m, ct, ows) == Err::<u64, MissingRole>(MissingRole::Role(RoleId(m.held[k].0))),
{
    lemma_fold_missing(m.everyone->Some_0, m.held, k);
}

/// The held roles whose data is present, in order.
pub open spec fn present_roles(held: Seq<(u64, Option<u64>)>) -> Seq<(u64, Option<u64>)>
    decreases held.len(),
{
    if held.len() == 0 {
        held
    } else if held[0].1 is Some {
        seq![held[0]] + present_roles(held.drop_first())
    } else {
        present_roles(held.drop_first())
    }
}

proof fn lemma_present_roles(held: Seq<(u64, Option<u64>)>)
    ensures
        forall|i: int|
            0 <= i < present_roles(held).len() ==> #[trigger] present_roles(held)[i].1 is Some,
    decreases held.len(),
{
    if held.len() > 0 {
        lemma_present_roles(held.drop_first());
    }
}

/// A fold that only meets present roles succeeds.
proof fn lemma_fold_present_ok(acc: u64, held: Seq<(u64, Option<u64>)>, best_effort: bool)
    requires
        best_effort || forall|i: int| 0 <= i < held.len() ==> #[trigger] held[i].1 is Some,
    ensures
        role_fold(acc, held, best_effort) is Ok,
    decreases held.len(),
{
    if held.len() > 0 {
        let rest = held.drop_first();
        assert forall|i: int| 0 <= i < rest.len() implies best_effort
            || #[trigger] rest[i].1 is Some by {
            if !best_effort {
                assert(held[i + 1].1 is Some);
            }
        }
        match held[0].1 {
            None => lemma_fold_present_ok(acc, rest, best_effort),
            Some(flags) => lemma_fold_present_ok(acc | flags, rest, best_effort),
        }
    }
}

proof fn lemma_fold_best_effort(acc: u64, held: Seq<(u64, Option<u64>)>)
    ensures
        role_fold(acc, held, true) == role_fold(acc, present_roles(held), false),
    decreases held.len(),
{
    if held.len() > 0 {
        let rest = held.drop_first();
        if held[0].1 is Some {
            let p = seq![held[0]] + present_roles(rest);
            assert(p[0] == held[0]);
            assert(p.drop_first() =~= present_roles(rest));
            lemma_fold_best_effort(acc | held[0].1->Some_0, rest);
        }
        lemma_fold_best_effort(acc, rest);
    }
}

/// Where every held role's data is present, and the `@everyone` role's too or best-effort
/// mode is on, the calculation succeeds.
pub proof fn lemma_present_data_succeeds(
    m: MemberModel,
    ct: ChannelType,
    ows: Seq<PermissionOverwrite>,
)
    requires
        m.everyone is Some || m.best_effort,
        forall|i: int| 0 <= i < m.held.len() ==> #[trigger] m.held[i].1 is Some,
    ensures
        baseline(m) is Ok,
        in_channel(m, ct, ows) is Ok,
{
    let acc = match m.everyone {
        Some(flags) => flags,
        None => 0,
    };
    lemma_fold_present_ok(acc, m.held, m.best_effort);
}

/// In best-effort mode the calculation never fails: a missing `@everyone` role counts as one
/// with no flag, and a missing held role is passed over, so the result is that of the strict
/// calculation over the data that is present.
pub proof fn lemma_best_effort(m: MemberModel, ct: ChannelType, ows: Seq<PermissionOverwrite>)
    requires
        m.best_effort,
    ensures
        baseline(m) is Ok,
        in_channel(m, ct, ows) is Ok,
        baseline(m) == baseline(
            MemberModel {
                best_effort: false,
                everyone: Some(
                    match m.everyone {
                        Some(flags) => flags,
                        None => 0u64,
                    },
                ),
                held: present_roles(m.held),
                ..m
            },
        ),
{
    let acc = match m.everyone {
        Some(flags) => flags,
        None => 0,
    };
    lemma_fold_present_ok(acc, m.held, true);
    lemma_fold_best_effort(acc, m.held);
}

/// Where View Channel is denied on the role level without a role-level allow, or on the
/// member level without a member-level allow, the member has no flag in the channel.
pub proof fn lemma_view_channel_denied(
    base: u64,
    ct: ChannelType,
    ows: Seq<PermissionOverwrite>,
    guild_id: u64,
    user_id: u64,
    held: Seq<(u64, Option<u64>)>,
)
    requires
        denied_by_overwrites(ows, guild_id, user_id, held, VIEW_CHANNEL),
    ensures
        overwritten(base, ct, ows, guild_id, user_id, held) == 0,
{
    lemma_named_flags();
    lemma_denied(base, ows, guild_id, user_id, held, VIEW_CHANNEL);
}

/// Where Send Messages is denied on the role level without a role-level allow, or on the
/// member level without a member-level allow, none of the flags that depend on it remain,
/// whatever the baseline and the overwrites allow.
pub proof fn lemma_send_messages_denied(
    base: u64,
    ct: ChannelType,
    ows: Seq<PermissionOverwrite>,
    guild_id: u64,
    user_id: u64,
    held: Seq<(u64, Option<u64>)>,
)
    requires
        denied_by_overwrites(ows, guild_id, user_id, held, SEND_MESSAGES),
    ensures
        overwritten(base, ct, ows, guild_id, user_id, held) & PERMISSIONS_MESSAGING == 0,
{
    lemma_named_flags();
    lemma_denied(base, ows, guild_id, user_id, held, SEND_MESSAGES);
    let s = scan(base, ows, guild_id, user_id, held);
    let (x, ra, ma) = (s.permissions, s.roles_allow, s.member_allow);
    let (rd, md) = (s.roles_deny, s.member_deny);
    assert((((((x & !PERMISSIONS_MESSAGING) & !rd) | (ra & !PERMISSIONS_MESSAGING)) & !md) | (ma
        & !PERMISSIONS_MESSAGING)) & PERMISSIONS_MESSAGING == 0) by (bit_vector);
    assert(0u64 & PERMISSIONS_MESSAGING == 0) by (bit_vector);
    assert(forall|y: u64, t: u64|
        y & PERMISSIONS_MESSAGING == 0 ==> #[trigger] ((y & !t) & PERMISSIONS_MESSAGING) == 0)
        by (bit_vector);
}

/// Guild-only flags never remain on the channel level.
pub proof fn lemma_guild_only_flags_dropped(
    base: u64,
    ct: ChannelType,
    ows: Seq<PermissionOverwrite>,
    guild_id: u64,
    user_id: u64,
    held: Seq<(u64, Option<u64>)>,
)
    ensures
        overwritten(base, ct, ows, guild_id, user_id, held) & PERMISSIONS_ROOT == 0,
{
    assert(0u64 & PERMISSIONS_ROOT == 0) by (bit_vector);
    assert(forall|y: u64| #[trigger] ((y & !PERMISSIONS_ROOT) & PERMISSIONS_ROOT) == 0)
        by (bit_vector);
    assert(forall|y: u64, t: u64|
        y & PERMISSIONS_ROOT == 0 ==> #[trigger] ((y & !t) & PERMISSIONS_ROOT) == 0)
        by (bit_vector);
}

/// A text channel keeps no voice flag, a voice channel no text flag, and any other channel
/// neither.
pub proof fn lemma_channel_type_filter(
    base: u64,
    ct: ChannelType,
    ows: Seq<PermissionOverwrite>,
    guild_id: u64,
    user_id: u64,
    held: Seq<(u64, Option<u64>)>,
)
    ensures
        ct != ChannelType::GuildVoice ==> overwritten(base, ct, ows, guild_id, user_id, held)
            & PERMISSIONS_VOICE == 0,
        ct != ChannelType::GuildText ==> overwritten(base, ct, ows, guild_id, user_id, held)
            & PERMISSIONS_TEXT == 0,
{
    assert(0u64 & PERMISSIONS_VOICE == 0) by (bit_vector);
    assert(0u64 & PERMISSIONS_TEXT == 0) by (bit_vector);
    assert(forall|y: u64| #[trigger] ((y & !PERMISSIONS_VOICE) & PERMISSIONS_VOICE) == 0)
        by (bit_vector);
    assert(forall|y: u64| #[trigger] ((y & !PERMISSIONS_TEXT) & PERMISSIONS_TEXT) == 0)
        by (bit_vector);
    assert(forall|y: u64, t: u64|
        y & PERMISSIONS_TEXT == 0 ==> #[trigger] ((y & !t) & PERMISSIONS_TEXT) == 0)
        by (bit_vector);
}

/// A flag that an overwrite of the member allows remains in the channel, whatever the
/// role-level overwrites deny, unless the member cannot view the channel, the flag is
/// guild-only or has no meaning in the channel, or it depends on Send Messages and that is
/// denied.
pub proof fn lemma_member_allow_wins(
    base: u64,
    ct: ChannelType,
    ows: Seq<PermissionOverwrite>,
    guild_id: u64,
    user_id: u64,
    held: Seq<(u64, Option<u64>)>,
    flag: u64,
)
    requires
        single_flag(flag),
        member_level_allows(ows, user_id, flag),
        !denied_by_overwrites(ows, guild_id, user_id, held, VIEW_CHANNEL),
        flag & PERMISSIONS_ROOT == 0,
        ct != ChannelType::GuildText ==> flag & PERMISSIONS_TEXT == 0,
        ct != ChannelType::GuildVoice ==> flag & PERMISSIONS_VOICE == 0,
        denied_by_overwrites(ows, guild_id, user_id, held, SEND_MESSAGES) ==> flag
            & PERMISSIONS_MESSAGING == 0,
    ensures
        has_all(overwritten(base, ct, ows, guild_id, user_id, held), flag),
{
    lemma_named_flags();
    lemma_denied(base, ows, guild_id, user_id, held, VIEW_CHANNEL);
    lemma_denied(base, ows, guild_id, user_id, held, SEND_MESSAGES);
    lemma_scan_levels(base, ows, guild_id, user_id, held, flag);
    let ma = scan(base, ows, guild_id, user_id, held).member_allow;
    assert(ma & flag == flag && flag & PERMISSIONS_MESSAGING == 0 ==> (ma & !PERMISSIONS_MESSAGING)
        & flag == flag) by (bit_vector);
    assert(forall|y: u64, z: u64| z & flag == flag ==> #[trigger] ((y | z) & flag) == flag)
        by (bit_vector);
    assert(forall|y: u64, t: u64|
        y & flag == flag && flag & t == 0 ==> #[trigger] ((y & !t) & flag) == flag) by (bit_vector);
}

/// A flag that an overwrite of the member denies, and that no overwrite of the member
/// allows, does not remain in the channel, whatever the role-level overwrites allow.
pub proof fn lemma_member_deny_wins(
    base: u64,
    ct: ChannelType,
    ows: Seq<PermissionOverwrite>,
    guild_id: u64,
    user_id: u64,
    held: Seq<(u64, Option<u64>)>,
    flag: u64,
)
    requires
        single_flag(flag),
        member_level_denies(ows, user_id, flag),
        !member_level_allows(ows, user_id, flag),
    ensures
        !has_all(overwritten(base, ct, ows, guild_id, user_id, held), flag),
{
    lemma_scan_levels(base, ows, guild_id, user_id, held, flag);
    lemma_single_flag_union(0, 0, flag);
    let s = scan(base, ows, guild_id, user_id, held);
    let (md, ma) = (s.member_deny, s.member_allow);
    assert(ma & flag != flag ==> ma & flag == 0) by (bit_vector)
        requires
            single_flag(flag),
    ;
    assert(forall|y: u64, z: u64|
        md & flag == flag && z & flag == 0 ==> #[trigger] (((y & !md) | z) & flag) == 0)
        by (bit_vector);
    assert(forall|y: u64, t: u64| y & flag == 0 ==> #[trigger] ((y & !t) & flag) == 0)
        by (bit_vector);
    assert(ma & flag == 0 ==> (ma & !PERMISSIONS_MESSAGING) & flag == 0) by (bit_vector);
    assert(flag != 0 ==> 0u64 & flag != flag) by (bit_vector);
    assert(flag != 0 ==> forall|y: u64| y & flag == 0 ==> #[trigger] (y & flag) != flag)
        by (bit_vector);
}

} // verus!
