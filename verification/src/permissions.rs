//! Guild permissions: a set of bits granted by a member's roles and adjusted,
//! channel by channel, by overrides that allow or deny bits for a role or a member.
use vstd::prelude::*;
use crate::error::AppError;
use vstd::string::*;

verus! {

/// The bit that lets a member create invites to the guild.
pub const CREATE_INVITE: i64 = 1;

/// The bit that lets a member remove other members from the guild.
pub const KICK_MEMBERS: i64 = 2;

/// The bit that lets a member ban and unban others.
pub const BAN_MEMBERS: i64 = 4;

/// The bit that grants every permission in every channel.
pub const ADMINISTRATOR: i64 = 8;

/// The bit that lets a member create, change and remove channels and categories.
pub const MANAGE_CHANNELS: i64 = 16;

/// A set of permission bits.
#[derive(Clone, Copy, PartialEq, Eq, Structural, Debug)]
pub struct Permissions(pub i64);

/// Whom a permission override addresses.
#[derive(Clone, Copy, PartialEq, Eq, Structural, Debug)]
pub enum OverrideTarget {
    Role,
    Member,
}

/// Bits that an override grants (`allow`) and withdraws (`deny`) for its target.
#[derive(Clone, Copy, PartialEq, Eq, Structural, Debug)]
pub struct PermissionOverride {
    pub target: OverrideTarget,
    pub allow: i64,
    pub deny: i64,
}

/// `p` holds every bit of `q`.
pub open spec fn spec_contains(p: i64, q: i64) -> bool {
    p & q == q
}

/// `p` after withdrawing the bits of `deny` and granting those of `allow`.
pub open spec fn spec_apply_override(p: i64, allow: i64, deny: i64) -> i64 {
    (p & !deny) | allow
}

/// The union of the bits of all the roles in `roles`.
pub open spec fn spec_base_permissions(roles: Seq<i64>) -> i64
    decreases roles.len(),
{
    if roles.len() == 0 {
        0
    } else {
        spec_base_permissions(roles.drop_last()) | roles.last()
    }
}

/// `p` after applying, in their order, the overrides of `ovs` that address `target`.
pub open spec fn spec_apply_overrides(p: i64, ovs: Seq<PermissionOverride>, target: OverrideTarget) -> i64
    decreases ovs.len(),
{
    if ovs.len() == 0 {
        p
    } else {
        let prev = spec_apply_overrides(p, ovs.drop_last(), target);
        if ovs.last().target == target {
            spec_apply_override(prev, ovs.last().allow, ovs.last().deny)
        } else {
            prev
        }
    }
}

/// The permissions of a member in a channel: the union of their roles' bits, then
/// the role overrides and then the member overrides of the channel's category, then
/// the role overrides and then the member overrides of the channel itself.
pub open spec fn spec_channel_permissions(
    roles: Seq<i64>,
    category_overrides: Seq<PermissionOverride>,
    channel_overrides: Seq<PermissionOverride>,
) -> i64 {
    let base = spec_base_permissions(roles);
    let p1 = spec_apply_overrides(base, category_overrides, OverrideTarget::Role);
    let p2 = spec_apply_overrides(p1, category_overrides, OverrideTarget::Member);
    let p3 = spec_apply_overrides(p2, channel_overrides, OverrideTarget::Role);
    spec_apply_overrides(p3, channel_overrides, OverrideTarget::Member)
}

/// A member may act in a channel if their roles make them an administrator, or
/// if their permissions in the channel hold every bit that the action needs.
pub open spec fn spec_channel_access(
    roles: Seq<i64>,
    category_overrides: Seq<PermissionOverride>,
    channel_overrides: Seq<PermissionOverride>,
    needed: i64,
) -> bool {
    spec_contains(spec_base_permissions(roles), ADMINISTRATOR)
        || spec_contains(
        spec_channel_permissions(roles, category_overrides, channel_overrides),
        needed,
    )
}

impl Permissions {
    /// The set that holds no bit.
    pub fn empty() -> (r: Permissions)
        ensures
            r.0 == 0,
    {
        Permissions(0)
    }

    /// Whether this set holds every bit of `other`.
    pub fn contains(&self, other: Permissions) -> (r: bool)
        ensures
            r == spec_contains(self.0, other.0),
    {
        self.0 & other.0 == other.0
    }

    /// This set after withdrawing the bits of `deny` and granting those of `allow`.
    pub fn apply_override(&self, allow: i64, deny: i64) -> (r: Permissions)
        ensures
            r.0 == spec_apply_override(self.0, allow, deny),
    {
        Permissions((self.0 & !deny) | allow)
    }

    /// The union of the bits of the roles whose permissions are `role_permissions`.
    pub fn compute_base_permissions(role_permissions: &Vec<i64>) -> (r: Permissions)
        ensures
            r.0 == spec_base_permissions(role_permissions@),
    {
        let mut acc: i64 = 0;
        let mut i: usize = 0;
        while i < role_permissions.len()
            invariant
                i <= role_permissions.len(),
                acc == spec_base_permissions(role_permissions@.take(i as int)),
            decreases role_permissions.len() - i,
        {
            assert(role_permissions@.take(i + 1).drop_last() =~= role_permissions@.take(i as int));
            acc = acc | role_permissions[i];
            i = i + 1;
        }
        assert(role_permissions@.take(i as int) =~= role_permissions@);
        Permissions(acc)
    }
}

/// `p` after applying, in order, the overrides of `ovs` that address `target`.
pub fn apply_overrides(p: Permissions, ovs: &Vec<PermissionOverride>, target: OverrideTarget) -> (r: Permissions)
    ensures
        r.0 == spec_apply_overrides(p.0, ovs@, target),
{
    let mut acc = p;
    let mut i: usize = 0;
    while i < ovs.len()
        invariant
            i <= ovs.len(),
            acc.0 == spec_apply_overrides(p.0, ovs@.take(i as int), target),
        decreases ovs.len() - i,
    {
        assert(ovs@.take(i + 1).drop_last() =~= ovs@.take(i as int));
        let ov = ovs[i];
        if ov.target == target {
            acc = acc.apply_override(ov.allow, ov.deny);
        }
        i = i + 1;
    }
    assert(ovs@.take(i as int) =~= ovs@);
    acc
}

/// The permissions of a member in a channel (see `spec_channel_permissions`).
pub fn channel_permissions(
    role_permissions: &Vec<i64>,
    category_overrides: &Vec<PermissionOverride>,
    channel_overrides: &Vec<PermissionOverride>,
) -> (r: Permissions)
    ensures
        r.0 == spec_channel_permissions(role_permissions@, category_overrides@, channel_overrides@),
{
    let base = Permissions::compute_base_permissions(role_permissions);
    let p1 = apply_overrides(base, category_overrides, OverrideTarget::Role);
    let p2 = apply_overrides(p1, category_overrides, OverrideTarget::Member);
    let p3 = apply_overrides(p2, channel_overrides, OverrideTarget::Role);
    apply_overrides(p3, channel_overrides, OverrideTarget::Member)
}

/// Whether a member whose roles grant `role_permissions` may take an action that
/// needs `permission` in a channel with the given overrides (those of its category,
/// empty where it has none, and its own), each addressing the member or one of
/// their roles. An administrator may do anything; otherwise the member is refused
/// with `Forbidden` unless their permissions in the channel hold the needed bits.
pub fn decide_channel_permission(
    role_permissions: &Vec<i64>,
    category_overrides: &Vec<PermissionOverride>,
    channel_overrides: &Vec<PermissionOverride>,
    permission: Permissions,
) -> (r: Result<(), AppError>)
    ensures
        r is Ok <==> spec_channel_access(
            role_permissions@,
            category_overrides@,
            channel_overrides@,
            permission.0,
        ),
        r matches Err(e) ==> e matches AppError::Forbidden(m) && m@
            == "Insufficient permissions in this channel"@,
{
    let base = Permissions::compute_base_permissions(role_permissions);
    if base.contains(Permissions(ADMINISTRATOR)) {
        return Ok(());
    }
    let current = channel_permissions(role_permissions, category_overrides, channel_overrides);
    if !current.contains(permission) {
        return Err(AppError::Forbidden(String::from_str("Insufficient permissions in this channel")));
    }
    Ok(())
}

/// Whether a member whose roles grant `role_permissions` holds `permission` in the
/// guild; they are refused with `Forbidden` otherwise. Overrides play no part here.
pub fn decide_guild_permission(role_permissions: &Vec<i64>, permission: Permissions) -> (r: Result<(), AppError>)
    ensures
        r is Ok <==> spec_contains(spec_base_permissions(role_permissions@), permission.0),
        r matches Err(e) ==> e matches AppError::Forbidden(m) && m@ == "Insufficient permissions"@,
{
    if !Permissions::compute_base_permissions(role_permissions).contains(permission) {
        return Err(AppError::Forbidden(String::from_str("Insufficient permissions")));
    }
    Ok(())
}

/// The membership that a permission check needs: a user who is not a member of
/// the guild is refused with `Forbidden`.
pub fn require_membership(member_id: Option<u128>) -> (r: Result<u128, AppError>)
    ensures
        match member_id {
            Some(id) => r == Ok::<u128, AppError>(id),
            None => r matches Err(AppError::Forbidden(m)) && m@ == "Not a member of this server"@,
        },
{
    match member_id {
        Some(id) => Ok(id),
        None => Err(AppError::Forbidden(String::from_str("Not a member of this server"))),
    }
}

/// An override grants every bit it allows, withdraws every bit it denies without
/// allowing, and leaves every other bit as it was.
pub proof fn law_override_allow_wins_deny_removes(p: i64, allow: i64, deny: i64)
    ensures
        spec_contains(spec_apply_override(p, allow, deny), allow),
        spec_apply_override(p, allow, deny) & (deny & !allow) == 0,
        spec_apply_override(p, allow, deny) & !(allow | deny) == p & !(allow | deny),
{
    assert(((p & !deny) | allow) & allow == allow) by (bit_vector);
    assert(((p & !deny) | allow) & (deny & !allow) == 0) by (bit_vector);
    assert(((p & !deny) | allow) & !(allow | deny) == p & !(allow | deny)) by (bit_vector);
}

/// Adding a role never takes a permission away: the base permissions of a member
/// hold those of every role they have.
pub proof fn law_base_permissions_hold_every_role(roles: Seq<i64>, i: int)
    requires
        0 <= i < roles.len(),
    ensures
        spec_contains(spec_base_permissions(roles), roles[i]),
    decreases roles.len(),
{
    let prev = spec_base_permissions(roles.drop_last());
    let last = roles.last();
    if i == roles.len() - 1 {
        assert((prev | last) & last == last) by (bit_vector);
    } else {
        law_base_permissions_hold_every_role(roles.drop_last(), i);
        assert(roles.drop_last()[i] == roles[i]);
        let x = roles[i];
        assert(prev & x == x ==> (prev | last) & x == x) by (bit_vector);
    }
}

/// An administrator may take any action in any channel, whatever its overrides.
pub proof fn law_administrator_may_do_anything(
    roles: Seq<i64>,
    category_overrides: Seq<PermissionOverride>,
    channel_overrides: Seq<PermissionOverride>,
    needed: i64,
)
    requires
        spec_contains(spec_base_permissions(roles), ADMINISTRATOR),
    ensures
        spec_channel_access(roles, category_overrides, channel_overrides, needed),
{
}

/// The member's own override on the channel comes last: where the last override of
/// the channel addresses the member and allows the needed bits, access is granted,
/// and where it denies one of them without allowing it, only an administrator passes.
pub proof fn law_member_channel_override_decides_last(
    roles: Seq<i64>,
    category_overrides: Seq<PermissionOverride>,
    channel_overrides: Seq<PermissionOverride>,
    needed: i64,
)
    requires
        channel_overrides.len() > 0,
        channel_overrides.last().target == OverrideTarget::Member,
    ensures
        spec_contains(channel_overrides.last().allow, needed) ==> spec_channel_access(
            roles,
            category_overrides,
            channel_overrides,
            needed,
        ),
        (needed & channel_overrides.last().deny & !channel_overrides.last().allow) != 0
            ==> (spec_channel_access(roles, category_overrides, channel_overrides, needed)
            <==> spec_contains(spec_base_permissions(roles), ADMINISTRATOR)),
{
    let ov = channel_overrides.last();
    let base = spec_base_permissions(roles);
    let p1 = spec_apply_overrides(base, category_overrides, OverrideTarget::Role);
    let p2 = spec_apply_overrides(p1, category_overrides, OverrideTarget::Member);
    let p3 = spec_apply_overrides(p2, channel_overrides, OverrideTarget::Role);
    let prev = spec_apply_overrides(p3, channel_overrides.drop_last(), OverrideTarget::Member);
    let fin = spec_channel_permissions(roles, category_overrides, channel_overrides);
    assert(fin == spec_apply_override(prev, ov.allow, ov.deny));
    let a = ov.allow;
    let d = ov.deny;
    assert(a & needed == needed ==> ((prev & !d) | a) & needed == needed) by (bit_vector);
    assert((needed & d & !a) != 0 ==> ((prev & !d) | a) & needed != needed) by (bit_vector);
}

/// The channel's category counts: in a channel without overrides of its own, where
/// the category's last override addresses the member, the member holds every bit it
/// allows and none that it denies without allowing, so a non-administrator who needs
/// such a denied bit is refused.
pub proof fn law_category_member_override_reaches_plain_channel(
    roles: Seq<i64>,
    category_overrides: Seq<PermissionOverride>,
    needed: i64,
)
    requires
        category_overrides.len() > 0,
        category_overrides.last().target == OverrideTarget::Member,
    ensures
        spec_contains(
            spec_channel_permissions(roles, category_overrides, Seq::empty()),
            category_overrides.last().allow,
        ),
        spec_channel_permissions(roles, category_overrides, Seq::empty()) & (
        category_overrides.last().deny & !category_overrides.last().allow) == 0,
        (needed & category_overrides.last().deny & !category_overrides.last().allow) != 0
            && !spec_contains(spec_base_permissions(roles), ADMINISTRATOR) ==> !spec_channel_access(
            roles,
            category_overrides,
            Seq::empty(),
            needed,
        ),
{
    let ov = category_overrides.last();
    let base = spec_base_permissions(roles);
    let p1 = spec_apply_overrides(base, category_overrides, OverrideTarget::Role);
    let prev = spec_apply_overrides(p1, category_overrides.drop_last(), OverrideTarget::Member);
    let p2 = spec_apply_overrides(p1, category_overrides, OverrideTarget::Member);
    assert(p2 == spec_apply_override(prev, ov.allow, ov.deny));
    let none = Seq::<PermissionOverride>::empty();
    assert(spec_apply_overrides(p2, none, OverrideTarget::Role) == p2);
    assert(spec_apply_overrides(p2, none, OverrideTarget::Member) == p2);
    assert(spec_channel_permissions(roles, category_overrides, none) == p2);
    let a = ov.allow;
    let d = ov.deny;
    assert(((prev & !d) | a) & a == a) by (bit_vector);
    assert(((prev & !d) | a) & (d & !a) == 0) by (bit_vector);
    assert((needed & d & !a) != 0 ==> ((prev & !d) | a) & needed != needed) by (bit_vector);
}

} // verus!
