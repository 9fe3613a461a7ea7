//! Effective roles and permissions of a user, from the role tables.
//!
//! The roles of a user are the role stored on the account and the roles
//! assigned to it. Its permissions are those that any role of that code
//! grants, then those that an override allows, less those that an override
//! denies: a denial wins over every grant.

use vstd::prelude::*;
use crate::entity::enums::user_role::UserRole;
use crate::entity::{permissions, role_permissions, roles, user_permission_overrides, user_roles};
use vstd::string::StringExecFns;
use crate::utils::code_set::{ascending, texts, CodeSet};
use crate::utils::text::copy_opt;

verus! {

/// The rows that decide what a user may do.
#[derive(Debug)]
pub struct AccessTables {
    pub roles: Vec<roles::Model>,
    pub permissions: Vec<permissions::Model>,
    pub role_permissions: Vec<role_permissions::Model>,
    pub user_roles: Vec<user_roles::Model>,
    pub overrides: Vec<user_permission_overrides::Model>,
}

/// Two sets of tables hold the same rows.
pub open spec fn alike(a: AccessTables, b: AccessTables) -> bool {
    &&& a.roles@.len() == b.roles@.len()
    &&& forall|k: int|
        0 <= k < a.roles@.len() ==> (#[trigger] a.roles@[k]).id == b.roles@[k].id
            && a.roles@[k].code@ == b.roles@[k].code@
    &&& a.permissions@.len() == b.permissions@.len()
    &&& forall|k: int|
        0 <= k < a.permissions@.len() ==> (#[trigger] a.permissions@[k]).id
            == b.permissions@[k].id && a.permissions@[k].code@ == b.permissions@[k].code@
    &&& a.role_permissions@ == b.role_permissions@
    &&& a.user_roles@ == b.user_roles@
    &&& a.overrides@ == b.overrides@
}

impl AccessTables {
    /// Tables without a row.
    pub fn new() -> (r: AccessTables)
        ensures
            r.roles@.len() == 0,
            r.permissions@.len() == 0,
            r.role_permissions@.len() == 0,
            r.user_roles@.len() == 0,
            r.overrides@.len() == 0,
    {
        AccessTables {
            roles: Vec::new(),
            permissions: Vec::new(),
            role_permissions: Vec::new(),
            user_roles: Vec::new(),
            overrides: Vec::new(),
        }
    }

    /// A copy of the tables, row for row.
    pub fn duplicate(&self) -> (r: AccessTables)
        ensures
            alike(*self, r),
    {
        let mut role_rows: Vec<roles::Model> = Vec::new();
        let mut i: usize = 0;
        while i < self.roles.len()
            invariant
                i <= self.roles.len(),
                role_rows@.len() == i,
                forall|k: int|
                    0 <= k < i ==> (#[trigger] self.roles@[k]).id == role_rows@[k].id
                        && self.roles@[k].code@ == role_rows@[k].code@,
            decreases self.roles.len() - i,
        {
            role_rows.push(
                roles::Model {
                    id: self.roles[i].id,
                    code: self.roles[i].code.clone(),
                    description: copy_opt(&self.roles[i].description),
                    priority: self.roles[i].priority,
                    created_at: self.roles[i].created_at,
                    updated_at: self.roles[i].updated_at,
                },
            );
            i = i + 1;
        }
        let mut permission_rows: Vec<permissions::Model> = Vec::new();
        let mut j: usize = 0;
        while j < self.permissions.len()
            invariant
                j <= self.permissions.len(),
                permission_rows@.len() == j,
                forall|k: int|
                    0 <= k < j ==> (#[trigger] self.permissions@[k]).id == permission_rows@[k].id
                        && self.permissions@[k].code@ == permission_rows@[k].code@,
            decreases self.permissions.len() - j,
        {
            permission_rows.push(
                permissions::Model {
                    id: self.permissions[j].id,
                    code: self.permissions[j].code.clone(),
                    description: copy_opt(&self.permissions[j].description),
                    created_at: self.permissions[j].created_at,
                    updated_at: self.permissions[j].updated_at,
                },
            );
            j = j + 1;
        }
        AccessTables {
            roles: role_rows,
            permissions: permission_rows,
            role_permissions: copy_rows(&self.role_permissions),
            user_roles: copy_rows(&self.user_roles),
            overrides: copy_rows(&self.overrides),
        }
    }
}

/// A copy of rows that hold numbers and flags only.
fn copy_rows<T: Copy>(rows: &Vec<T>) -> (r: Vec<T>)
    ensures
        r@ == rows@,
{
    let mut out: Vec<T> = Vec::new();
    let mut i: usize = 0;
    while i < rows.len()
        invariant
            i <= rows.len(),
            out@ == rows@.take(i as int),
        decreases rows.len() - i,
    {
        out.push(rows[i]);
        assert(out@ =~= rows@.take(i + 1));
        i = i + 1;
    }
    assert(rows@.take(rows@.len() as int) =~= rows@);
    out
}

/// What the first `n` rows that `keep` accepts yield under `key`.
pub open spec fn picked<R, K>(
    rows: Seq<R>,
    keep: spec_fn(R) -> bool,
    key: spec_fn(R) -> K,
    n: int,
) -> Set<K> {
    Set::new(
        |x: K| exists|k: int| 0 <= k < n && k < rows.len() && keep(#[trigger] rows[k]) && key(rows[k]) == x,
    )
}

/// No row, nothing picked.
pub proof fn lemma_picked_none<R, K>(rows: Seq<R>, keep: spec_fn(R) -> bool, key: spec_fn(R) -> K)
    ensures
        picked(rows, keep, key, 0) == Set::<K>::empty(),
{
    assert(picked(rows, keep, key, 0) =~= Set::<K>::empty());
}

/// One more row adds its key where `keep` accepts it, and nothing else.
pub proof fn lemma_picked_step<R, K>(
    rows: Seq<R>,
    keep: spec_fn(R) -> bool,
    key: spec_fn(R) -> K,
    n: int,
)
    requires
        0 <= n < rows.len(),
    ensures
        keep(rows[n]) ==> picked(rows, keep, key, n + 1) == picked(rows, keep, key, n).insert(
            key(rows[n]),
        ),
        !keep(rows[n]) ==> picked(rows, keep, key, n + 1) == picked(rows, keep, key, n),
{
    let small = picked(rows, keep, key, n);
    let large = picked(rows, keep, key, n + 1);
    let target = if keep(rows[n]) { small.insert(key(rows[n])) } else { small };
    assert forall|x: K| #[trigger] large.contains(x) implies target.contains(x) by {
        let k = choose|k: int|
            0 <= k < n + 1 && k < rows.len() && keep(#[trigger] rows[k]) && key(rows[k]) == x;
        if k < n {
            assert(small.contains(x));
        }
    }
    assert forall|x: K| #[trigger] target.contains(x) implies large.contains(x) by {
        if small.contains(x) {
            let k = choose|k: int|
                0 <= k < n && k < rows.len() && keep(#[trigger] rows[k]) && key(rows[k]) == x;
            assert(0 <= k < n + 1);
        } else {
            assert(keep(rows[n]) && key(rows[n]) == x);
        }
    }
    assert(large =~= target);
}

/// Rows that agree on what is kept and on the keys yield the same.
pub proof fn lemma_picked_alike<R, K>(
    a: Seq<R>,
    keep_a: spec_fn(R) -> bool,
    key_a: spec_fn(R) -> K,
    b: Seq<R>,
    keep_b: spec_fn(R) -> bool,
    key_b: spec_fn(R) -> K,
)
    requires
        a.len() == b.len(),
        forall|k: int|
            0 <= k < a.len() ==> keep_a(#[trigger] a[k]) == keep_b(b[k]) && (keep_a(a[k])
                ==> key_a(a[k]) == key_b(b[k])),
    ensures
        picked(a, keep_a, key_a, a.len() as int) == picked(b, keep_b, key_b, b.len() as int),
{
    let left = picked(a, keep_a, key_a, a.len() as int);
    let right = picked(b, keep_b, key_b, b.len() as int);
    assert forall|x: K| #[trigger] left.contains(x) implies right.contains(x) by {
        let k = choose|k: int|
            0 <= k < a.len() && k < a.len() && keep_a(#[trigger] a[k]) && key_a(a[k]) == x;
        assert(keep_b(b[k]) && key_b(b[k]) == x);
    }
    assert forall|x: K| #[trigger] right.contains(x) implies left.contains(x) by {
        let k = choose|k: int|
            0 <= k < b.len() && k < b.len() && keep_b(#[trigger] b[k]) && key_b(b[k]) == x;
        assert(keep_a(a[k]));
        assert(keep_a(a[k]) && key_a(a[k]) == x);
    }
    assert(left =~= right);
}

/// Tables that hold the same rows give every user the same roles and the
/// same permissions.
pub proof fn lemma_alike_tables_resolve_alike(
    a: AccessTables,
    b: AccessTables,
    base_role: Option<UserRole>,
    user_id: u128,
)
    requires
        alike(a, b),
    ensures
        effective_roles(a, base_role, user_id) == effective_roles(b, base_role, user_id),
        effective_permissions(a, base_role, user_id) == effective_permissions(
            b,
            base_role,
            user_id,
        ),
{
    let assigned = assigned_role_ids(a.user_roles@, user_id);
    lemma_picked_alike(
        a.roles@,
        |r: roles::Model| assigned.contains(r.id),
        |r: roles::Model| r.code@,
        b.roles@,
        |r: roles::Model| assigned.contains(r.id),
        |r: roles::Model| r.code@,
    );
    let codes = effective_roles(a, base_role, user_id);
    assert(codes == effective_roles(b, base_role, user_id));
    lemma_picked_alike(
        a.roles@,
        |r: roles::Model| codes.contains(r.code@),
        |r: roles::Model| r.id,
        b.roles@,
        |r: roles::Model| codes.contains(r.code@),
        |r: roles::Model| r.id,
    );
    let granted = granted_permission_ids(a.role_permissions@, role_ids_coded(a.roles@, codes));
    assert(granted == granted_permission_ids(b.role_permissions@, role_ids_coded(b.roles@, codes)));
    lemma_picked_alike(
        a.permissions@,
        |r: permissions::Model| granted.contains(r.id),
        |r: permissions::Model| r.code@,
        b.permissions@,
        |r: permissions::Model| granted.contains(r.id),
        |r: permissions::Model| r.code@,
    );
    let allowed = override_permission_ids(a.overrides@, user_id, true);
    lemma_picked_alike(
        a.permissions@,
        |r: permissions::Model| allowed.contains(r.id),
        |r: permissions::Model| r.code@,
        b.permissions@,
        |r: permissions::Model| allowed.contains(r.id),
        |r: permissions::Model| r.code@,
    );
    let denied = override_permission_ids(a.overrides@, user_id, false);
    lemma_picked_alike(
        a.permissions@,
        |r: permissions::Model| denied.contains(r.id),
        |r: permissions::Model| r.code@,
        b.permissions@,
        |r: permissions::Model| denied.contains(r.id),
        |r: permissions::Model| r.code@,
    );
}

/// Ids of the roles assigned to `user_id`.
pub open spec fn assigned_role_ids(rows: Seq<user_roles::Model>, user_id: u128) -> Set<u128> {
    picked(
        rows,
        |r: user_roles::Model| r.user_id == user_id,
        |r: user_roles::Model| r.role_id,
        rows.len() as int,
    )
}

/// Codes of the roles whose id is in `ids`.
pub open spec fn role_codes(rows: Seq<roles::Model>, ids: Set<u128>) -> Set<Seq<char>> {
    picked(rows, |r: roles::Model| ids.contains(r.id), |r: roles::Model| r.code@, rows.len() as int)
}

/// Ids of the roles whose code is in `codes`.
pub open spec fn role_ids_coded(rows: Seq<roles::Model>, codes: Set<Seq<char>>) -> Set<u128> {
    picked(
        rows,
        |r: roles::Model| codes.contains(r.code@),
        |r: roles::Model| r.id,
        rows.len() as int,
    )
}

/// Ids of the permissions granted to a role in `role_ids`.
pub open spec fn granted_permission_ids(
    rows: Seq<role_permissions::Model>,
    role_ids: Set<u128>,
) -> Set<u128> {
    picked(
        rows,
        |r: role_permissions::Model| role_ids.contains(r.role_id),
        |r: role_permissions::Model| r.permission_id,
        rows.len() as int,
    )
}

/// Ids of the permissions that overrides of `user_id` allow (`allow`) or
/// deny (`!allow`).
pub open spec fn override_permission_ids(
    rows: Seq<user_permission_overrides::Model>,
    user_id: u128,
    allow: bool,
) -> Set<u128> {
    picked(
        rows,
        |r: user_permission_overrides::Model| r.user_id == user_id && r.allow == allow,
        |r: user_permission_overrides::Model| r.permission_id,
        rows.len() as int,
    )
}

/// Codes of the permissions whose id is in `ids`.
pub open spec fn permission_codes(rows: Seq<permissions::Model>, ids: Set<u128>) -> Set<Seq<char>> {
    picked(
        rows,
        |r: permissions::Model| ids.contains(r.id),
        |r: permissions::Model| r.code@,
        rows.len() as int,
    )
}

/// The code of the account's own role, if the account is known.
pub open spec fn base_role_codes(base_role: Option<UserRole>) -> Set<Seq<char>> {
    match base_role {
        Some(role) => Set::<Seq<char>>::empty().insert(role.code()),
        None => Set::<Seq<char>>::empty(),
    }
}

/// The roles of a user: the account's own role and the assigned ones.
pub open spec fn effective_roles(t: AccessTables, base_role: Option<UserRole>, user_id: u128) -> Set<
    Seq<char>,
> {
    base_role_codes(base_role).union(
        role_codes(t.roles@, assigned_role_ids(t.user_roles@, user_id)),
    )
}

/// The permissions that the roles of a user grant: those granted to any
/// role that carries one of the user's role codes.
pub open spec fn role_permissions_of(
    t: AccessTables,
    base_role: Option<UserRole>,
    user_id: u128,
) -> Set<Seq<char>> {
    permission_codes(
        t.permissions@,
        granted_permission_ids(
            t.role_permissions@,
            role_ids_coded(t.roles@, effective_roles(t, base_role, user_id)),
        ),
    )
}

/// The permissions that overrides of the user allow or deny.
pub open spec fn overridden_permissions(t: AccessTables, user_id: u128, allow: bool) -> Set<
    Seq<char>,
> {
    permission_codes(t.permissions@, override_permission_ids(t.overrides@, user_id, allow))
}

/// The permissions of a user: granted by a role or allowed by an override,
/// and not denied by one.
pub open spec fn effective_permissions(
    t: AccessTables,
    base_role: Option<UserRole>,
    user_id: u128,
) -> Set<Seq<char>> {
    role_permissions_of(t, base_role, user_id).union(
        overridden_permissions(t, user_id, true),
    ).difference(overridden_permissions(t, user_id, false))
}

/// Pushing a value adds it to the values a sequence holds.
pub proof fn lemma_push_members<T>(s: Seq<T>, v: T)
    ensures
        s.push(v).to_set() == s.to_set().insert(v),
{
    assert forall|x: T| #[trigger] s.push(v).to_set().contains(x) <==> s.to_set().insert(v).contains(
        x,
    ) by {
        if s.push(v).contains(x) {
            let k = choose|k: int| 0 <= k < s.push(v).len() && s.push(v)[k] == x;
            if k < s.len() {
                assert(s[k] == x);
            }
        }
        if s.contains(x) {
            let k = choose|k: int| 0 <= k < s.len() && s[k] == x;
            assert(s.push(v)[k] == x);
        }
        if x == v {
            assert(s.push(v)[s.len() as int] == x);
        }
    }
    assert(s.push(v).to_set() =~= s.to_set().insert(v));
}

/// True when `ids` lists `id`.
fn id_listed(ids: &Vec<u128>, id: u128) -> (r: bool)
    ensures
        r == ids@.to_set().contains(id),
{
    let mut i: usize = 0;
    while i < ids.len()
        invariant
            i <= ids.len(),
            forall|k: int| 0 <= k < i ==> ids@[k] != id,
        decreases ids.len() - i,
    {
        if ids[i] == id {
            assert(ids@.contains(id));
            return true;
        }
        i = i + 1;
    }
    assert(!ids@.contains(id));
    false
}

fn collect_assigned_role_ids(rows: &Vec<user_roles::Model>, user_id: u128) -> (ids: Vec<u128>)
    ensures
        ids@.to_set() == assigned_role_ids(rows@, user_id),
{
    let ghost keep = |r: user_roles::Model| r.user_id == user_id;
    let ghost key = |r: user_roles::Model| r.role_id;
    let mut ids: Vec<u128> = Vec::new();
    let mut i: usize = 0;
    proof {
        lemma_picked_none(rows@, keep, key);
        assert(ids@.to_set() =~= Set::<u128>::empty());
    }
    while i < rows.len()
        invariant
            i <= rows.len(),
            keep == |r: user_roles::Model| r.user_id == user_id,
            key == |r: user_roles::Model| r.role_id,
            ids@.to_set() == picked(rows@, keep, key, i as int),
        decreases rows.len() - i,
    {
        proof {
            lemma_picked_step(rows@, keep, key, i as int);
        }
        if rows[i].user_id == user_id {
            proof {
                lemma_push_members(ids@, rows@[i as int].role_id);
            }
            ids.push(rows[i].role_id);
        }
        i = i + 1;
    }
    ids
}

fn collect_role_ids_coded(rows: &Vec<roles::Model>, codes: &CodeSet) -> (ids: Vec<u128>)
    requires
        codes.wf(),
    ensures
        ids@.to_set() == role_ids_coded(rows@, codes.members()),
{
    let ghost keep = |r: roles::Model| codes.members().contains(r.code@);
    let ghost key = |r: roles::Model| r.id;
    let mut ids: Vec<u128> = Vec::new();
    let mut i: usize = 0;
    proof {
        lemma_picked_none(rows@, keep, key);
        assert(ids@.to_set() =~= Set::<u128>::empty());
    }
    while i < rows.len()
        invariant
            i <= rows.len(),
            codes.wf(),
            keep == |r: roles::Model| codes.members().contains(r.code@),
            key == |r: roles::Model| r.id,
            ids@.to_set() == picked(rows@, keep, key, i as int),
        decreases rows.len() - i,
    {
        proof {
            lemma_picked_step(rows@, keep, key, i as int);
        }
        if codes.contains(rows[i].code.as_str()) {
            proof {
                lemma_push_members(ids@, rows@[i as int].id);
            }
            ids.push(rows[i].id);
        }
        i = i + 1;
    }
    ids
}

fn collect_granted_permission_ids(rows: &Vec<role_permissions::Model>, role_ids: &Vec<u128>) -> (ids:
    Vec<u128>)
    ensures
        ids@.to_set() == granted_permission_ids(rows@, role_ids@.to_set()),
{
    let ghost keep = |r: role_permissions::Model| role_ids@.to_set().contains(r.role_id);
    let ghost key = |r: role_permissions::Model| r.permission_id;
    let mut ids: Vec<u128> = Vec::new();
    let mut i: usize = 0;
    proof {
        lemma_picked_none(rows@, keep, key);
        assert(ids@.to_set() =~= Set::<u128>::empty());
    }
    while i < rows.len()
        invariant
            i <= rows.len(),
            keep == |r: role_permissions::Model| role_ids@.to_set().contains(r.role_id),
            key == |r: role_permissions::Model| r.permission_id,
            ids@.to_set() == picked(rows@, keep, key, i as int),
        decreases rows.len() - i,
    {
        proof {
            lemma_picked_step(rows@, keep, key, i as int);
        }
        if id_listed(role_ids, rows[i].role_id) {
            proof {
                lemma_push_members(ids@, rows@[i as int].permission_id);
            }
            ids.push(rows[i].permission_id);
        }
        i = i + 1;
    }
    ids
}

fn collect_override_permission_ids(
    rows: &Vec<user_permission_overrides::Model>,
    user_id: u128,
    allow: bool,
) -> (ids: Vec<u128>)
    ensures
        ids@.to_set() == override_permission_ids(rows@, user_id, allow),
{
    let ghost keep = |r: user_permission_overrides::Model| r.user_id == user_id && r.allow == allow;
    let ghost key = |r: user_permission_overrides::Model| r.permission_id;
    let mut ids: Vec<u128> = Vec::new();
    let mut i: usize = 0;
    proof {
        lemma_picked_none(rows@, keep, key);
        assert(ids@.to_set() =~= Set::<u128>::empty());
    }
    while i < rows.len()
        invariant
            i <= rows.len(),
            keep == |r: user_permission_overrides::Model| r.user_id == user_id && r.allow == allow,
            key == |r: user_permission_overrides::Model| r.permission_id,
            ids@.to_set() == picked(rows@, keep, key, i as int),
        decreases rows.len() - i,
    {
        proof {
            lemma_picked_step(rows@, keep, key, i as int);
        }
        if rows[i].user_id == user_id && rows[i].allow == allow {
            proof {
                lemma_push_members(ids@, rows@[i as int].permission_id);
            }
            ids.push(rows[i].permission_id);
        }
        i = i + 1;
    }
    ids
}

/// Adds to `acc` the codes of the roles whose id `ids` lists.
fn add_role_codes(rows: &Vec<roles::Model>, ids: &Vec<u128>, acc: &mut CodeSet)
    requires
        old(acc).wf(),
    ensures
        final(acc).wf(),
        final(acc).members() == old(acc).members().union(role_codes(rows@, ids@.to_set())),
{
    let ghost keep = |r: roles::Model| ids@.to_set().contains(r.id);
    let ghost key = |r: roles::Model| r.code@;
    let ghost start = acc.members();
    let mut i: usize = 0;
    proof {
        lemma_picked_none(rows@, keep, key);
        assert(acc.members() =~= start.union(picked(rows@, keep, key, 0)));
    }
    while i < rows.len()
        invariant
            i <= rows.len(),
            acc.wf(),
            keep == |r: roles::Model| ids@.to_set().contains(r.id),
            key == |r: roles::Model| r.code@,
            acc.members() == start.union(picked(rows@, keep, key, i as int)),
        decreases rows.len() - i,
    {
        proof {
            lemma_picked_step(rows@, keep, key, i as int);
        }
        if id_listed(ids, rows[i].id) {
            acc.insert(rows[i].code.clone());
            assert(acc.members() =~= start.union(picked(rows@, keep, key, i + 1)));
        }
        i = i + 1;
    }
}

/// Adds to `acc` the codes of the permissions whose id `ids` lists.
fn add_permission_codes(rows: &Vec<permissions::Model>, ids: &Vec<u128>, acc: &mut CodeSet)
    requires
        old(acc).wf(),
    ensures
        final(acc).wf(),
        final(acc).members() == old(acc).members().union(permission_codes(rows@, ids@.to_set())),
{
    let ghost keep = |r: permissions::Model| ids@.to_set().contains(r.id);
    let ghost key = |r: permissions::Model| r.code@;
    let ghost start = acc.members();
    let mut i: usize = 0;
    proof {
        lemma_picked_none(rows@, keep, key);
        assert(acc.members() =~= start.union(picked(rows@, keep, key, 0)));
    }
    while i < rows.len()
        invariant
            i <= rows.len(),
            acc.wf(),
            keep == |r: permissions::Model| ids@.to_set().contains(r.id),
            key == |r: permissions::Model| r.code@,
            acc.members() == start.union(picked(rows@, keep, key, i as int)),
        decreases rows.len() - i,
    {
        proof {
            lemma_picked_step(rows@, keep, key, i as int);
        }
        if id_listed(ids, rows[i].id) {
            acc.insert(rows[i].code.clone());
            assert(acc.members() =~= start.union(picked(rows@, keep, key, i + 1)));
        }
        i = i + 1;
    }
}

/// Takes out of `acc` the codes of the permissions whose id `ids` lists.
fn remove_permission_codes(rows: &Vec<permissions::Model>, ids: &Vec<u128>, acc: &mut CodeSet)
    requires
        old(acc).wf(),
    ensures
        final(acc).wf(),
        final(acc).members() == old(acc).members().difference(
            permission_codes(rows@, ids@.to_set()),
        ),
{
    let ghost keep = |r: permissions::Model| ids@.to_set().contains(r.id);
    let ghost key = |r: permissions::Model| r.code@;
    let ghost start = acc.members();
    let mut i: usize = 0;
    proof {
        lemma_picked_none(rows@, keep, key);
        assert(acc.members() =~= start.difference(picked(rows@, keep, key, 0)));
    }
    while i < rows.len()
        invariant
            i <= rows.len(),
            acc.wf(),
            keep == |r: permissions::Model| ids@.to_set().contains(r.id),
            key == |r: permissions::Model| r.code@,
            acc.members() == start.difference(picked(rows@, keep, key, i as int)),
        decreases rows.len() - i,
    {
        proof {
            lemma_picked_step(rows@, keep, key, i as int);
        }
        if id_listed(ids, rows[i].id) {
            acc.remove(rows[i].code.as_str());
            assert(acc.members() =~= start.difference(picked(rows@, keep, key, i + 1)));
        }
        i = i + 1;
    }
}

/// The roles and the permissions of a user, each in ascending order and
/// without repetition.
///
/// `base_role` is the role stored on the account, `None` where the account
/// is not known.
pub fn resolve(t: &AccessTables, base_role: Option<UserRole>, user_id: u128) -> (r: (
    Vec<String>,
    Vec<String>,
))
    ensures
        ascending(texts(r.0@)),
        texts(r.0@).to_set() == effective_roles(*t, base_role, user_id),
        ascending(texts(r.1@)),
        texts(r.1@).to_set() == effective_permissions(*t, base_role, user_id),
{
    let mut role_set = CodeSet::new();
    match base_role {
        Some(role) => {
            role_set.insert(String::from_str(role.as_str()));
        },
        None => {},
    }
    assert(role_set.members() =~= base_role_codes(base_role));
    let assigned = collect_assigned_role_ids(&t.user_roles, user_id);
    add_role_codes(&t.roles, &assigned, &mut role_set);

    let mut permission_set = CodeSet::new();
    let role_ids = collect_role_ids_coded(&t.roles, &role_set);
    let granted = collect_granted_permission_ids(&t.role_permissions, &role_ids);
    add_permission_codes(&t.permissions, &granted, &mut permission_set);
    assert(permission_set.members() =~= role_permissions_of(*t, base_role, user_id));
    let allowed = collect_override_permission_ids(&t.overrides, user_id, true);
    add_permission_codes(&t.permissions, &allowed, &mut permission_set);
    let denied = collect_override_permission_ids(&t.overrides, user_id, false);
    remove_permission_codes(&t.permissions, &denied, &mut permission_set);

    (role_set.into_vec(), permission_set.into_vec())
}

/// A permission that an override denies is not among the permissions of
/// the user, whatever its roles grant.
pub proof fn lemma_denied_is_excluded(
    t: AccessTables,
    base_role: Option<UserRole>,
    user_id: u128,
    code: Seq<char>,
)
    requires
        overridden_permissions(t, user_id, false).contains(code),
    ensures
        !effective_permissions(t, base_role, user_id).contains(code),
{
}

/// A permission that an override allows and none denies is among the
/// permissions of the user, whether or not a role grants it.
pub proof fn lemma_allowed_is_included(
    t: AccessTables,
    base_role: Option<UserRole>,
    user_id: u128,
    code: Seq<char>,
)
    requires
        overridden_permissions(t, user_id, true).contains(code),
        !overridden_permissions(t, user_id, false).contains(code),
    ensures
        effective_permissions(t, base_role, user_id).contains(code),
{
}

/// A permission that a role of the user grants and no override denies is
/// among the permissions of the user.
pub proof fn lemma_granted_is_included(
    t: AccessTables,
    base_role: Option<UserRole>,
    user_id: u128,
    code: Seq<char>,
)
    requires
        role_permissions_of(t, base_role, user_id).contains(code),
        !overridden_permissions(t, user_id, false).contains(code),
    ensures
        effective_permissions(t, base_role, user_id).contains(code),
{
}

} // verus!
