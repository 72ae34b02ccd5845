use vstd::prelude::*;

use crate::db::models::user::User;
use crate::db::models::DbResult;
use crate::db::Db;
use crate::session::get_user_from_session;
use crate::session::resolve_spec;
use crate::session::CookieJar;
use crate::session::IdentityStateView;
use crate::session::SessionStore;

verus! {

/// A role tag attached to a user. `Admin` overrides every ownership check
/// in the policy engine.
#[derive(Clone, Copy, Debug, PartialEq, Eq, Structural)]
pub enum Role {
    Admin,
}

/// A row of the role table: one role granted to one user.
#[derive(Clone, Copy, Debug, PartialEq, Eq, Structural)]
pub struct UserRole {
    pub user_id: i32,
    pub role: Role,
}

/// The roles among the first `n` role rows that are granted to the given
/// user, in order.
pub open spec fn roles_of_user(rows: Seq<UserRole>, user_id: i32, n: int) -> Seq<Role>
    decreases n,
{
    if n <= 0 {
        Seq::empty()
    } else if rows[n - 1].user_id == user_id {
        roles_of_user(rows, user_id, n - 1).push(rows[n - 1].role)
    } else {
        roles_of_user(rows, user_id, n - 1)
    }
}

impl UserRole {
    /// Binds a role grant to its user.
    pub fn new(user: User, role: Role) -> (r: UserRole)
        ensures
            r == (UserRole { user_id: user.id, role }),
    {
        UserRole { user_id: user.id, role }
    }

    /// Persists a role grant.
    pub fn add(db: &mut Db, user: User, role: Role) -> (r: DbResult)
        requires
            old(db).wf(),
        ensures
            final(db).wf(),
            r matches Ok(n) && n == 1,
            final(db).users_roles@ == old(db).users_roles@.push(
                UserRole { user_id: user.id, role },
            ),
            crate::db::same_but_users_roles(*old(db), *final(db)),
    {
        db.users_roles.push(UserRole::new(user, role));
        Ok(1)
    }

    /// Reads the roles granted to the given user, in grant order.
    pub fn all_from_user(db: &Db, user: User) -> (r: Vec<Role>)
        ensures
            r@ == roles_of_user(db.users_roles@, user.id, db.users_roles@.len() as int),
    {
        let mut out: Vec<Role> = Vec::new();
        let mut i: usize = 0;
        while i < db.users_roles.len()
            invariant
                i <= db.users_roles@.len(),
                out@ == roles_of_user(db.users_roles@, user.id, i as int),
            decreases db.users_roles@.len() - i,
        {
            let row = db.users_roles[i];
            if row.user_id == user.id {
                out.push(row.role);
            }
            proof {
                assert(out@ =~= roles_of_user(db.users_roles@, user.id, i + 1 as int));
            }
            i = i + 1;
        }
        out
    }
}

/// A copy of a role list with the same contents.
pub fn clone_roles(roles: &Vec<Role>) -> (r: Vec<Role>)
    ensures
        r@ == roles@,
{
    let mut out: Vec<Role> = Vec::new();
    let mut i: usize = 0;
    while i < roles.len()
        invariant
            i <= roles@.len(),
            out@ =~= roles@.subrange(0, i as int),
        decreases roles@.len() - i,
    {
        out.push(roles[i]);
        i = i + 1;
    }
    assert(out@ =~= roles@);
    out
}

/// The browser's session resolves to an identity that carries the given
/// role.
pub open spec fn session_has_role_spec(
    jar: CookieJar,
    store: SessionStore,
    role: Role,
) -> bool {
    match resolve_spec(jar, store.contents()) {
        IdentityStateView::Authenticated(u) => u.roles.contains(role),
        _ => false,
    }
}

/// Whether the browser's session resolves to an identity carrying the given
/// role.
pub fn session_has_role(cookies: &CookieJar, store: &SessionStore, role: Role) -> (r: bool)
    ensures
        r == session_has_role_spec(*cookies, *store, role),
{
    match get_user_from_session(cookies, store) {
        Some(user) => has_role(&user.roles, role),
        None => false,
    }
}

/// The admin guard of the administrative endpoints: a request carries it
/// only when its session resolves to an identity with the admin role.
pub struct AdminRole {}

impl AdminRole {
    /// Grants the guard exactly when the browser's session resolves to an
    /// identity carrying the admin role.
    pub fn from_session(cookies: &CookieJar, store: &SessionStore) -> (r: Option<AdminRole>)
        ensures
            r is Some <==> session_has_role_spec(*cookies, *store, Role::Admin),
    {
        if session_has_role(cookies, store, Role::Admin) {
            Some(AdminRole {})
        } else {
            None
        }
    }
}

/// Whether a role list contains the given role; the executable side of
/// `roles@.contains(role)`.
pub fn has_role(roles: &Vec<Role>, role: Role) -> (r: bool)
    ensures
        r == roles@.contains(role),
{
    let mut i: usize = 0;
    while i < roles.len()
        invariant
            i <= roles@.len(),
            forall|j: int| 0 <= j < i ==> roles@[j] != role,
        decreases roles@.len() - i,
    {
        if roles[i] == role {
            assert(roles@[i as int] == role);
            return true;
        }
        i = i + 1;
    }
    false
}

} // verus!
