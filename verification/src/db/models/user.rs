use vstd::prelude::*;

use crate::db::models::role::clone_roles;
use crate::db::models::role::roles_of_user;
use crate::db::models::role::Role;
use crate::db::models::role::UserRole;
use crate::db::models::DbResult;
use crate::db::Db;
use crate::routes::error;
use crate::routes::ApiResult;
use crate::routes::HttpStatus;

verus! {

/// Gender recorded on a user profile.
#[derive(Clone, Copy, Debug, PartialEq, Eq, Structural)]
pub enum Gender {
    Male,
    Female,
    Diverse,
}

/// A persistent user row. The birthday is held as a day number: days since
/// 1970-01-01, negative for earlier dates.
pub struct User {
    pub id: i32,
    pub firstname: String,
    pub lastname: String,
    pub email: String,
    pub birthday: i32,
    pub gender: Gender,
}

/// The mathematical value of a user row: strings as character sequences.
#[verifier::ext_equal]
pub ghost struct UserView {
    pub id: i32,
    pub firstname: Seq<char>,
    pub lastname: Seq<char>,
    pub email: Seq<char>,
    pub birthday: i32,
    pub gender: Gender,
}

impl View for User {
    type V = UserView;

    open spec fn view(&self) -> UserView {
        UserView {
            id: self.id,
            firstname: self.firstname@,
            lastname: self.lastname@,
            email: self.email@,
            birthday: self.birthday,
            gender: self.gender,
        }
    }
}

impl Clone for User {
    fn clone(&self) -> (r: Self)
        ensures
            r@ == self@,
    {
        User {
            id: self.id,
            firstname: self.firstname.clone(),
            lastname: self.lastname.clone(),
            email: self.email.clone(),
            birthday: self.birthday,
            gender: self.gender,
        }
    }
}

impl User {
    /// Whether the inserted user is the first one, in which case it receives
    /// special privileges. Meaningful right after an insert: it reads the
    /// row count, so the read and the insert must run under one exclusive
    /// borrow of the storage to be race free.
    pub fn is_first(&self, db: &Db) -> (r: bool)
        ensures
            r == (db.users@.len() == 1),
    {
        db.users.len() == 1
    }

    /// Grants this user a role.
    pub fn attach_role(&self, db: &mut Db, role: Role) -> (r: DbResult)
        requires
            old(db).wf(),
        ensures
            final(db).wf(),
            r matches Ok(n) && n == 1,
            final(db).users_roles@ == old(db).users_roles@.push(
                UserRole { user_id: self.id, role },
            ),
            crate::db::same_but_users_roles(*old(db), *final(db)),
    {
        UserRole::add(db, self.clone(), role)
    }

    /// Reads all user rows.
    pub fn get_all(db: &Db) -> (r: Option<Vec<User>>)
        ensures
            r matches Some(v) && v@.len() == db.users@.len()
                && forall|k: int| 0 <= k < db.users@.len()
                    ==> (#[trigger] v@[k])@ == db.users@[k]@,
    {
        let mut out: Vec<User> = Vec::new();
        let mut i: usize = 0;
        while i < db.users.len()
            invariant
                i <= db.users@.len(),
                out@.len() == i,
                forall|k: int| 0 <= k < i ==> (#[trigger] out@[k])@ == db.users@[k]@,
            decreases db.users@.len() - i,
        {
            out.push(db.users[i].clone());
            i = i + 1;
        }
        Some(out)
    }

    /// Overwrites the profile fields of the row carrying the given id, then
    /// reads the row back; `None` when no row carries the id, in which case
    /// nothing changes.
    pub fn update_and_return(db: &mut Db, id: i32, new_user: NewUser) -> (r: Option<User>)
        requires
            old(db).wf(),
        ensures
            final(db).wf(),
            !has_user(old(db).users@, id) ==> (r is None && *final(db) == *old(db)),
            has_user(old(db).users@, id) ==> (r matches Some(u)
                && u@ == user_row_view(new_user@, id)
                && final(db).users@.len() == old(db).users@.len()
                && final(db).users@[user_index(old(db).users@, id)]@
                    == user_row_view(new_user@, id)
                && forall|k: int| 0 <= k < old(db).users@.len()
                    && k != user_index(old(db).users@, id)
                    ==> final(db).users@[k] == old(db).users@[k]),
            final(db).next_user_id == old(db).next_user_id,
            crate::db::same_but_users(*old(db), *final(db)),
    {
        let mut i: usize = 0;
        while i < db.users.len()
            invariant
                i <= db.users@.len(),
                old(db).wf(),
                *db == *old(db),
                forall|j: int| 0 <= j < i ==> (#[trigger] db.users@[j]).id != id,
            decreases db.users@.len() - i,
        {
            if db.users[i].id == id {
                proof {
                    assert(has_user(db.users@, id));
                    lemma_user_at(db.users@, id);
                }
                let row = User {
                    id,
                    firstname: new_user.firstname,
                    lastname: new_user.lastname,
                    email: new_user.email,
                    birthday: new_user.birthday,
                    gender: new_user.gender,
                };
                let copy = row.clone();
                db.users[i] = row;
                proof {
                    let u0 = old(db).users@;
                    let u1 = db.users@;
                    assert(u1 == u0.update(i as int, u1[i as int]));
                    assert(u1[i as int].id == u0[i as int].id);
                    assert forall|k: int| 0 <= k < u1.len()
                        implies (#[trigger] u1[k]).id < db.next_user_id by {
                        if k != i {
                            assert(u1[k] == u0[k]);
                        }
                    }
                    assert forall|k: int, l: int| 0 <= k < l < u1.len()
                        implies (#[trigger] u1[k]).id != (#[trigger] u1[l]).id by {
                        assert(u0[k].id != u0[l].id);
                        if k != i {
                            assert(u1[k] == u0[k]);
                        }
                        if l != i {
                            assert(u1[l] == u0[l]);
                        }
                    }
                }
                return Some(copy);
            }
            i = i + 1;
        }
        proof {
            assert(!has_user(db.users@, id));
        }
        None
    }

    /// Removes the row carrying the given id; `None` when no row carries it,
    /// in which case nothing changes.
    pub fn delete(db: &mut Db, id: i32) -> (r: Option<()>)
        requires
            old(db).wf(),
        ensures
            final(db).wf(),
            !has_user(old(db).users@, id) ==> (r is None && *final(db) == *old(db)),
            has_user(old(db).users@, id) ==> (r == Some(()) && final(db).users@
                == old(db).users@.remove(user_index(old(db).users@, id))),
            final(db).next_user_id == old(db).next_user_id,
            crate::db::same_but_users(*old(db), *final(db)),
    {
        let mut i: usize = 0;
        while i < db.users.len()
            invariant
                i <= db.users@.len(),
                old(db).wf(),
                *db == *old(db),
                forall|j: int| 0 <= j < i ==> (#[trigger] db.users@[j]).id != id,
            decreases db.users@.len() - i,
        {
            if db.users[i].id == id {
                proof {
                    assert(has_user(db.users@, id));
                    lemma_user_at(db.users@, id);
                }
                db.users.remove(i);
                proof {
                    let u0 = old(db).users@;
                    let u1 = db.users@;
                    assert forall|k: int| 0 <= k < u1.len()
                        implies (#[trigger] u1[k]).id < db.next_user_id by {
                        if k < i {
                            assert(u1[k] == u0[k]);
                        } else {
                            assert(u1[k] == u0[k + 1]);
                        }
                    }
                    assert forall|k: int, l: int| 0 <= k < l < u1.len()
                        implies (#[trigger] u1[k]).id != (#[trigger] u1[l]).id by {
                        if k < i {
                            assert(u1[k] == u0[k]);
                        } else {
                            assert(u1[k] == u0[k + 1]);
                        }
                        if l < i {
                            assert(u1[l] == u0[l]);
                        } else {
                            assert(u1[l] == u0[l + 1]);
                        }
                    }
                }
                return Some(());
            }
            i = i + 1;
        }
        proof {
            assert(!has_user(db.users@, id));
        }
        None
    }

    /// Reads the row carrying the given id.
    pub fn find_by_id(db: &Db, id: i32) -> (r: Option<User>)
        requires
            db.users_wf(),
        ensures
            has_user(db.users@, id) ==> (r matches Some(u)
                && u@ == user_at(db.users@, id)@),
            !has_user(db.users@, id) ==> r is None,
    {
        let mut i: usize = 0;
        while i < db.users.len()
            invariant
                i <= db.users@.len(),
                db.users_wf(),
                forall|j: int| 0 <= j < i ==> (#[trigger] db.users@[j]).id != id,
            decreases db.users@.len() - i,
        {
            if db.users[i].id == id {
                proof {
                    assert(has_user(db.users@, id));
                    lemma_user_at(db.users@, id);
                }
                return Some(db.users[i].clone());
            }
            i = i + 1;
        }
        proof {
            assert(!has_user(db.users@, id));
        }
        None
    }

    /// Reads the first row carrying the given email.
    pub fn find_by_email(db: &Db, email: String) -> (r: Option<User>)
        ensures
            r matches Some(u) ==> exists|i: int|
                #[trigger] is_first_email_match(db.users@, email@, i)
                && u@ == db.users@[i]@,
            r is None ==> forall|i: int| 0 <= i < db.users@.len()
                ==> (#[trigger] db.users@[i])@.email != email@,
    {
        let mut i: usize = 0;
        while i < db.users.len()
            invariant
                i <= db.users@.len(),
                forall|j: int| 0 <= j < i ==> (#[trigger] db.users@[j])@.email != email@,
            decreases db.users@.len() - i,
        {
            if db.users[i].email == email {
                proof {
                    assert(is_first_email_match(db.users@, email@, i as int));
                }
                return Some(db.users[i].clone());
            }
            i = i + 1;
        }
        None
    }

    /// A zero-valued user row carrying only the identity key; the policy
    /// engine reads nothing else, so it decides on it exactly as on a real
    /// row with the same id.
    pub fn dummy(id: i32) -> (u: User)
        ensures
            u.id == id,
            u@.firstname.len() == 0,
            u@.lastname.len() == 0,
            u@.email.len() == 0,
            u.birthday == 0,
            u.gender == Gender::Male,
    {
        User {
            id,
            firstname: String::new(),
            lastname: String::new(),
            email: String::new(),
            birthday: 0,
            gender: Gender::Male,
        }
    }
}

/// A user as submitted by a client for registration or update. The birthday
/// is a day number: days since 1970-01-01.
pub struct NewUser {
    pub firstname: String,
    pub lastname: String,
    pub email: String,
    pub birthday: i32,
    pub gender: Gender,
}

/// The mathematical value of a submitted user.
#[verifier::ext_equal]
pub ghost struct NewUserView {
    pub firstname: Seq<char>,
    pub lastname: Seq<char>,
    pub email: Seq<char>,
    pub birthday: i32,
    pub gender: Gender,
}

impl View for NewUser {
    type V = NewUserView;

    open spec fn view(&self) -> NewUserView {
        NewUserView {
            firstname: self.firstname@,
            lastname: self.lastname@,
            email: self.email@,
            birthday: self.birthday,
            gender: self.gender,
        }
    }
}

impl Clone for NewUser {
    fn clone(&self) -> (r: Self)
        ensures
            r@ == self@,
    {
        NewUser {
            firstname: self.firstname.clone(),
            lastname: self.lastname.clone(),
            email: self.email.clone(),
            birthday: self.birthday,
            gender: self.gender,
        }
    }
}

/// What the email validator accepts: the HTML5 email shape. A function of
/// the characters alone.
pub uninterp spec fn email_accepted(s: Seq<char>) -> bool;

/// Relies on `validator::validate_email`: accepts exactly the HTML5 email
/// shape, a function of the string alone; its source rejects an empty
/// string and one without `'@'` outright.
#[verifier::external_body]
fn validate_email_str(s: &str) -> (r: bool)
    ensures
        r == email_accepted(s@),
        s@.len() == 0 ==> !r,
        !s@.contains('@') ==> !r,
{
    validator::validate_email(s)
}

/// A user is an adult when the whole days since the birthday, divided by
/// 365, exceed 18. A birthday in the future makes nobody an adult.
pub open spec fn adult_spec(birthday_day: i32, now_ts: i64) -> bool {
    let secs = now_ts - birthday_day * 86400;
    &&& secs >= 0
    &&& secs / 86400 / 365 > 18
}

/// Checks adulthood against a clock reading (a unix timestamp in seconds).
pub fn is_adult(birthday_day: i32, now_ts: i64) -> (r: bool)
    ensures
        r == adult_spec(birthday_day, now_ts),
{
    let secs: i128 = (now_ts as i128) - (birthday_day as i128) * 86400;
    if secs < 0 {
        return false;
    }
    let days: i128 = secs / 86400;
    let years: i128 = days / 365;
    years > 18
}

/// A submitted user is accepted when the email has the accepted shape and
/// the birthday makes the user an adult at the given time.
pub open spec fn valid_new_user(u: NewUserView, now_ts: i64) -> bool {
    &&& email_accepted(u.email)
    &&& adult_spec(u.birthday, now_ts)
}

impl NewUser {
    /// Accepts the submitted user against the given clock reading, or
    /// rejects it as a client error.
    pub fn is_valid(&self, now_ts: i64) -> (r: ApiResult<()>)
        ensures
            r matches Ok(()) <==> valid_new_user(self@, now_ts),
            r matches Err(e) ==> e.status == HttpStatus::BadRequest,
    {
        if !validate_email_str(self.email.as_str()) {
            return Err(error(HttpStatus::BadRequest, "Invalid email address"));
        }
        if !is_adult(self.birthday, now_ts) {
            return Err(error(HttpStatus::BadRequest, "User must be older than 18 years"));
        }
        Ok(())
    }

    /// Persists the submitted user as a new row under a fresh id.
    pub fn save(db: &mut Db, user: NewUser) -> (r: Option<usize>)
        requires
            old(db).wf(),
            old(db).next_user_id < i32::MAX,
        ensures
            final(db).wf(),
            r == Some(1usize),
            final(db).users@.len() == old(db).users@.len() + 1,
            forall|k: int| 0 <= k < old(db).users@.len()
                ==> final(db).users@[k] == old(db).users@[k],
            final(db).users@.last()@ == user_row_view(user@, old(db).next_user_id),
            final(db).next_user_id == old(db).next_user_id + 1,
            crate::db::same_but_users(*old(db), *final(db)),
    {
        let row = User {
            id: db.next_user_id,
            firstname: user.firstname,
            lastname: user.lastname,
            email: user.email,
            birthday: user.birthday,
            gender: user.gender,
        };
        db.users.push(row);
        db.next_user_id = db.next_user_id + 1;
        Some(1)
    }

    /// Persists the submitted user, then reads the first row carrying its
    /// email back. With a fresh email that is the new row; with a duplicate
    /// email it is the earliest row carrying it.
    pub fn save_and_return(&self, db: &mut Db) -> (r: Option<User>)
        requires
            old(db).wf(),
            old(db).next_user_id < i32::MAX,
        ensures
            final(db).wf(),
            final(db).users@.len() == old(db).users@.len() + 1,
            forall|k: int| 0 <= k < old(db).users@.len()
                ==> final(db).users@[k] == old(db).users@[k],
            final(db).users@.last()@ == user_row_view(self@, old(db).next_user_id),
            final(db).next_user_id == old(db).next_user_id + 1,
            crate::db::same_but_users(*old(db), *final(db)),
            r matches Some(u) && exists|i: int|
                is_first_email_match(final(db).users@, self@.email, i)
                && u@ == final(db).users@[i]@,
    {
        let copy = self.clone();
        let _ = NewUser::save(db, copy);
        let found = User::find_by_email(db, self.email.clone());
        proof {
            assert(db.users@[db.users@.len() - 1]@.email == self@.email);
        }
        found
    }
}

/// The user row that persisting a submitted user under a given id produces.
pub open spec fn user_row_view(u: NewUserView, id: i32) -> UserView {
    UserView {
        id,
        firstname: u.firstname,
        lastname: u.lastname,
        email: u.email,
        birthday: u.birthday,
        gender: u.gender,
    }
}

/// Some user row carries the given id.
pub open spec fn has_user(users: Seq<User>, id: i32) -> bool {
    exists|i: int| 0 <= i < users.len() && (#[trigger] users[i]).id == id
}

/// The index of the user row carrying the given id; meaningful under
/// `has_user` and distinct ids.
pub open spec fn user_index(users: Seq<User>, id: i32) -> int {
    choose|i: int| 0 <= i < users.len() && (#[trigger] users[i]).id == id
}

/// The user row carrying the given id; meaningful under `has_user` and
/// distinct ids.
pub open spec fn user_at(users: Seq<User>, id: i32) -> User {
    users[user_index(users, id)]
}

/// With distinct ids, any user row carrying the id is the row `user_at`
/// names.
pub proof fn lemma_user_at(users: Seq<User>, id: i32)
    requires
        forall|i: int, j: int| 0 <= i < j < users.len()
            ==> (#[trigger] users[i]).id != (#[trigger] users[j]).id,
        has_user(users, id),
    ensures
        0 <= user_index(users, id) < users.len(),
        user_at(users, id).id == id,
        forall|i: int| 0 <= i < users.len() && (#[trigger] users[i]).id == id
            ==> i == user_index(users, id),
{
    let w = user_index(users, id);
    assert forall|i: int| 0 <= i < users.len() && (#[trigger] users[i]).id == id
        implies i == w by {
        if i < w {
            assert(users[i].id != users[w].id);
        } else if w < i {
            assert(users[w].id != users[i].id);
        }
    }
}

/// The identity that assembling a user row with a role list produces.
pub open spec fn auth_view(u: UserView, roles: Seq<Role>) -> AuthUserView {
    AuthUserView {
        id: u.id,
        firstname: u.firstname,
        lastname: u.lastname,
        email: u.email,
        birthday: u.birthday,
        gender: u.gender,
        roles,
    }
}

/// Row `i` is the first user row carrying the given email.
pub open spec fn is_first_email_match(users: Seq<User>, email: Seq<char>, i: int) -> bool {
    &&& 0 <= i < users.len()
    &&& users[i]@.email == email
    &&& forall|j: int| 0 <= j < i ==> (#[trigger] users[j])@.email != email
}

/// The resolved identity attached to a request: a read-only projection of a
/// user row together with the roles granted to it.
pub struct AuthUser {
    pub id: i32,
    pub firstname: String,
    pub lastname: String,
    pub email: String,
    pub birthday: i32,
    pub gender: Gender,
    pub roles: Vec<Role>,
}

/// The mathematical value of an `AuthUser`.
#[verifier::ext_equal]
pub ghost struct AuthUserView {
    pub id: i32,
    pub firstname: Seq<char>,
    pub lastname: Seq<char>,
    pub email: Seq<char>,
    pub birthday: i32,
    pub gender: Gender,
    pub roles: Seq<Role>,
}

impl View for AuthUser {
    type V = AuthUserView;

    open spec fn view(&self) -> AuthUserView {
        AuthUserView {
            id: self.id,
            firstname: self.firstname@,
            lastname: self.lastname@,
            email: self.email@,
            birthday: self.birthday,
            gender: self.gender,
            roles: self.roles@,
        }
    }
}

impl Clone for AuthUser {
    fn clone(&self) -> (r: Self)
        ensures
            r@ == self@,
    {
        AuthUser {
            id: self.id,
            firstname: self.firstname.clone(),
            lastname: self.lastname.clone(),
            email: self.email.clone(),
            birthday: self.birthday,
            gender: self.gender,
            roles: clone_roles(&self.roles),
        }
    }
}

impl AuthUser {
    /// Whether this identity carries the admin role.
    pub open spec fn is_admin(&self) -> bool {
        self.roles@.contains(Role::Admin)
    }

    /// Assembles the identity from a user row and its granted roles.
    pub fn new(user: User, roles: Vec<Role>) -> (a: AuthUser)
        ensures
            a.id == user.id,
            a@.firstname == user@.firstname,
            a@.lastname == user@.lastname,
            a@.email == user@.email,
            a.birthday == user.birthday,
            a.gender == user.gender,
            a.roles@ == roles@,
    {
        AuthUser {
            id: user.id,
            firstname: user.firstname.clone(),
            lastname: user.lastname.clone(),
            email: user.email.clone(),
            birthday: user.birthday,
            gender: user.gender,
            roles,
        }
    }

    /// Assembles the identity of the user row carrying the given id, with
    /// the roles granted to it.
    pub fn by_user_id(db: &Db, id: i32) -> (r: Option<AuthUser>)
        requires
            db.users_wf(),
        ensures
            has_user(db.users@, id) ==> (r matches Some(a)
                && a@ == auth_view(
                    user_at(db.users@, id)@,
                    roles_of_user(db.users_roles@, id, db.users_roles@.len() as int),
                )),
            !has_user(db.users@, id) ==> r is None,
    {
        let user = match User::find_by_id(db, id) {
            Some(u) => u,
            None => {
                return None;
            },
        };
        proof {
            lemma_user_at(db.users@, id);
        }
        let roles = UserRole::all_from_user(db, user.clone());
        Some(AuthUser::new(user, roles))
    }

    /// Assembles the identity of the first user row carrying the given
    /// email, with the roles granted to it.
    pub fn by_email(db: &Db, email: String) -> (r: Option<AuthUser>)
        ensures
            r matches Some(a) ==> exists|i: int|
                #[trigger] is_first_email_match(db.users@, email@, i)
                && a@ == auth_view(
                    db.users@[i]@,
                    roles_of_user(
                        db.users_roles@,
                        db.users@[i].id,
                        db.users_roles@.len() as int,
                    ),
                ),
            r is None ==> forall|i: int| 0 <= i < db.users@.len()
                ==> (#[trigger] db.users@[i])@.email != email@,
    {
        let user = match User::find_by_email(db, email) {
            Some(u) => u,
            None => {
                return None;
            },
        };
        let roles = UserRole::all_from_user(db, user.clone());
        Some(AuthUser::new(user, roles))
    }

    /// An identity with the given key and no roles.
    pub fn dummy(id: i32) -> (a: AuthUser)
        ensures
            a.id == id,
            a.roles@ =~= Seq::<Role>::empty(),
            !a.is_admin(),
    {
        let a = AuthUser {
            id,
            firstname: String::new(),
            lastname: String::new(),
            email: String::new(),
            birthday: 0,
            gender: Gender::Male,
            roles: Vec::new(),
        };
        assert(!a.roles@.contains(Role::Admin));
        a
    }

    /// An identity with the given key and the admin role.
    pub fn dummy_admin(id: i32) -> (a: AuthUser)
        ensures
            a.id == id,
            a.is_admin(),
    {
        let mut roles: Vec<Role> = Vec::new();
        roles.push(Role::Admin);
        let a = AuthUser {
            id,
            firstname: String::new(),
            lastname: String::new(),
            email: String::new(),
            birthday: 0,
            gender: Gender::Male,
            roles,
        };
        assert(a.roles@[0] == Role::Admin);
        a
    }
}

} // verus!
