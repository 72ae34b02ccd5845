use vstd::prelude::*;

use crate::db::models::booking::bookings_of_user;
use crate::db::models::booking::Booking;
use crate::db::models::github_oauth_user::GitHubOAuthUser;
use crate::db::models::github_oauth_user::GithubOAuthRegistrar;
use crate::db::models::role::roles_of_user;
use crate::db::models::role::AdminRole;
use crate::db::models::role::Role;
use crate::db::models::role::UserRole;
use crate::db::models::session::Session;
use crate::db::models::user::auth_view;
use crate::db::models::user::has_user;
use crate::db::models::user::is_first_email_match;
use crate::db::models::user::user_at;
use crate::db::models::user::user_index;
use crate::db::models::user::user_row_view;
use crate::db::models::user::valid_new_user;
use crate::db::models::user::AuthUser;
use crate::db::models::user::NewUser;
use crate::db::models::user::NewUserView;
use crate::db::models::user::User;
use crate::db::Db;
use crate::oso::policy_allows;
use crate::oso::OsoAction;
use crate::oso::OsoArc;
use crate::routes::error;
use crate::routes::ApiResult;
use crate::routes::HttpStatus;
use crate::routes::UserAgent;
use crate::session::get_user_from_session;
use crate::session::resolve_spec;
use crate::session::revoke;
use crate::session::stripped_contents;
use crate::session::CookieJar;
use crate::session::IdentityStateView;
use crate::session::SessionPayload;
use crate::session::SessionStore;

verus! {

/// The link and role rows that registering against a GitHub account adds:
/// one OAuth link to the registered user's row, and the admin role exactly
/// when the storage held no user before.
pub open spec fn registered_link(db0: Db, db1: Db, github_id: i32, row: User) -> bool {
    &&& db1.users_oauth_github@ == db0.users_oauth_github@.push(
        GitHubOAuthUser { user_id: row.id, github_id },
    )
    &&& if db0.users@.len() == 0 {
        db1.users_roles@ == db0.users_roles@.push(UserRole { user_id: row.id, role: Role::Admin })
    } else {
        db1.users_roles@ == db0.users_roles@
    }
}

/// What a successful registration does to the storage, and which identity it
/// hands back: the submitted user is appended under a fresh id; the first
/// row carrying its email (the new row, unless the email was already taken)
/// is linked to the GitHub account, receives the admin role when it is the
/// first user ever, and is handed back with its roles.
pub open spec fn register_outcome(
    db0: Db,
    db1: Db,
    github_id: i32,
    nu: NewUserView,
    a: crate::db::models::user::AuthUserView,
) -> bool {
    &&& db1.users@.len() == db0.users@.len() + 1
    &&& (forall|k: int| 0 <= k < db0.users@.len() ==> db1.users@[k] == db0.users@[k])
    &&& db1.users@.last()@ == user_row_view(nu, db0.next_user_id)
    &&& exists|i: int|
        #[trigger] is_first_email_match(db1.users@, nu.email, i)
        && registered_link(db0, db1, github_id, db1.users@[i])
        && a == auth_view(
            db1.users@[i]@,
            roles_of_user(db1.users_roles@, db1.users@[i].id, db1.users_roles@.len() as int),
        )
}

/// Registers the pending browser as a user: validates the submission,
/// persists the user, links it to the GitHub account the browser completed
/// the OAuth exchange for, grants the admin role to the first user ever,
/// replaces the pending session by an identity session, and hands the
/// identity back.
pub fn create(
    actor: GithubOAuthRegistrar,
    db: &mut Db,
    store: &mut SessionStore,
    cookies: &mut CookieJar,
    ua: UserAgent,
    new_user: NewUser,
    now_ts: i64,
) -> (r: ApiResult<AuthUser>)
    requires
        old(db).wf(),
        old(store).wf(),
        old(store).can_create(),
        old(db).next_user_id < i32::MAX,
        old(db).next_session_id < i32::MAX,
    ensures
        final(db).wf(),
        final(store).wf(),
        !valid_new_user(new_user@, now_ts) ==> (r matches Err(e)
            && e.status == HttpStatus::BadRequest
            && *final(db) == *old(db)
            && final(store).contents() == old(store).contents()
            && *final(cookies) == *old(cookies)),
        valid_new_user(new_user@, now_ts) ==> (r matches Ok(a)
            && register_outcome(*old(db), *final(db), actor.github_id, new_user@, a@)
            && (final(cookies).cookie matches Some(key)
                && !old(store).contents().dom().contains(key)
                && !stripped_contents(*old(cookies), old(store).contents()).dom().contains(key)
                && exists|u: AuthUser| u@ == a@ && final(store).contents()
                    == stripped_contents(*old(cookies), old(store).contents()).insert(
                        key,
                        SessionPayload::Identity(u),
                    ))
            && final(db).sessions@.len() == old(db).sessions@.len() + 1
            && final(db).sessions@.last().user_id == a.id
            && final(db).addresses@ == old(db).addresses@
            && final(db).flights_offers@ == old(db).flights_offers@
            && final(db).flights@ == old(db).flights@
            && final(db).bookings@ == old(db).bookings@),
{
    match new_user.is_valid(now_ts) {
        Ok(()) => (),
        Err(e) => {
            return Err(e);
        },
    }

    let user = match new_user.save_and_return(db) {
        Some(u) => u,
        None => {
            return Err(error(HttpStatus::InternalServerError, ""));
        },
    };
    let ghost iw = choose|i: int|
        #[trigger] is_first_email_match(db.users@, new_user@.email, i)
        && user@ == db.users@[i]@;
    proof {
        assert(db.users@[iw].id == user.id);
        assert(has_user(db.users@, user.id));
    }

    match GitHubOAuthUser::save(
        db,
        GitHubOAuthUser { user_id: user.id, github_id: actor.github_id },
    ) {
        Some(_) => (),
        None => {
            return Err(error(HttpStatus::InternalServerError, ""));
        },
    }

    if user.is_first(db) {
        match user.attach_role(db, Role::Admin) {
            Ok(_) => (),
            Err(_) => {
                return Err(error(HttpStatus::InternalServerError, ""));
            },
        }
    }

    let auth_user = match AuthUser::by_user_id(db, user.id) {
        Some(a) => a,
        None => {
            return Err(error(HttpStatus::InternalServerError, ""));
        },
    };
    proof {
        crate::db::models::user::lemma_user_at(db.users@, user.id);
        assert(user_at(db.users@, user.id) == db.users@[iw]);
    }

    let _ = revoke(cookies, store);
    let out = auth_user.clone();
    match Session::save(db, store, cookies, ua, auth_user) {
        Ok(_) => (),
        Err(_) => {
            return Err(error(
                HttpStatus::InternalServerError,
                "Error saving session, please try again later",
            ));
        },
    }
    proof {
        assert(is_first_email_match(db.users@, new_user@.email, iw));
    }
    Ok(out)
}

/// Reads all users, for administrators.
pub fn list_for_admin(_r: AdminRole, db: &Db) -> (r: ApiResult<Vec<User>>)
    ensures
        r matches Ok(v) && v@.len() == db.users@.len()
            && forall|k: int| 0 <= k < db.users@.len()
                ==> (#[trigger] v@[k])@ == db.users@[k]@,
{
    match User::get_all(db) {
        Some(v) => Ok(v),
        None => Err(error(HttpStatus::InternalServerError, "")),
    }
}

/// Reads the requesting actor's own user row, as a one-element list.
pub fn list_for_user(actor: AuthUser, db: &Db) -> (r: ApiResult<Vec<User>>)
    requires
        db.users_wf(),
    ensures
        has_user(db.users@, actor.id) ==> (r matches Ok(v) && v@.len() == 1
            && v@[0]@ == user_at(db.users@, actor.id)@),
        !has_user(db.users@, actor.id) ==> (r matches Err(e)
            && e.status == HttpStatus::InternalServerError),
{
    let actor_id = actor.id;
    match User::find_by_id(db, actor_id) {
        Some(u) => {
            let mut v: Vec<User> = Vec::new();
            v.push(u);
            Ok(v)
        },
        None => Err(error(HttpStatus::InternalServerError, "")),
    }
}

/// Reads the user row carrying the given id, if the actor may read it: a
/// not-found error when no row carries the id, a forbidden error when the
/// policy denies the read.
pub fn read(actor: AuthUser, oso: &OsoArc, db: &Db, id: i32) -> (r: ApiResult<User>)
    requires
        db.users_wf(),
    ensures
        !has_user(db.users@, id) ==> (r matches Err(e) && e.status == HttpStatus::NotFound),
        has_user(db.users@, id) && !policy_allows(*oso, actor, OsoAction::Read, id)
            ==> (r matches Err(e) && e.status == HttpStatus::Forbidden),
        has_user(db.users@, id) && policy_allows(*oso, actor, OsoAction::Read, id)
            ==> (r matches Ok(u) && u@ == user_at(db.users@, id)@),
{
    let resource = match User::find_by_id(db, id) {
        Some(u) => u,
        None => {
            return Err(error(HttpStatus::NotFound, ""));
        },
    };
    proof {
        crate::db::models::user::lemma_user_at(db.users@, id);
    }
    let copy = resource.clone();
    if oso.is_allowed(actor, OsoAction::Read, resource) {
        Ok(copy)
    } else {
        Err(error(HttpStatus::Forbidden, "Forbidden"))
    }
}

/// Overwrites the profile of user `id` with the submission, if the actor may
/// update resources owned by that user and the submission is valid, and
/// hands the updated row back.
pub fn update(
    actor: AuthUser,
    oso: &OsoArc,
    db: &mut Db,
    id: i32,
    new_user: NewUser,
    now_ts: i64,
) -> (r: ApiResult<User>)
    requires
        old(db).wf(),
    ensures
        final(db).wf(),
        !policy_allows(*oso, actor, OsoAction::Update, id) ==> (r matches Err(e)
            && e.status == HttpStatus::Forbidden && *final(db) == *old(db)),
        policy_allows(*oso, actor, OsoAction::Update, id) && !valid_new_user(new_user@, now_ts)
            ==> (r matches Err(e) && e.status == HttpStatus::BadRequest
            && *final(db) == *old(db)),
        policy_allows(*oso, actor, OsoAction::Update, id) && valid_new_user(new_user@, now_ts)
            && !has_user(old(db).users@, id) ==> (r matches Err(e)
            && e.status == HttpStatus::InternalServerError && *final(db) == *old(db)),
        policy_allows(*oso, actor, OsoAction::Update, id) && valid_new_user(new_user@, now_ts)
            && has_user(old(db).users@, id) ==> (r matches Ok(u)
            && u@ == user_row_view(new_user@, id)
            && final(db).users@.len() == old(db).users@.len()
            && final(db).users@[user_index(old(db).users@, id)]@ == user_row_view(new_user@, id)
            && (forall|k: int| 0 <= k < old(db).users@.len()
                && k != user_index(old(db).users@, id)
                ==> final(db).users@[k] == old(db).users@[k])
            && crate::db::same_but_users(*old(db), *final(db))),
{
    if oso.is_allowed(actor, OsoAction::Update, User::dummy(id)) {
        match new_user.is_valid(now_ts) {
            Ok(()) => (),
            Err(e) => {
                return Err(e);
            },
        }
        match User::update_and_return(db, id, new_user) {
            Some(u) => Ok(u),
            None => Err(error(HttpStatus::InternalServerError, "")),
        }
    } else {
        Err(error(HttpStatus::Forbidden, "Forbidden"))
    }
}

/// Removes the user row carrying the given id, if the actor may delete
/// resources owned by that user: a not-found error when no row carries the
/// id, a forbidden error when the policy denies the deletion.
pub fn delete(actor: AuthUser, oso: &OsoArc, db: &mut Db, id: i32) -> (r: ApiResult<()>)
    requires
        old(db).wf(),
    ensures
        final(db).wf(),
        !policy_allows(*oso, actor, OsoAction::Delete, id) ==> (r matches Err(e)
            && e.status == HttpStatus::Forbidden && *final(db) == *old(db)),
        policy_allows(*oso, actor, OsoAction::Delete, id) && !has_user(old(db).users@, id)
            ==> (r matches Err(e) && e.status == HttpStatus::NotFound
            && *final(db) == *old(db)),
        policy_allows(*oso, actor, OsoAction::Delete, id) && has_user(old(db).users@, id)
            ==> (r matches Ok(())
            && final(db).users@ == old(db).users@.remove(user_index(old(db).users@, id))
            && crate::db::same_but_users(*old(db), *final(db))),
{
    if oso.is_allowed(actor, OsoAction::Delete, User::dummy(id)) {
        match User::delete(db, id) {
            Some(()) => Ok(()),
            None => Err(error(HttpStatus::NotFound, "")),
        }
    } else {
        Err(error(HttpStatus::Forbidden, "Forbidden"))
    }
}

/// Hands the identity the browser's session resolves to back, or a
/// forbidden error when it resolves to none.
pub fn profile(cookies: &CookieJar, store: &SessionStore) -> (r: ApiResult<AuthUser>)
    ensures
        match resolve_spec(*cookies, store.contents()) {
            IdentityStateView::Authenticated(u) => r matches Ok(a) && a@ == u,
            _ => r matches Err(e) && e.status == HttpStatus::Forbidden,
        },
{
    match get_user_from_session(cookies, store) {
        Some(u) => Ok(u),
        None => Err(error(HttpStatus::Forbidden, "You are not logged in")),
    }
}

/// Reads the bookings held by user `id`, if the actor may read resources
/// owned by that user. The check runs against a placeholder booking
/// carrying only the ownership key.
pub fn read_bookings(actor: AuthUser, oso: &OsoArc, db: &Db, id: i32)
    -> (r: ApiResult<Vec<Booking>>)
    ensures
        !policy_allows(*oso, actor, OsoAction::Read, id) ==> (r matches Err(e)
            && e.status == HttpStatus::Forbidden),
        policy_allows(*oso, actor, OsoAction::Read, id) ==> (r matches Ok(v)
            && v@ == bookings_of_user(db.bookings@, id, db.bookings@.len() as int)),
{
    if oso.is_allowed(actor, OsoAction::Read, Booking::dummy(id)) {
        Ok(Booking::all_from_user(db, id))
    } else {
        Err(error(HttpStatus::Forbidden, "Forbidden"))
    }
}

/// Tears the browser's session down: the logout endpoint.
pub fn logout(db: &mut Db, store: &mut SessionStore, cookies: &mut CookieJar)
    -> (r: ApiResult<()>)
    requires
        old(db).wf(),
        old(store).wf(),
    ensures
        final(db).wf(),
        final(store).wf(),
        old(cookies).cookie is None ==> (r matches Err(e)
            && e.status == HttpStatus::Forbidden
            && *final(db) == *old(db)
            && *final(cookies) == *old(cookies)
            && final(store).contents() == old(store).contents()),
        old(cookies).cookie matches Some(k) ==> (r matches Ok(())
            && final(cookies).cookie is None
            && final(store).contents() == old(store).contents().remove(k)
            && resolve_spec(*final(cookies), final(store).contents())
                is Unauthenticated),
{
    Session::delete_by_cookie(db, store, cookies)
}

} // verus!
