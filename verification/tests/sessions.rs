use skyrocket::db::models::github_oauth_user::GithubOAuthRegistrar;
use skyrocket::db::models::role::AdminRole;
use skyrocket::db::models::session::Session;
use skyrocket::db::models::user::AuthUser;
use skyrocket::db::models::user::Gender;
use skyrocket::db::models::user::NewUser;
use skyrocket::db::Db;
use skyrocket::routes::login;
use skyrocket::routes::login::RegistratedOrNewUser;
use skyrocket::routes::users;
use skyrocket::routes::HttpStatus;
use skyrocket::routes::UserAgent;
use skyrocket::session::get_github_id;
use skyrocket::session::get_redis_session_key;
use skyrocket::session::get_user_from_session;
use skyrocket::session::revoke;
use skyrocket::session::revoke_by_key;
use skyrocket::session::set_github_id;
use skyrocket::session::set_user;
use skyrocket::session::teardown;
use skyrocket::session::CookieJar;
use skyrocket::session::SessionError;
use skyrocket::session::IdentityState;
use skyrocket::session::resolve;
use skyrocket::session::SessionPayload;
use skyrocket::session::SessionStore;

/// A plausible clock reading (late 2023), against which a 1970 birthday is
/// well past adulthood.
const NOW: i64 = 1_700_000_000;

fn ua() -> UserAgent {
    UserAgent("tests".to_string())
}

fn new_user(email: &str) -> NewUser {
    NewUser {
        firstname: "Jane".to_string(),
        lastname: "Doe".to_string(),
        email: email.to_string(),
        birthday: 0,
        gender: Gender::Female,
    }
}

#[test]
fn session_round_trip() {
    let mut store = SessionStore::new();
    let key = store.create(SessionPayload::Identity(AuthUser::dummy(3)));
    match store.load(key) {
        Some(SessionPayload::Identity(u)) => assert_eq!(u.id, 3),
        _ => panic!("stored payload must read back"),
    }
    let unknown = key + 1;
    assert!(store.load(unknown).is_none());
}

#[test]
fn destroyed_session_is_gone() {
    let mut store = SessionStore::new();
    let key = store.create(SessionPayload::PendingOAuth(77));
    assert!(store.destroy(key).is_ok());
    assert!(store.load(key).is_none());
    assert!(store.destroy(key).is_err());
}

#[test]
fn resolve_without_cookie_is_unauthenticated() {
    let store = SessionStore::new();
    let jar = CookieJar { cookie: None };
    assert!(matches!(resolve(&jar, &store), IdentityState::Unauthenticated));
}

#[test]
fn resolve_follows_cookie() {
    let mut store = SessionStore::new();
    let mut jar = CookieJar { cookie: None };
    let key = set_user(&mut jar, &mut store, AuthUser::dummy(9));
    assert_eq!(get_redis_session_key(&jar), Some(key));
    match resolve(&jar, &store) {
        IdentityState::Authenticated(u) => assert_eq!(u.id, 9),
        _ => panic!("cookie must resolve to the identity"),
    }
    let mut jar2 = CookieJar { cookie: None };
    set_github_id(&mut jar2, &mut store, 1234);
    match resolve(&jar2, &store) {
        IdentityState::PendingOAuth(id) => assert_eq!(id, 1234),
        _ => panic!("pending session must resolve to the marker"),
    }
}

#[test]
fn establishing_identity_replaces_pending_session() {
    let mut store = SessionStore::new();
    let mut jar = CookieJar { cookie: None };
    set_github_id(&mut jar, &mut store, 55);
    let pending_key = get_redis_session_key(&jar).expect("pending cookie");
    let key = set_user(&mut jar, &mut store, AuthUser::dummy(4));
    assert!(store.load(pending_key).is_none());
    match resolve(&jar, &store) {
        IdentityState::Authenticated(u) => assert_eq!(u.id, 4),
        _ => panic!("identity session must win"),
    }
    assert_ne!(pending_key, key);
}

#[test]
fn revoke_without_cookie_is_none() {
    let mut store = SessionStore::new();
    let mut jar = CookieJar { cookie: None };
    assert_eq!(revoke(&mut jar, &mut store), None);
}

#[test]
fn teardown_without_cookie_reports_no_active_session() {
    let mut store = SessionStore::new();
    let mut jar = CookieJar { cookie: None };
    assert_eq!(
        teardown(&mut jar, &mut store),
        Err(SessionError::NoActiveSession)
    );
}

#[test]
fn teardown_unauthenticates_the_browser() {
    let mut store = SessionStore::new();
    let mut jar = CookieJar { cookie: None };
    let key = set_user(&mut jar, &mut store, AuthUser::dummy(6));
    assert_eq!(teardown(&mut jar, &mut store), Ok(key));
    assert!(matches!(resolve(&jar, &store), IdentityState::Unauthenticated));
    assert_eq!(
        teardown(&mut jar, &mut store),
        Err(SessionError::NoActiveSession)
    );
}

#[test]
fn revoke_tears_session_down() {
    let mut store = SessionStore::new();
    let mut jar = CookieJar { cookie: None };
    let key = set_user(&mut jar, &mut store, AuthUser::dummy(2));
    assert_eq!(revoke(&mut jar, &mut store), Some(key));
    assert!(matches!(resolve(&jar, &store), IdentityState::Unauthenticated));
    assert!(store.load(key).is_none());
    assert_eq!(revoke_by_key(&mut store, key), None);
}

#[test]
fn registrar_guard_requires_a_pending_session() {
    let mut store = SessionStore::new();
    let mut jar = CookieJar { cookie: None };
    assert!(GithubOAuthRegistrar::from_session(&jar, &store).is_none());
    assert!(get_github_id(&jar, &store).is_none());

    set_github_id(&mut jar, &mut store, 99);
    assert_eq!(get_github_id(&jar, &store), Some(99));
    let guard = GithubOAuthRegistrar::from_session(&jar, &store).expect("pending session");
    assert_eq!(guard.github_id, 99);

    set_user(&mut jar, &mut store, AuthUser::dummy(1));
    assert!(GithubOAuthRegistrar::from_session(&jar, &store).is_none());
}

#[test]
fn logout_without_cookie_fails() {
    let mut db = Db::new();
    let mut store = SessionStore::new();
    let mut jar = CookieJar { cookie: None };
    let denied = users::logout(&mut db, &mut store, &mut jar);
    assert!(matches!(denied, Err(e) if e.status == HttpStatus::Forbidden));
}

#[test]
fn logout_after_login_unauthenticates() {
    let mut db = Db::new();
    let mut store = SessionStore::new();
    let mut jar = CookieJar { cookie: None };
    set_github_id(&mut jar, &mut store, 42);
    let registrar = GithubOAuthRegistrar::new(42);
    let auth = users::create(
        registrar,
        &mut db,
        &mut store,
        &mut jar,
        ua(),
        new_user("jane@example.com"),
        NOW,
    )
    .expect("registration succeeds");
    assert!(get_user_from_session(&jar, &store).is_some());

    users::logout(&mut db, &mut store, &mut jar).expect("logout succeeds");
    assert!(matches!(resolve(&jar, &store), IdentityState::Unauthenticated));
    assert!(get_user_from_session(&jar, &store).is_none());

    let again = users::logout(&mut db, &mut store, &mut jar);
    assert!(matches!(again, Err(e) if e.status == HttpStatus::Forbidden));
    assert_eq!(auth.id, 1);
}

#[test]
fn first_registered_user_becomes_admin() {
    let mut db = Db::new();
    let mut store = SessionStore::new();
    let mut jar = CookieJar { cookie: None };
    set_github_id(&mut jar, &mut store, 42);
    let registrar = GithubOAuthRegistrar::new(42);
    let first = users::create(
        registrar,
        &mut db,
        &mut store,
        &mut jar,
        ua(),
        new_user("first@example.com"),
        NOW,
    )
    .expect("first registration succeeds");
    assert!(AdminRole::from_session(&jar, &store).is_some());

    let mut jar2 = CookieJar { cookie: None };
    set_github_id(&mut jar2, &mut store, 43);
    let registrar2 = GithubOAuthRegistrar::new(43);
    let second = users::create(
        registrar2,
        &mut db,
        &mut store,
        &mut jar2,
        ua(),
        new_user("second@example.com"),
        NOW,
    )
    .expect("second registration succeeds");
    assert!(AdminRole::from_session(&jar2, &store).is_none());
    assert_ne!(first.id, second.id);
}

#[test]
fn registration_rejects_invalid_submissions() {
    let mut db = Db::new();
    let mut store = SessionStore::new();
    let mut jar = CookieJar { cookie: None };
    set_github_id(&mut jar, &mut store, 42);
    let registrar = GithubOAuthRegistrar::new(42);

    let bad_email = users::create(
        registrar,
        &mut db,
        &mut store,
        &mut jar,
        ua(),
        new_user("not-an-email"),
        NOW,
    );
    assert!(matches!(bad_email, Err(e) if e.status == HttpStatus::BadRequest));

    let mut minor = new_user("kid@example.com");
    minor.birthday = (NOW / 86400) as i32 - 100;
    let too_young = users::create(registrar, &mut db, &mut store, &mut jar, ua(), minor, NOW);
    assert!(matches!(too_young, Err(e) if e.status == HttpStatus::BadRequest));
}

#[test]
fn login_of_registered_user_establishes_session() {
    let mut db = Db::new();
    let mut store = SessionStore::new();
    let mut jar = CookieJar { cookie: None };
    set_github_id(&mut jar, &mut store, 42);
    let registrar = GithubOAuthRegistrar::new(42);
    users::create(
        registrar,
        &mut db,
        &mut store,
        &mut jar,
        ua(),
        new_user("jane@example.com"),
        NOW,
    )
    .expect("registration succeeds");
    users::logout(&mut db, &mut store, &mut jar).expect("logout succeeds");

    let mut fresh_jar = CookieJar { cookie: None };
    let outcome = login::login_github(
        &mut db,
        &mut store,
        &mut fresh_jar,
        ua(),
        42,
        "Jane Doe".to_string(),
        "jane@example.com".to_string(),
    )
    .expect("login succeeds");
    match outcome {
        RegistratedOrNewUser::Registrated(a) => assert_eq!(a.email, "jane@example.com"),
        RegistratedOrNewUser::New(_) => panic!("registered account must log in"),
    }
    assert!(get_user_from_session(&fresh_jar, &store).is_some());
}

#[test]
fn login_of_unknown_account_prefills_registration() {
    let mut db = Db::new();
    let mut store = SessionStore::new();
    let mut jar = CookieJar { cookie: None };
    let outcome = login::login_github(
        &mut db,
        &mut store,
        &mut jar,
        ua(),
        4711,
        "Jane van Doe".to_string(),
        "jane@example.com".to_string(),
    )
    .expect("unknown account yields a prefill");
    match outcome {
        RegistratedOrNewUser::New(nu) => {
            assert_eq!(nu.firstname, "Jane");
            assert_eq!(nu.lastname, "van Doe");
            assert_eq!(nu.email, "jane@example.com");
            assert_eq!(nu.birthday, 0);
            assert!(matches!(nu.gender, Gender::Male));
        },
        RegistratedOrNewUser::Registrated(_) => panic!("unknown account must not log in"),
    }
    match resolve(&jar, &store) {
        IdentityState::PendingOAuth(id) => assert_eq!(id, 4711),
        _ => panic!("browser must hold a pending session"),
    }
}

#[test]
fn profile_reflects_session() {
    let mut db = Db::new();
    let mut store = SessionStore::new();
    let mut jar = CookieJar { cookie: None };
    let no_session = users::profile(&jar, &store);
    assert!(matches!(no_session, Err(e) if e.status == HttpStatus::Forbidden));

    set_github_id(&mut jar, &mut store, 42);
    let registrar = GithubOAuthRegistrar::new(42);
    users::create(
        registrar,
        &mut db,
        &mut store,
        &mut jar,
        ua(),
        new_user("jane@example.com"),
        NOW,
    )
    .expect("registration succeeds");
    let profile = users::profile(&jar, &store).expect("profile of a logged-in browser");
    assert_eq!(profile.email, "jane@example.com");
    assert_eq!(profile.firstname, "Jane");
}

#[test]
fn session_rows_mirror_cache_sessions() {
    let mut db = Db::new();
    let mut store = SessionStore::new();
    let mut jar = CookieJar { cookie: None };
    set_github_id(&mut jar, &mut store, 42);
    let registrar = GithubOAuthRegistrar::new(42);
    let auth = users::create(
        registrar,
        &mut db,
        &mut store,
        &mut jar,
        ua(),
        new_user("jane@example.com"),
        NOW,
    )
    .expect("registration succeeds");

    let rows = Session::all_from_user(&db, auth.id);
    assert_eq!(rows.len(), 1);
    assert_eq!(rows[0].user_id, auth.id);
    assert_eq!(rows[0].data, "tests");

    let key = Session::get_redis_key_by_id(&db, rows[0].id).expect("row mirrors a key");
    assert_eq!(get_redis_session_key(&jar), Some(key));

    Session::delete_by_id(&mut db, &mut store, rows[0].id).expect("teardown by id");
    assert!(Session::all_from_user(&db, auth.id).is_empty());
    assert!(store.load(key).is_none());

    let again = Session::delete_by_id(&mut db, &mut store, rows[0].id);
    assert!(matches!(again, Err(e) if e.status == HttpStatus::NotFound));
}
