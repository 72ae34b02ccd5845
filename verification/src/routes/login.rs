use vstd::prelude::*;

use crate::config::Config;
use crate::db::models::github_oauth_user::is_first_link_match;
use crate::db::models::github_oauth_user::GitHubOAuthUser;
use crate::db::models::role::roles_of_user;
use crate::db::models::session::Session;
use crate::db::models::user::auth_view;
use crate::db::models::user::has_user;
use crate::db::models::user::user_at;
use crate::db::models::user::AuthUser;
use crate::db::models::user::Gender;
use crate::db::models::user::NewUser;
use crate::db::Db;
use crate::routes::error;
use crate::routes::ApiResult;
use crate::routes::HttpStatus;
use crate::routes::OAuthProviders;
use crate::routes::UserAgent;
use crate::session::set_github_id;
use crate::session::stripped_contents;
use crate::session::CookieJar;
use crate::session::SessionPayload;
use crate::session::SessionStore;

verus! {

/// The address a browser is sent to for the GitHub OAuth exchange, for a
/// given client id.
pub open spec fn github_oauth_url(client_id: Seq<char>) -> Seq<char> {
    "https://github.com/login/oauth/authorize?client_id="@ + client_id + "&scope=user:email"@
}

/// Lists the configured OAuth providers with their redirect addresses; an
/// unconfigured provider is reported as absent.
pub fn oauth_list(config: &Config) -> (r: OAuthProviders)
    ensures
        config.oauth_github_client_id matches Some(cid) ==> (r.github matches Some(u)
            && u@ == github_oauth_url(cid@)),
        config.oauth_github_client_id is None ==> r.github is None,
{
    match &config.oauth_github_client_id {
        None => OAuthProviders { github: None },
        Some(value) => {
            let url = String::from_str("https://github.com/login/oauth/authorize?client_id=")
                .concat(value.as_str()).concat("&scope=user:email");
            OAuthProviders { github: Some(url) }
        },
    }
}

/// Position `i` holds the first space of the sequence.
pub open spec fn is_first_space(s: Seq<char>, i: int) -> bool {
    &&& 0 <= i < s.len()
    &&& s[i] == ' '
    &&& forall|j: int| 0 <= j < i ==> s[j] != ' '
}

/// `first` and `last` are the parts of `name` before and after its first
/// space; a name without a space is all first name.
pub open spec fn split_name_spec(name: Seq<char>, first: Seq<char>, last: Seq<char>) -> bool {
    if exists|i: int| is_first_space(name, i) {
        exists|i: int|
            #[trigger] is_first_space(name, i)
            && first == name.subrange(0, i)
            && last == name.subrange(i + 1, name.len() as int)
    } else {
        first == name && last.len() == 0
    }
}

/// Splits a display name at its first space into a first and a last name; a
/// name without a space is all first name.
fn split_first_space(s: &str) -> (r: (String, String))
    ensures
        split_name_spec(s@, r.0@, r.1@),
{
    let n = s.unicode_len();
    let mut i: usize = 0;
    while i < n
        invariant
            i <= n,
            n == s@.len(),
            forall|j: int| 0 <= j < i ==> s@[j] != ' ',
        decreases n - i,
    {
        if s.get_char(i) == ' ' {
            proof {
                assert(is_first_space(s@, i as int));
            }
            let first = s.substring_char(0, i);
            let rest = s.substring_char(i + 1, n);
            return (String::from_str(first), String::from_str(rest));
        }
        i = i + 1;
    }
    proof {
        assert forall|k: int| !is_first_space(s@, k) by {
            if 0 <= k < s@.len() {
                assert(s@[k] != ' ');
            }
        }
    }
    (String::from_str(s), String::new())
}

/// Either the identity of a returning user, or the form prefill for one who
/// has not registered yet.
pub enum RegistratedOrNewUser {
    Registrated(AuthUser),
    New(NewUser),
}

/// Handles a completed GitHub OAuth exchange. `github_id`, `name` and
/// `email` are the fields of the profile the provider returned. A browser
/// whose GitHub account is linked to a user is logged in: an identity
/// session replaces whatever session the cookie pointed to, mirrored by a
/// persistent session row. An unlinked browser receives a pending session
/// holding the provider user id, and a form prefill with the name split at
/// its first space.
pub fn login_github(
    db: &mut Db,
    store: &mut SessionStore,
    cookies: &mut CookieJar,
    ua: UserAgent,
    github_id: i32,
    name: String,
    email: String,
) -> (r: ApiResult<RegistratedOrNewUser>)
    requires
        old(db).wf(),
        old(store).wf(),
        old(store).can_create(),
        old(db).next_session_id < i32::MAX,
    ensures
        final(db).wf(),
        final(store).wf(),
        (forall|i: int| 0 <= i < old(db).users_oauth_github@.len()
            ==> (#[trigger] old(db).users_oauth_github@[i]).github_id != github_id)
            ==> (r matches Ok(out)
            && (out matches RegistratedOrNewUser::New(nu)
                && nu@.email == email@
                && nu.birthday == 0
                && nu.gender == Gender::Male
                && split_name_spec(name@, nu@.firstname, nu@.lastname))
            && *final(db) == *old(db)
            && (final(cookies).cookie matches Some(key)
                && !old(store).contents().dom().contains(key)
                && final(store).contents() == stripped_contents(
                    *old(cookies),
                    old(store).contents(),
                ).insert(key, SessionPayload::PendingOAuth(github_id)))),
        (exists|i: int| #[trigger] is_first_link_match(old(db).users_oauth_github@, github_id, i))
            ==> ({
            let link = old(db).users_oauth_github@[
                choose|i: int| #[trigger] is_first_link_match(old(db).users_oauth_github@, github_id, i)
            ];
            &&& (!has_user(old(db).users@, link.user_id) ==> (r matches Err(e)
                && e.status == HttpStatus::InternalServerError
                && *final(db) == *old(db)
                && final(store).contents() == old(store).contents()
                && *final(cookies) == *old(cookies)))
            &&& (has_user(old(db).users@, link.user_id) ==> (r matches Ok(out)
                && (out matches RegistratedOrNewUser::Registrated(a)
                    && a@ == auth_view(
                        user_at(old(db).users@, link.user_id)@,
                        roles_of_user(
                            old(db).users_roles@,
                            link.user_id,
                            old(db).users_roles@.len() as int,
                        ),
                    ))
                && (final(cookies).cookie matches Some(key)
                    && !old(store).contents().dom().contains(key)
                    && !stripped_contents(*old(cookies), old(store).contents()).dom().contains(
                        key,
                    )
                    && exists|u: AuthUser| u@ == (match out {
                        RegistratedOrNewUser::Registrated(a2) => a2@,
                        RegistratedOrNewUser::New(_) => arbitrary(),
                    }) && final(store).contents() == stripped_contents(
                        *old(cookies),
                        old(store).contents(),
                    ).insert(key, SessionPayload::Identity(u)))
                && final(db).sessions@.len() == old(db).sessions@.len() + 1
                && final(db).sessions@.last().user_id == link.user_id
                && crate::db::same_but_sessions(*old(db), *final(db))))
        }),
{
    let github_user = match GitHubOAuthUser::find_by_id(db, github_id) {
        Some(l) => l,
        None => {
            set_github_id(cookies, store, github_id);
            let (firstname, lastname) = split_first_space(name.as_str());
            return Ok(RegistratedOrNewUser::New(NewUser {
                firstname,
                lastname,
                email,
                birthday: 0,
                gender: Gender::Male,
            }));
        },
    };
    proof {
        let i = choose|i: int|
            #[trigger] is_first_link_match(db.users_oauth_github@, github_id, i)
            && github_user == db.users_oauth_github@[i];
        assert(is_first_link_match(db.users_oauth_github@, github_id, i));
    }
    let user = match AuthUser::by_user_id(db, github_user.user_id) {
        Some(a) => a,
        None => {
            return Err(error(HttpStatus::InternalServerError, ""));
        },
    };
    let out = user.clone();
    match Session::save(db, store, cookies, ua, user) {
        Ok(_) => (),
        Err(_) => {
            return Err(error(
                HttpStatus::InternalServerError,
                "Error saving session, please try again later",
            ));
        },
    }
    Ok(RegistratedOrNewUser::Registrated(out))
}

} // verus!
