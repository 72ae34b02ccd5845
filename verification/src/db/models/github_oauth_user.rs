use vstd::prelude::*;

use crate::db::Db;
use crate::session::get_github_id;
use crate::session::resolve_spec;
use crate::session::CookieJar;
use crate::session::IdentityStateView;
use crate::session::SessionStore;

verus! {

/// The link between a user row and a GitHub account.
#[derive(Clone, Copy, Debug, PartialEq, Eq, Structural)]
pub struct GitHubOAuthUser {
    pub user_id: i32,
    pub github_id: i32,
}

/// Row `i` is the first link row carrying the given provider user id.
pub open spec fn is_first_link_match(
    links: Seq<GitHubOAuthUser>,
    github_id: i32,
    i: int,
) -> bool {
    &&& 0 <= i < links.len()
    &&& links[i].github_id == github_id
    &&& forall|j: int| 0 <= j < i ==> (#[trigger] links[j]).github_id != github_id
}

impl GitHubOAuthUser {
    /// Reads the first link row carrying the given provider user id.
    pub fn find_by_id(db: &Db, id: i32) -> (r: Option<GitHubOAuthUser>)
        ensures
            r matches Some(l) ==> exists|i: int|
                #[trigger] is_first_link_match(db.users_oauth_github@, id, i)
                && l == db.users_oauth_github@[i],
            r is None ==> forall|i: int| 0 <= i < db.users_oauth_github@.len()
                ==> (#[trigger] db.users_oauth_github@[i]).github_id != id,
    {
        let mut i: usize = 0;
        while i < db.users_oauth_github.len()
            invariant
                i <= db.users_oauth_github@.len(),
                forall|j: int| 0 <= j < i
                    ==> (#[trigger] db.users_oauth_github@[j]).github_id != id,
            decreases db.users_oauth_github@.len() - i,
        {
            let l = db.users_oauth_github[i];
            if l.github_id == id {
                proof {
                    assert(is_first_link_match(db.users_oauth_github@, id, i as int));
                }
                return Some(l);
            }
            i = i + 1;
        }
        None
    }

    /// Persists a link between a user row and a GitHub account.
    pub fn save(db: &mut Db, user: GitHubOAuthUser) -> (r: Option<usize>)
        requires
            old(db).wf(),
        ensures
            final(db).wf(),
            r == Some(1usize),
            final(db).users_oauth_github@ == old(db).users_oauth_github@.push(user),
            crate::db::same_but_oauth_links(*old(db), *final(db)),
    {
        db.users_oauth_github.push(user);
        Some(1)
    }
}

/// Identifies a browser that has completed the OAuth exchange for a GitHub
/// account that is not linked to any user yet and is registering now.
#[derive(Clone, Copy, Debug, PartialEq, Eq, Structural)]
pub struct GithubOAuthRegistrar {
    pub github_id: i32,
}

impl GithubOAuthRegistrar {
    /// Wraps the provider's user id.
    pub fn new(github_id: i32) -> (r: GithubOAuthRegistrar)
        ensures
            r.github_id == github_id,
    {
        GithubOAuthRegistrar { github_id }
    }

    /// Grants the registering-browser guard exactly when the browser's
    /// session is a pending registration, carrying its provider user id.
    pub fn from_session(cookies: &CookieJar, store: &SessionStore)
        -> (r: Option<GithubOAuthRegistrar>)
        ensures
            match resolve_spec(*cookies, store.contents()) {
                IdentityStateView::PendingOAuth(id) => r == Some(GithubOAuthRegistrar {
                    github_id: id,
                }),
                _ => r is None,
            },
    {
        match get_github_id(cookies, store) {
            Some(id) => Some(GithubOAuthRegistrar::new(id)),
            None => None,
        }
    }
}

} // verus!
