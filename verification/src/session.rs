use vstd::prelude::*;

use std::collections::HashMap;

use crate::db::models::user::AuthUser;
use crate::db::models::user::AuthUserView;

verus! {

broadcast use vstd::std_specs::hash::group_hash_axioms;

/// What a session stores: either a resolved identity or the provider user id
/// of a pending OAuth registration. A session holds exactly one variant.
pub enum SessionPayload {
    Identity(AuthUser),
    PendingOAuth(i32),
}

/// The session store: a key/value cache keyed by opaque session keys. Keys
/// are generated by the store on write and never reused; the counter behind
/// `next_key` keeps every generated key fresh.
pub struct SessionStore {
    pub next_key: u64,
    pub table: HashMap<u64, SessionPayload>,
}

/// One fixed browser cookie, holding at most the opaque key of the session
/// it points to. The cookie is the only pointer to a session. In transport
/// it is signed and encrypted; here it carries the plain key.
pub struct CookieJar {
    pub cookie: Option<u64>,
}

/// Attaches the session cookie with the given key to the browser.
pub fn add_browser_cookie(cookies: &mut CookieJar, value: u64)
    ensures
        final(cookies).cookie == Some(value),
{
    cookies.cookie = Some(value);
}

/// Reads the session key held by the browser's session cookie, if any.
pub fn get_redis_session_key(cookies: &CookieJar) -> (r: Option<u64>)
    ensures
        r == cookies.cookie,
{
    cookies.cookie
}

/// Instructs the browser to drop the session cookie.
pub fn remove_browser_cookie(cookies: &mut CookieJar)
    ensures
        final(cookies).cookie is None,
{
    cookies.cookie = None;
}

/// Errors of the session layer: `NotFound` when a key names no stored
/// session, `NoActiveSession` when teardown runs without a cookie.
#[derive(Clone, Copy, Debug, PartialEq, Eq, Structural)]
pub enum SessionError {
    NotFound,
    NoActiveSession,
}

/// What looking a key up in the stored sessions yields: the payload stored
/// under it, or nothing.
pub open spec fn load_spec(contents: Map<u64, SessionPayload>, key: u64)
    -> Option<SessionPayload> {
    if contents.dom().contains(key) {
        Some(contents[key])
    } else {
        None
    }
}

impl SessionStore {
    /// The stored sessions, by key.
    pub open spec fn contents(&self) -> Map<u64, SessionPayload> {
        self.table@
    }

    /// Every stored key was generated by the counter, so the next generated
    /// key is fresh.
    pub open spec fn wf(&self) -> bool {
        forall|k: u64| #[trigger] self.table@.dom().contains(k) ==> k < self.next_key
    }

    /// The store can still generate a fresh key.
    pub open spec fn can_create(&self) -> bool {
        self.next_key < u64::MAX
    }

    /// An empty store.
    pub fn new() -> (s: SessionStore)
        ensures
            s.wf(),
            s.can_create(),
            s.contents() == Map::<u64, SessionPayload>::empty(),
    {
        SessionStore { next_key: 0, table: HashMap::new() }
    }

    /// Writes a payload under a fresh opaque key and returns the key.
    pub fn create(&mut self, payload: SessionPayload) -> (key: u64)
        requires
            old(self).wf(),
            old(self).can_create(),
        ensures
            final(self).wf(),
            key == old(self).next_key,
            final(self).next_key == old(self).next_key + 1,
            !old(self).contents().dom().contains(key),
            final(self).contents() == old(self).contents().insert(key, payload),
    {
        let key = self.next_key;
        self.next_key = self.next_key + 1;
        self.table.insert(key, payload);
        key
    }

    /// Looks a session up by key; an absent key is "no session", not an
    /// error.
    pub fn load(&self, key: u64) -> (r: Option<&SessionPayload>)
        ensures
            match r {
                Some(p) => load_spec(self.contents(), key) == Some(*p),
                None => load_spec(self.contents(), key) is None,
            },
    {
        self.table.get(&key)
    }

    /// Removes the session stored under `key`; fails with `NotFound` when
    /// the key names no session.
    pub fn destroy(&mut self, key: u64) -> (r: Result<(), SessionError>)
        requires
            old(self).wf(),
        ensures
            final(self).wf(),
            final(self).next_key == old(self).next_key,
            old(self).contents().dom().contains(key) ==> (r matches Ok(())
                && final(self).contents() == old(self).contents().remove(key)),
            !old(self).contents().dom().contains(key) ==> (r matches Err(e)
                && e == SessionError::NotFound
                && final(self).contents() == old(self).contents()),
    {
        proof {
            if !self.table@.dom().contains(key) {
                assert(self.table@.remove(key) =~= self.table@);
            }
        }
        match self.table.remove(&key) {
            Some(_) => Ok(()),
            None => Err(SessionError::NotFound),
        }
    }
}

/// The identity a request resolves to.
pub enum IdentityState {
    Unauthenticated,
    PendingOAuth(i32),
    Authenticated(AuthUser),
}

/// The mathematical value of a resolved identity.
pub ghost enum IdentityStateView {
    Unauthenticated,
    PendingOAuth(i32),
    Authenticated(AuthUserView),
}

impl View for IdentityState {
    type V = IdentityStateView;

    open spec fn view(&self) -> IdentityStateView {
        match self {
            IdentityState::Unauthenticated => IdentityStateView::Unauthenticated,
            IdentityState::PendingOAuth(id) => IdentityStateView::PendingOAuth(*id),
            IdentityState::Authenticated(u) => IdentityStateView::Authenticated(u@),
        }
    }
}

/// What a browser's cookie and the store resolve to: the identity of the
/// pointed-to session, the pending marker of a provisional session, and
/// `Unauthenticated` when there is no cookie or the key names no session.
pub open spec fn resolve_spec(jar: CookieJar, contents: Map<u64, SessionPayload>)
    -> IdentityStateView {
    match jar.cookie {
        None => IdentityStateView::Unauthenticated,
        Some(k) => if !contents.dom().contains(k) {
            IdentityStateView::Unauthenticated
        } else {
            match contents[k] {
                SessionPayload::Identity(u) => IdentityStateView::Authenticated(u@),
                SessionPayload::PendingOAuth(id) => IdentityStateView::PendingOAuth(id),
            }
        },
    }
}

/// Resolves a request to an identity, a pending-registration marker, or
/// `Unauthenticated`. Performs no authorization.
pub fn resolve(cookies: &CookieJar, store: &SessionStore) -> (r: IdentityState)
    ensures
        r@ == resolve_spec(*cookies, store.contents()),
{
    match get_redis_session_key(cookies) {
        None => IdentityState::Unauthenticated,
        Some(key) => match store.load(key) {
            None => IdentityState::Unauthenticated,
            Some(SessionPayload::Identity(u)) => IdentityState::Authenticated(u.clone()),
            Some(SessionPayload::PendingOAuth(id)) => IdentityState::PendingOAuth(*id),
        },
    }
}

/// Establishes an identity session for the browser: any session the current
/// cookie points to is destroyed first (no two live sessions for one
/// browser), the identity is stored under a fresh key, and the cookie is
/// set to that key. Returns the key, which was never live before: it is
/// absent from the whole prior contents, not only from what the replacement
/// left.
pub fn set_user(cookies: &mut CookieJar, store: &mut SessionStore, user: AuthUser) -> (key: u64)
    requires
        old(store).wf(),
        old(store).can_create(),
    ensures
        final(store).wf(),
        key == old(store).next_key,
        final(store).next_key == old(store).next_key + 1,
        !old(store).contents().dom().contains(key),
        !stripped_contents(*old(cookies), old(store).contents()).dom().contains(key),
        final(store).contents() == stripped_contents(*old(cookies), old(store).contents())
            .insert(key, SessionPayload::Identity(user)),
        final(cookies).cookie == Some(key),
{
    match get_redis_session_key(cookies) {
        Some(old_key) => {
            let _ = store.destroy(old_key);
            proof {
                if !old(store).contents().dom().contains(old_key) {
                    assert(old(store).contents().remove(old_key) =~= old(store).contents());
                }
            }
        },
        None => (),
    }
    let key = store.create(SessionPayload::Identity(user));
    add_browser_cookie(cookies, key);
    key
}

/// The store contents after the session pointed to by the browser's cookie,
/// if any, is dropped.
pub open spec fn stripped_contents(jar: CookieJar, contents: Map<u64, SessionPayload>)
    -> Map<u64, SessionPayload> {
    match jar.cookie {
        None => contents,
        Some(k) => contents.remove(k),
    }
}

/// Establishes a pending-registration session holding the provider user id,
/// replacing any session the current cookie points to, and points the
/// cookie at it. The new key was never live before.
pub fn set_github_id(cookies: &mut CookieJar, store: &mut SessionStore, id: i32)
    requires
        old(store).wf(),
        old(store).can_create(),
    ensures
        final(store).wf(),
        final(store).next_key == old(store).next_key + 1,
        final(cookies).cookie matches Some(key)
            && key == old(store).next_key
            && final(store).contents() == stripped_contents(*old(cookies), old(store).contents())
                .insert(key, SessionPayload::PendingOAuth(id))
            && !old(store).contents().dom().contains(key)
            && !stripped_contents(*old(cookies), old(store).contents()).dom().contains(key),
{
    match get_redis_session_key(cookies) {
        Some(old_key) => {
            let _ = store.destroy(old_key);
            proof {
                if !old(store).contents().dom().contains(old_key) {
                    assert(old(store).contents().remove(old_key) =~= old(store).contents());
                }
            }
        },
        None => (),
    }
    let key = store.create(SessionPayload::PendingOAuth(id));
    add_browser_cookie(cookies, key);
}

/// Resolves the browser's session and hands back its identity, if the
/// session holds one.
pub fn get_user_from_session(cookies: &CookieJar, store: &SessionStore) -> (r: Option<AuthUser>)
    ensures
        match resolve_spec(*cookies, store.contents()) {
            IdentityStateView::Authenticated(u) => r matches Some(a) && a@ == u,
            _ => r is None,
        },
{
    match resolve(cookies, store) {
        IdentityState::Authenticated(u) => Some(u),
        _ => None,
    }
}

/// Resolves the browser's session and hands back the pending provider user
/// id, if the session is a pending registration.
pub fn get_github_id(cookies: &CookieJar, store: &SessionStore) -> (r: Option<i32>)
    ensures
        match resolve_spec(*cookies, store.contents()) {
            IdentityStateView::PendingOAuth(id) => r == Some(id),
            _ => r is None,
        },
{
    match resolve(cookies, store) {
        IdentityState::PendingOAuth(id) => Some(id),
        _ => None,
    }
}

/// Tears the browser's session down: drops the cookie and destroys the
/// session it pointed to. Returns the key that was torn down; `None` when
/// the browser held no cookie, in which case nothing changes.
pub fn revoke(cookies: &mut CookieJar, store: &mut SessionStore) -> (r: Option<u64>)
    requires
        old(store).wf(),
    ensures
        final(store).wf(),
        final(store).next_key == old(store).next_key,
        old(cookies).cookie is None ==> (r is None
            && final(store).contents() == old(store).contents()
            && *final(cookies) == *old(cookies)),
        old(cookies).cookie matches Some(k) ==> (r == Some(k)
            && final(cookies).cookie is None
            && final(store).contents() == old(store).contents().remove(k)),
        r is Some ==> resolve_spec(*final(cookies), final(store).contents())
            is Unauthenticated,
{
    match get_redis_session_key(cookies) {
        None => None,
        Some(key) => {
            remove_browser_cookie(cookies);
            let _ = revoke_by_key(store, key);
            proof {
                if !old(store).contents().dom().contains(key) {
                    assert(old(store).contents().remove(key) =~= old(store).contents());
                }
            }
            Some(key)
        },
    }
}

/// The resolver's teardown: drops the cookie and destroys the session it
/// pointed to, handing the torn-down key back. Fails with `NoActiveSession`
/// when the browser holds no cookie, in which case nothing changes.
pub fn teardown(cookies: &mut CookieJar, store: &mut SessionStore)
    -> (r: Result<u64, SessionError>)
    requires
        old(store).wf(),
    ensures
        final(store).wf(),
        final(store).next_key == old(store).next_key,
        old(cookies).cookie is None ==> (r == Err::<u64, SessionError>(
            SessionError::NoActiveSession,
        )
            && final(store).contents() == old(store).contents()
            && *final(cookies) == *old(cookies)),
        old(cookies).cookie matches Some(k) ==> (r == Ok::<u64, SessionError>(k)
            && final(cookies).cookie is None
            && final(store).contents() == old(store).contents().remove(k)
            && resolve_spec(*final(cookies), final(store).contents())
                is Unauthenticated),
{
    match revoke(cookies, store) {
        Some(key) => Ok(key),
        None => Err(SessionError::NoActiveSession),
    }
}

/// Destroys the session stored under the given key, if any; `None` when the
/// key names no session.
pub fn revoke_by_key(store: &mut SessionStore, redis_key: u64) -> (r: Option<()>)
    requires
        old(store).wf(),
    ensures
        final(store).wf(),
        final(store).next_key == old(store).next_key,
        old(store).contents().dom().contains(redis_key) ==> r == Some(())
            && final(store).contents() == old(store).contents().remove(redis_key),
        !old(store).contents().dom().contains(redis_key) ==> (r is None
            && final(store).contents() == old(store).contents()),
{
    match store.destroy(redis_key) {
        Ok(()) => Some(()),
        Err(_) => None,
    }
}

/// A session round trip: a payload written under a fresh key, as `create`
/// leaves the store, is read back unchanged by `load`; a key the store does
/// not hold reads back as no session.
pub proof fn lemma_session_round_trip(
    contents: Map<u64, SessionPayload>,
    key: u64,
    payload: SessionPayload,
    unknown: u64,
)
    requires
        !contents.dom().contains(unknown),
    ensures
        load_spec(contents.insert(key, payload), key) == Some(payload),
        load_spec(contents, unknown) is None,
{
}

/// Teardown with no active cookie changes nothing and reports no active
/// session; after a successful teardown the browser resolves to
/// `Unauthenticated`.
pub proof fn lemma_logout(jar: CookieJar, contents: Map<u64, SessionPayload>)
    ensures
        jar.cookie is None ==> resolve_spec(jar, contents) is Unauthenticated,
        jar.cookie matches Some(k) ==> resolve_spec(
            CookieJar { cookie: None },
            contents.remove(k),
        ) is Unauthenticated,
{
}

} // verus!
