use vstd::prelude::*;

use crate::db::models::user::AuthUser;
use crate::db::models::DbResult;
use crate::db::Db;
use crate::oso::OwnedResource;
use crate::routes::error;
use crate::routes::ApiResult;
use crate::routes::HttpStatus;
use crate::routes::UserAgent;
use crate::session::revoke;
use crate::session::revoke_by_key;
use crate::session::set_user;
use crate::session::stripped_contents;
use crate::session::CookieJar;
use crate::session::SessionPayload;
use crate::session::SessionStore;

verus! {

/// A persistent session row as handed to clients: the stored key of the
/// cache session is deliberately not part of it. Its ownership attribute is
/// `user_id`. The establishment time is a unix timestamp in seconds.
pub struct Session {
    pub id: i32,
    pub user_id: i32,
    pub established: i64,
    pub data: String,
}

/// The mathematical value of a session row.
#[verifier::ext_equal]
pub ghost struct SessionView {
    pub id: i32,
    pub user_id: i32,
    pub established: i64,
    pub data: Seq<char>,
}

impl View for Session {
    type V = SessionView;

    open spec fn view(&self) -> SessionView {
        SessionView {
            id: self.id,
            user_id: self.user_id,
            established: self.established,
            data: self.data@,
        }
    }
}

impl Clone for Session {
    fn clone(&self) -> (r: Self)
        ensures
            r@ == self@,
    {
        Session {
            id: self.id,
            user_id: self.user_id,
            established: self.established,
            data: self.data.clone(),
        }
    }
}

impl OwnedResource for Session {
    open spec fn owner_key_spec(&self) -> i32 {
        self.user_id
    }

    fn owner_key(&self) -> (k: i32)
        ensures
            k == self.owner_key_spec(),
    {
        self.user_id
    }
}

impl Session {
    /// A zero-valued session row carrying only the ownership key. The policy
    /// engine reads nothing else, so it decides on it exactly as on a real
    /// row owned by the same user.
    pub fn dummy_for_user(user_id: i32) -> (s: Session)
        ensures
            s.user_id == user_id,
            s.id == 0,
            s.established == 0,
            s@.data.len() == 0,
    {
        Session { id: 0, user_id, established: 0, data: String::new() }
    }
}

/// A session row before it is bound to a user: the cache key it mirrors,
/// when it was established, and the user agent it was established from.
pub struct NewSession {
    pub redis_key: u64,
    pub established: i64,
    pub data: String,
}

/// A session row ready for insertion, bound to its owning user.
pub struct InsertableSession {
    pub user_id: i32,
    pub redis_key: u64,
    pub established: i64,
    pub data: String,
}

impl InsertableSession {
    /// Binds a new session row to its owning user.
    pub fn new(new_session: NewSession, user_id: i32) -> (r: InsertableSession)
        ensures
            r.user_id == user_id,
            r.redis_key == new_session.redis_key,
            r.established == new_session.established,
            r.data@ == new_session.data@,
    {
        InsertableSession {
            user_id,
            redis_key: new_session.redis_key,
            established: new_session.established,
            data: new_session.data,
        }
    }
}

/// A stored row of the session table, as the storage holds it: the handed
/// out projection `Session` plus the cache key it mirrors.
pub struct SessionRecord {
    pub id: i32,
    pub user_id: i32,
    pub redis_key: u64,
    pub established: i64,
    pub data: String,
}

/// The mathematical value of a stored session row.
#[verifier::ext_equal]
pub ghost struct SessionRecordView {
    pub id: i32,
    pub user_id: i32,
    pub redis_key: u64,
    pub established: i64,
    pub data: Seq<char>,
}

impl View for SessionRecord {
    type V = SessionRecordView;

    open spec fn view(&self) -> SessionRecordView {
        SessionRecordView {
            id: self.id,
            user_id: self.user_id,
            redis_key: self.redis_key,
            established: self.established,
            data: self.data@,
        }
    }
}

/// Relies on `chrono::DateTime::<Utc>::from(SystemTime)`: the current time
/// as a unix timestamp in seconds. The conversion is total — a host clock
/// set before 1970 yields a negative timestamp instead of a panic. The
/// value depends on the clock, so nothing is promised of it.
#[verifier::external_body]
fn clock_now() -> i64 {
    chrono::DateTime::<chrono::Utc>::from(std::time::SystemTime::now()).timestamp()
}

/// The mathematical values of a sequence of handed-out session rows.
pub open spec fn views_of_sessions(rows: Seq<Session>) -> Seq<SessionView> {
    rows.map_values(|s: Session| s@)
}

/// The projection a stored session row is handed out as.
pub open spec fn session_projection(rec: SessionRecordView) -> SessionView {
    SessionView { id: rec.id, user_id: rec.user_id, established: rec.established, data: rec.data }
}

/// The projections of the sessions among the first `n` stored rows that the
/// given user owns, in order.
pub open spec fn user_sessions(rows: Seq<SessionRecord>, user_id: i32, n: int) -> Seq<SessionView>
    decreases n,
{
    if n <= 0 {
        Seq::empty()
    } else if rows[n - 1].user_id == user_id {
        user_sessions(rows, user_id, n - 1).push(session_projection(rows[n - 1]@))
    } else {
        user_sessions(rows, user_id, n - 1)
    }
}

/// Some stored session row carries the given id.
pub open spec fn has_session_row(rows: Seq<SessionRecord>, id: i32) -> bool {
    exists|i: int| 0 <= i < rows.len() && (#[trigger] rows[i]).id == id
}

/// The index of the stored session row carrying the given id; meaningful
/// under `has_session_row` and distinct ids.
pub open spec fn session_row_index(rows: Seq<SessionRecord>, id: i32) -> int {
    choose|i: int| 0 <= i < rows.len() && (#[trigger] rows[i]).id == id
}

/// The stored session row carrying the given id; meaningful under
/// `has_session_row` and distinct ids.
pub open spec fn session_row_at(rows: Seq<SessionRecord>, id: i32) -> SessionRecord {
    rows[session_row_index(rows, id)]
}

/// With distinct ids, any stored session row carrying the id is the row
/// `session_row_at` names.
pub proof fn lemma_session_row_at(rows: Seq<SessionRecord>, id: i32)
    requires
        forall|i: int, j: int| 0 <= i < j < rows.len()
            ==> (#[trigger] rows[i]).id != (#[trigger] rows[j]).id,
        has_session_row(rows, id),
    ensures
        0 <= session_row_index(rows, id) < rows.len(),
        session_row_at(rows, id).id == id,
        forall|i: int| 0 <= i < rows.len() && (#[trigger] rows[i]).id == id
            ==> i == session_row_index(rows, id),
{
    let w = session_row_index(rows, id);
    assert forall|i: int| 0 <= i < rows.len() && (#[trigger] rows[i]).id == id
        implies i == w by {
        if i < w {
            assert(rows[i].id != rows[w].id);
        } else if w < i {
            assert(rows[w].id != rows[i].id);
        }
    }
}

/// The stored session rows among the first `n` whose cache key differs from
/// the given one, in order: what deleting by cache key leaves behind.
pub open spec fn sessions_retained(rows: Seq<SessionRecord>, key: u64, n: int) -> Seq<SessionRecord>
    decreases n,
{
    if n <= 0 {
        Seq::empty()
    } else if rows[n - 1].redis_key == key {
        sessions_retained(rows, key, n - 1)
    } else {
        sessions_retained(rows, key, n - 1).push(rows[n - 1])
    }
}

/// Every retained row's id is the id of one of the first `n` rows; with
/// distinct bounded ids the retained rows have distinct bounded ids too.
proof fn lemma_sessions_retained_wf(rows: Seq<SessionRecord>, key: u64, n: int, bound: i32)
    requires
        0 <= n <= rows.len(),
        forall|i: int, j: int| 0 <= i < j < rows.len()
            ==> (#[trigger] rows[i]).id != (#[trigger] rows[j]).id,
        forall|i: int| 0 <= i < rows.len() ==> (#[trigger] rows[i]).id < bound,
    ensures
        forall|k: int| 0 <= k < sessions_retained(rows, key, n).len()
            ==> exists|j: int| 0 <= j < n
                && (#[trigger] sessions_retained(rows, key, n)[k]) == rows[j],
        forall|k: int, l: int| 0 <= k < l < sessions_retained(rows, key, n).len()
            ==> (#[trigger] sessions_retained(rows, key, n)[k]).id
                != (#[trigger] sessions_retained(rows, key, n)[l]).id,
        forall|k: int| 0 <= k < sessions_retained(rows, key, n).len()
            ==> (#[trigger] sessions_retained(rows, key, n)[k]).id < bound,
    decreases n,
{
    if n > 0 {
        lemma_sessions_retained_wf(rows, key, n - 1, bound);
        let prev = sessions_retained(rows, key, n - 1);
        let cur = sessions_retained(rows, key, n);
        if rows[n - 1].redis_key != key {
            assert forall|k: int| 0 <= k < cur.len()
                implies exists|j: int| 0 <= j < n && (#[trigger] cur[k]) == rows[j] by {
                if k < prev.len() {
                    assert(cur[k] == prev[k]);
                    let j = choose|j: int| 0 <= j < n - 1 && prev[k] == rows[j];
                    assert(0 <= j < n && cur[k] == rows[j]);
                } else {
                    assert(cur[k] == rows[n - 1]);
                }
            }
            assert forall|k: int, l: int| 0 <= k < l < cur.len()
                implies (#[trigger] cur[k]).id != (#[trigger] cur[l]).id by {
                if l < prev.len() {
                    assert(cur[k] == prev[k] && cur[l] == prev[l]);
                } else {
                    assert(cur[l] == rows[n - 1]);
                    assert(cur[k] == prev[k]);
                    let j = choose|j: int| 0 <= j < n - 1 && prev[k] == rows[j];
                    assert(rows[j].id != rows[n - 1].id);
                }
            }
        }
    }
}

impl Session {
    /// Reads the handed-out projections of all session rows owned by the
    /// given user, in insertion order.
    pub fn all_from_user(db: &Db, user_id: i32) -> (r: Vec<Session>)
        ensures
            views_of_sessions(r@) == user_sessions(
                db.sessions@,
                user_id,
                db.sessions@.len() as int,
            ),
    {
        let mut out: Vec<Session> = Vec::new();
        let mut i: usize = 0;
        while i < db.sessions.len()
            invariant
                i <= db.sessions@.len(),
                views_of_sessions(out@) == user_sessions(db.sessions@, user_id, i as int),
            decreases db.sessions@.len() - i,
        {
            let rec = &db.sessions[i];
            if rec.user_id == user_id {
                out.push(Session {
                    id: rec.id,
                    user_id: rec.user_id,
                    established: rec.established,
                    data: rec.data.clone(),
                });
            }
            proof {
                assert(views_of_sessions(out@) =~= user_sessions(
                    db.sessions@,
                    user_id,
                    i + 1 as int,
                ));
            }
            i = i + 1;
        }
        out
    }

    /// Reads the cache key mirrored by the session row carrying the given
    /// id.
    pub fn get_redis_key_by_id(db: &Db, session_id: i32) -> (r: Option<u64>)
        requires
            db.sessions_wf(),
        ensures
            has_session_row(db.sessions@, session_id)
                ==> r == Some(session_row_at(db.sessions@, session_id).redis_key),
            !has_session_row(db.sessions@, session_id) ==> r is None,
    {
        let mut i: usize = 0;
        while i < db.sessions.len()
            invariant
                i <= db.sessions@.len(),
                db.sessions_wf(),
                forall|j: int| 0 <= j < i ==> (#[trigger] db.sessions@[j]).id != session_id,
            decreases db.sessions@.len() - i,
        {
            if db.sessions[i].id == session_id {
                proof {
                    assert(has_session_row(db.sessions@, session_id));
                    lemma_session_row_at(db.sessions@, session_id);
                }
                return Some(db.sessions[i].redis_key);
            }
            i = i + 1;
        }
        proof {
            assert(!has_session_row(db.sessions@, session_id));
        }
        None
    }

    /// Removes every session row mirroring the given cache key.
    fn delete_by_redis_key(db: &mut Db, redis_key: u64) -> (r: ApiResult<()>)
        requires
            old(db).wf(),
        ensures
            final(db).wf(),
            r matches Ok(()),
            final(db).sessions@ == sessions_retained(
                old(db).sessions@,
                redis_key,
                old(db).sessions@.len() as int,
            ),
            final(db).next_session_id == old(db).next_session_id,
            crate::db::same_but_sessions(*old(db), *final(db)),
    {
        let ghost orig = old(db).sessions@;
        let ghost mut j: int = 0;
        let mut i: usize = 0;
        while i < db.sessions.len()
            invariant
                0 <= j <= orig.len(),
                i as int == sessions_retained(orig, redis_key, j).len(),
                db.sessions@ =~= sessions_retained(orig, redis_key, j) + orig.skip(j),
                db.next_session_id == old(db).next_session_id,
                old(db).wf(),
                crate::db::same_but_sessions(*old(db), *db),
            decreases orig.len() - j,
        {
            proof {
                assert(db.sessions@[i as int] == orig[j]);
            }
            if db.sessions[i].redis_key == redis_key {
                db.sessions.remove(i);
                proof {
                    j = j + 1;
                    assert(db.sessions@ =~= sessions_retained(orig, redis_key, j)
                        + orig.skip(j));
                }
            } else {
                i = i + 1;
                proof {
                    j = j + 1;
                    assert(db.sessions@ =~= sessions_retained(orig, redis_key, j)
                        + orig.skip(j));
                }
            }
        }
        proof {
            assert(j == orig.len());
            assert(db.sessions@ =~= sessions_retained(orig, redis_key, orig.len() as int));
            lemma_sessions_retained_wf(orig, redis_key, orig.len() as int, old(db).next_session_id);
        }
        Ok(())
    }

    /// Tears the session with the given row id down: destroys the cache
    /// session behind it, then removes the row. Fails with a not-found
    /// error when the row does not exist or the cache holds no session
    /// under its key; the storage is then unchanged.
    pub fn delete_by_id(db: &mut Db, store: &mut SessionStore, session_id: i32)
        -> (r: ApiResult<()>)
        requires
            old(db).wf(),
            old(store).wf(),
        ensures
            final(db).wf(),
            final(store).wf(),
            !has_session_row(old(db).sessions@, session_id) ==> (r matches Err(e)
                && e.status == HttpStatus::NotFound
                && *final(db) == *old(db)
                && final(store).contents() == old(store).contents()),
            has_session_row(old(db).sessions@, session_id)
                && !old(store).contents().dom().contains(
                    session_row_at(old(db).sessions@, session_id).redis_key,
                ) ==> (r matches Err(e)
                && e.status == HttpStatus::NotFound
                && *final(db) == *old(db)
                && final(store).contents() == old(store).contents()),
            has_session_row(old(db).sessions@, session_id)
                && old(store).contents().dom().contains(
                    session_row_at(old(db).sessions@, session_id).redis_key,
                ) ==> (r matches Ok(())
                && final(store).contents() == old(store).contents().remove(
                    session_row_at(old(db).sessions@, session_id).redis_key,
                )
                && final(db).sessions@ == sessions_retained(
                    old(db).sessions@,
                    session_row_at(old(db).sessions@, session_id).redis_key,
                    old(db).sessions@.len() as int,
                )
                && crate::db::same_but_sessions(*old(db), *final(db))),
    {
        let redis_key = match Session::get_redis_key_by_id(db, session_id) {
            Some(k) => k,
            None => {
                return Err(error(HttpStatus::NotFound, "Session not found"));
            },
        };
        match revoke_by_key(store, redis_key) {
            Some(()) => (),
            None => {
                return Err(error(HttpStatus::NotFound, "Session not found"));
            },
        }
        Session::delete_by_redis_key(db, redis_key)
    }

    /// Tears the browser's session down: drops the cookie, destroys the
    /// cache session it pointed to, and removes the rows mirroring it.
    /// Fails with a forbidden error when the browser holds no cookie; the
    /// storage and the store are then unchanged.
    pub fn delete_by_cookie(db: &mut Db, store: &mut SessionStore, cookies: &mut CookieJar)
        -> (r: ApiResult<()>)
        requires
            old(db).wf(),
            old(store).wf(),
        ensures
            final(db).wf(),
            final(store).wf(),
            old(cookies).cookie is None ==> (r matches Err(e)
                && e.status == HttpStatus::Forbidden
                && *final(db) == *old(db)
                && *final(cookies) == *old(cookies)
                && final(store).contents() == old(store).contents()),
            old(cookies).cookie matches Some(k) ==> (r matches Ok(())
                && final(cookies).cookie is None
                && final(store).contents() == old(store).contents().remove(k)
                && final(db).sessions@ == sessions_retained(
                    old(db).sessions@,
                    k,
                    old(db).sessions@.len() as int,
                )
                && crate::db::same_but_sessions(*old(db), *final(db))),
    {
        let key = match revoke(cookies, store) {
            Some(k) => k,
            None => {
                return Err(error(HttpStatus::Forbidden, "No session to revoke"));
            },
        };
        Session::delete_by_redis_key(db, key)
    }

    /// Establishes an identity session for the browser and mirrors it as a
    /// persistent session row: the cache session is created under a fresh
    /// key, the cookie is set to that key, and the row records the key, the
    /// requesting user agent and the time of establishment read from the
    /// clock.
    pub fn save(
        db: &mut Db,
        store: &mut SessionStore,
        cookies: &mut CookieJar,
        ua: UserAgent,
        user: AuthUser,
    ) -> (r: DbResult)
        requires
            old(db).wf(),
            old(store).wf(),
            old(store).can_create(),
            old(db).next_session_id < i32::MAX,
        ensures
            final(db).wf(),
            final(store).wf(),
            final(store).next_key == old(store).next_key + 1,
            r matches Ok(n) && n == 1,
            final(cookies).cookie matches Some(key)
                && key == old(store).next_key
                && !old(store).contents().dom().contains(key)
                && !stripped_contents(*old(cookies), old(store).contents()).dom().contains(key)
                && final(store).contents() == stripped_contents(
                    *old(cookies),
                    old(store).contents(),
                ).insert(key, SessionPayload::Identity(user))
                && final(db).sessions@.len() == old(db).sessions@.len() + 1
                && final(db).sessions@.last().redis_key == key,
            forall|k: int| 0 <= k < old(db).sessions@.len()
                ==> final(db).sessions@[k] == old(db).sessions@[k],
            final(db).sessions@.last().id == old(db).next_session_id,
            final(db).sessions@.last().user_id == user.id,
            final(db).sessions@.last()@.data == ua.0@,
            final(db).next_session_id == old(db).next_session_id + 1,
            crate::db::same_but_sessions(*old(db), *final(db)),
    {
        let user_id = user.id;
        let redis_key = set_user(cookies, store, user);
        let new_session = NewSession {
            redis_key,
            established: clock_now(),
            data: ua.0,
        };
        let insertable = InsertableSession::new(new_session, user_id);
        let row = SessionRecord {
            id: db.next_session_id,
            user_id: insertable.user_id,
            redis_key: insertable.redis_key,
            established: insertable.established,
            data: insertable.data,
        };
        db.sessions.push(row);
        db.next_session_id = db.next_session_id + 1;
        Ok(1)
    }
}

} // verus!
