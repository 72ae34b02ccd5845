use vstd::prelude::*;

use crate::db::models::session::has_session_row;
use crate::db::models::session::session_row_at;
use crate::db::models::session::sessions_retained;
use crate::db::models::session::user_sessions;
use crate::db::models::session::views_of_sessions;
use crate::db::models::session::Session;
use crate::db::models::user::AuthUser;
use crate::db::Db;
use crate::oso::policy_allows;
use crate::oso::OsoAction;
use crate::oso::OsoArc;
use crate::routes::error;
use crate::routes::ApiResult;
use crate::routes::HttpStatus;
use crate::session::SessionStore;

verus! {

/// Reads the session rows owned by user `user_id`, if the actor may read
/// resources owned by that user. The check runs against a placeholder row
/// carrying only the ownership key.
pub fn read(
    oso: &OsoArc,
    actor: AuthUser,
    db: &Db,
    user_id: i32,
) -> (r: ApiResult<Vec<Session>>)
    ensures
        !policy_allows(*oso, actor, OsoAction::Read, user_id) ==> (r matches Err(e)
            && e.status == HttpStatus::Forbidden),
        policy_allows(*oso, actor, OsoAction::Read, user_id) ==> (r matches Ok(v)
            && views_of_sessions(v@) == user_sessions(
                db.sessions@,
                user_id,
                db.sessions@.len() as int,
            )),
{
    if oso.is_allowed(actor, OsoAction::Read, Session::dummy_for_user(user_id)) {
        Ok(Session::all_from_user(db, user_id))
    } else {
        Err(error(HttpStatus::Forbidden, "Forbidden"))
    }
}

/// Tears the session with row id `session_id` down, if the actor may delete
/// resources owned by user `user_id`. The check runs against a placeholder
/// row carrying only the ownership key.
pub fn delete(
    oso: &OsoArc,
    actor: AuthUser,
    db: &mut Db,
    store: &mut SessionStore,
    user_id: i32,
    session_id: i32,
) -> (r: ApiResult<()>)
    requires
        old(db).wf(),
        old(store).wf(),
    ensures
        final(db).wf(),
        final(store).wf(),
        !policy_allows(*oso, actor, OsoAction::Delete, user_id) ==> (r matches Err(e)
            && e.status == HttpStatus::Forbidden
            && *final(db) == *old(db)
            && final(store).contents() == old(store).contents()),
        policy_allows(*oso, actor, OsoAction::Delete, user_id)
            && has_session_row(old(db).sessions@, session_id)
            && old(store).contents().dom().contains(
                session_row_at(old(db).sessions@, session_id).redis_key,
            ) ==> (r matches Ok(())
            && final(store).contents() == old(store).contents().remove(
                session_row_at(old(db).sessions@, session_id).redis_key,
            )
            && final(db).sessions@ == sessions_retained(
                old(db).sessions@,
                session_row_at(old(db).sessions@, session_id).redis_key,
                old(db).sessions@.len() as int,
            )),
        policy_allows(*oso, actor, OsoAction::Delete, user_id)
            && !has_session_row(old(db).sessions@, session_id) ==> (r matches Err(e)
            && e.status == HttpStatus::NotFound
            && *final(db) == *old(db)
            && final(store).contents() == old(store).contents()),
{
    if oso.is_allowed(actor, OsoAction::Delete, Session::dummy_for_user(user_id)) {
        Session::delete_by_id(db, store, session_id)
    } else {
        Err(error(HttpStatus::Forbidden, "Forbidden"))
    }
}

} // verus!
