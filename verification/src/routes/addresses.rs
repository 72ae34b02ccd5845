use vstd::prelude::*;

use crate::db::models::address::address_row_view;
use crate::db::models::address::user_addresses;
use crate::db::models::address::views_of_addresses;
use crate::db::models::address::Address;
use crate::db::models::address::NewAddress;
use crate::db::models::user::AuthUser;
use crate::db::Db;
use crate::oso::policy_allows;
use crate::oso::OsoAction;
use crate::oso::OsoArc;
use crate::routes::error;
use crate::routes::ApiResult;
use crate::routes::HttpStatus;

verus! {

/// Creates an address owned by user `id`, if the actor may create resources
/// owned by that user. The check runs against a placeholder row carrying
/// only the ownership key, since the row does not exist yet; the placeholder
/// decides exactly as a real row owned by the same user would.
pub fn create(
    oso: &OsoArc,
    actor: AuthUser,
    db: &mut Db,
    id: i32,
    new_addr: NewAddress,
) -> (r: ApiResult<()>)
    requires
        old(db).wf(),
        old(db).next_address_id < i32::MAX,
    ensures
        final(db).wf(),
        !policy_allows(*oso, actor, OsoAction::Create, id) ==> (r matches Err(e)
            && e.status == HttpStatus::Forbidden && *final(db) == *old(db)),
        policy_allows(*oso, actor, OsoAction::Create, id) ==> (r matches Ok(())
            && final(db).addresses@.len() == old(db).addresses@.len() + 1
            && (forall|k: int| 0 <= k < old(db).addresses@.len()
                ==> final(db).addresses@[k] == old(db).addresses@[k])
            && final(db).addresses@.last()@ == address_row_view(
                new_addr@,
                old(db).next_address_id,
                id,
            )
            && crate::db::same_but_addresses(*old(db), *final(db))),
{
    if oso.is_allowed(actor, OsoAction::Create, Address::dummy_for_user(id)) {
        match Address::save(db, id, new_addr) {
            Ok(_) => Ok(()),
            Err(_) => Err(error(HttpStatus::InternalServerError, "")),
        }
    } else {
        Err(error(HttpStatus::Forbidden, "Forbidden"))
    }
}

/// Reads the addresses owned by user `id`, if the actor may read resources
/// owned by that user.
pub fn read(oso: &OsoArc, actor: AuthUser, db: &Db, id: i32) -> (r: ApiResult<Vec<Address>>)
    ensures
        !policy_allows(*oso, actor, OsoAction::Read, id) ==> (r matches Err(e)
            && e.status == HttpStatus::Forbidden),
        policy_allows(*oso, actor, OsoAction::Read, id) ==> (r matches Ok(v)
            && views_of_addresses(v@) == user_addresses(
                db.addresses@,
                id,
                db.addresses@.len() as int,
            )),
{
    if oso.is_allowed(actor, OsoAction::Read, Address::dummy_for_user(id)) {
        Ok(Address::all_from_user(db, id))
    } else {
        Err(error(HttpStatus::Forbidden, "Forbidden"))
    }
}

} // verus!
