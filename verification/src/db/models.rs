pub mod address;
pub mod booking;
pub mod flight;
pub mod github_oauth_user;
pub mod role;
pub mod session;
pub mod user;

use vstd::prelude::*;

verus! {

/// A failure of the storage layer. The in-memory storage never fails, so no
/// write of this crate returns it; the type keeps the write results honest
/// about their shape.
pub struct DbError {}

/// The result of a storage write: the number of rows written.
pub type DbResult = Result<usize, DbError>;

} // verus!
