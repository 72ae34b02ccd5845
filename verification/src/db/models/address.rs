use vstd::prelude::*;

use crate::db::models::DbResult;
use crate::db::Db;
use crate::oso::OwnedResource;

verus! {

/// An address as submitted by a client.
pub struct NewAddress {
    pub country: String,
    pub postal_code: i32,
    pub town: String,
    pub street: String,
    pub house_number: i32,
}

/// The mathematical value of a submitted address.
#[verifier::ext_equal]
pub ghost struct NewAddressView {
    pub country: Seq<char>,
    pub postal_code: i32,
    pub town: Seq<char>,
    pub street: Seq<char>,
    pub house_number: i32,
}

impl View for NewAddress {
    type V = NewAddressView;

    open spec fn view(&self) -> NewAddressView {
        NewAddressView {
            country: self.country@,
            postal_code: self.postal_code,
            town: self.town@,
            street: self.street@,
            house_number: self.house_number,
        }
    }
}

impl Clone for NewAddress {
    fn clone(&self) -> (r: Self)
        ensures
            r@ == self@,
    {
        NewAddress {
            country: self.country.clone(),
            postal_code: self.postal_code,
            town: self.town.clone(),
            street: self.street.clone(),
            house_number: self.house_number,
        }
    }
}

/// An address row ready for insertion, bound to its owning user.
pub struct InsertableAddress {
    pub user_id: i32,
    pub country: String,
    pub postal_code: i32,
    pub town: String,
    pub street: String,
    pub house_number: i32,
}

impl InsertableAddress {
    /// Binds a submitted address to its owning user.
    pub fn new(addr: NewAddress, user_id: i32) -> (r: InsertableAddress)
        ensures
            r.user_id == user_id,
            r.country@ == addr@.country,
            r.postal_code == addr.postal_code,
            r.town@ == addr@.town,
            r.street@ == addr@.street,
            r.house_number == addr.house_number,
    {
        InsertableAddress {
            user_id,
            country: addr.country,
            postal_code: addr.postal_code,
            town: addr.town,
            street: addr.street,
            house_number: addr.house_number,
        }
    }
}

/// A persistent address row. Its ownership attribute is `user_id`.
pub struct Address {
    pub id: i32,
    pub user_id: i32,
    pub country: String,
    pub postal_code: i32,
    pub town: String,
    pub street: String,
    pub house_number: i32,
}

/// The mathematical value of an address row.
#[verifier::ext_equal]
pub ghost struct AddressView {
    pub id: i32,
    pub user_id: i32,
    pub country: Seq<char>,
    pub postal_code: i32,
    pub town: Seq<char>,
    pub street: Seq<char>,
    pub house_number: i32,
}

impl View for Address {
    type V = AddressView;

    open spec fn view(&self) -> AddressView {
        AddressView {
            id: self.id,
            user_id: self.user_id,
            country: self.country@,
            postal_code: self.postal_code,
            town: self.town@,
            street: self.street@,
            house_number: self.house_number,
        }
    }
}

impl Clone for Address {
    fn clone(&self) -> (r: Self)
        ensures
            r@ == self@,
    {
        Address {
            id: self.id,
            user_id: self.user_id,
            country: self.country.clone(),
            postal_code: self.postal_code,
            town: self.town.clone(),
            street: self.street.clone(),
            house_number: self.house_number,
        }
    }
}

impl OwnedResource for Address {
    open spec fn owner_key_spec(&self) -> i32 {
        self.user_id
    }

    fn owner_key(&self) -> (k: i32)
        ensures
            k == self.owner_key_spec(),
    {
        self.user_id
    }
}

impl Address {
    /// A zero-valued address row carrying only the ownership key. The policy
    /// engine reads nothing else, so it decides on it exactly as on a real
    /// row owned by the same user.
    pub fn dummy_for_user(user_id: i32) -> (a: Address)
        ensures
            a.user_id == user_id,
            a.id == 0,
            a@.country.len() == 0,
            a.postal_code == 0,
            a@.town.len() == 0,
            a@.street.len() == 0,
            a.house_number == 0,
    {
        Address {
            id: 0,
            user_id,
            country: String::new(),
            postal_code: 0,
            town: String::new(),
            street: String::new(),
            house_number: 0,
        }
    }

    /// Reads all address rows owned by the given user, in insertion order.
    pub fn all_from_user(db: &Db, user_id: i32) -> (r: Vec<Address>)
        ensures
            views_of_addresses(r@) == user_addresses(
                db.addresses@,
                user_id,
                db.addresses@.len() as int,
            ),
    {
        let mut out: Vec<Address> = Vec::new();
        let mut i: usize = 0;
        while i < db.addresses.len()
            invariant
                i <= db.addresses@.len(),
                views_of_addresses(out@) == user_addresses(db.addresses@, user_id, i as int),
            decreases db.addresses@.len() - i,
        {
            if db.addresses[i].user_id == user_id {
                out.push(db.addresses[i].clone());
            }
            proof {
                assert(views_of_addresses(out@) =~= user_addresses(
                    db.addresses@,
                    user_id,
                    i + 1 as int,
                ));
            }
            i = i + 1;
        }
        out
    }

    /// Persists a submitted address as a new row under a fresh id, owned by
    /// the given user.
    pub fn save(db: &mut Db, user_id: i32, new_addr: NewAddress) -> (r: DbResult)
        requires
            old(db).wf(),
            old(db).next_address_id < i32::MAX,
        ensures
            final(db).wf(),
            r matches Ok(n) && n == 1,
            final(db).addresses@.len() == old(db).addresses@.len() + 1,
            forall|k: int| 0 <= k < old(db).addresses@.len()
                ==> final(db).addresses@[k] == old(db).addresses@[k],
            final(db).addresses@.last()@ == address_row_view(
                new_addr@,
                old(db).next_address_id,
                user_id,
            ),
            final(db).next_address_id == old(db).next_address_id + 1,
            crate::db::same_but_addresses(*old(db), *final(db)),
    {
        let insertable = InsertableAddress::new(new_addr, user_id);
        let row = Address {
            id: db.next_address_id,
            user_id: insertable.user_id,
            country: insertable.country,
            postal_code: insertable.postal_code,
            town: insertable.town,
            street: insertable.street,
            house_number: insertable.house_number,
        };
        db.addresses.push(row);
        db.next_address_id = db.next_address_id + 1;
        Ok(1)
    }
}

/// The address row that persisting a submitted address under a given id for
/// a given owner produces.
pub open spec fn address_row_view(a: NewAddressView, id: i32, user_id: i32) -> AddressView {
    AddressView {
        id,
        user_id,
        country: a.country,
        postal_code: a.postal_code,
        town: a.town,
        street: a.street,
        house_number: a.house_number,
    }
}

/// The mathematical values of a sequence of address rows.
pub open spec fn views_of_addresses(rows: Seq<Address>) -> Seq<AddressView> {
    rows.map_values(|a: Address| a@)
}

/// The values of the addresses among the first `n` rows that the given user
/// owns, in order.
pub open spec fn user_addresses(rows: Seq<Address>, user_id: i32, n: int) -> Seq<AddressView>
    decreases n,
{
    if n <= 0 {
        Seq::empty()
    } else if rows[n - 1].user_id == user_id {
        user_addresses(rows, user_id, n - 1).push(rows[n - 1]@)
    } else {
        user_addresses(rows, user_id, n - 1)
    }
}

} // verus!
