pub mod models;

use vstd::prelude::*;

use crate::db::models::address::Address;
use crate::db::models::booking::occupied_seats;
use crate::db::models::booking::Booking;
use crate::db::models::flight::Flight;
use crate::db::models::flight::FlightOffer;
use crate::db::models::github_oauth_user::GitHubOAuthUser;
use crate::db::models::role::UserRole;
use crate::db::models::session::SessionRecord;
use crate::db::models::user::User;

verus! {

/// The persistent storage: one table per entity, with the id counters the
/// storage assigns rows from. Methods take it by exclusive reference, so a
/// check-then-act sequence such as the booking capacity check runs
/// serialized against it.
pub struct Db {
    pub users: Vec<User>,
    pub next_user_id: i32,
    pub users_roles: Vec<UserRole>,
    pub users_oauth_github: Vec<GitHubOAuthUser>,
    pub addresses: Vec<Address>,
    pub next_address_id: i32,
    pub sessions: Vec<SessionRecord>,
    pub next_session_id: i32,
    pub flights_offers: Vec<FlightOffer>,
    pub next_offer_id: i32,
    pub flights: Vec<Flight>,
    pub next_flight_id: i32,
    pub bookings: Vec<Booking>,
}

/// Some offer row carries the given id.
pub open spec fn has_offer(offers: Seq<FlightOffer>, offer_id: i32) -> bool {
    exists|i: int| 0 <= i < offers.len() && #[trigger] offers[i].id == offer_id
}

/// The index of the offer row carrying the given id; meaningful under
/// `has_offer` and distinct ids.
pub open spec fn offer_index(offers: Seq<FlightOffer>, offer_id: i32) -> int {
    choose|i: int| 0 <= i < offers.len() && #[trigger] offers[i].id == offer_id
}

/// The offer row carrying the given id; meaningful under `has_offer` and
/// distinct ids.
pub open spec fn offer_at(offers: Seq<FlightOffer>, offer_id: i32) -> FlightOffer {
    offers[offer_index(offers, offer_id)]
}

/// The offer ids are pairwise distinct.
pub open spec fn unique_offer_ids(offers: Seq<FlightOffer>) -> bool {
    forall|i: int, j: int| 0 <= i < j < offers.len()
        ==> (#[trigger] offers[i]).id != (#[trigger] offers[j]).id
}

/// With distinct ids, any offer row carrying the id is the row `offer_at`
/// names.
pub proof fn lemma_offer_at(offers: Seq<FlightOffer>, offer_id: i32)
    requires
        unique_offer_ids(offers),
        has_offer(offers, offer_id),
    ensures
        0 <= offer_index(offers, offer_id) < offers.len(),
        offer_at(offers, offer_id).id == offer_id,
        forall|i: int| 0 <= i < offers.len() && (#[trigger] offers[i]).id == offer_id
            ==> i == offer_index(offers, offer_id),
{
    let w = offer_index(offers, offer_id);
    assert forall|i: int| 0 <= i < offers.len() && (#[trigger] offers[i]).id == offer_id
        implies i == w by {
        if i < w {
            assert(offers[i].id != offers[w].id);
        } else if w < i {
            assert(offers[w].id != offers[i].id);
        }
    }
}

/// Two storage states that agree on everything but the booking table.
pub open spec fn same_but_bookings(a: Db, b: Db) -> bool {
    &&& a.users@ == b.users@
    &&& a.next_user_id == b.next_user_id
    &&& a.users_roles@ == b.users_roles@
    &&& a.users_oauth_github@ == b.users_oauth_github@
    &&& a.addresses@ == b.addresses@
    &&& a.next_address_id == b.next_address_id
    &&& a.sessions@ == b.sessions@
    &&& a.next_session_id == b.next_session_id
    &&& a.flights_offers@ == b.flights_offers@
    &&& a.next_offer_id == b.next_offer_id
    &&& a.flights@ == b.flights@
    &&& a.next_flight_id == b.next_flight_id
}

/// Two storage states that agree on everything but the user table and its
/// counter.
pub open spec fn same_but_users(a: Db, b: Db) -> bool {
    &&& a.users_roles@ == b.users_roles@
    &&& a.users_oauth_github@ == b.users_oauth_github@
    &&& a.addresses@ == b.addresses@
    &&& a.next_address_id == b.next_address_id
    &&& a.sessions@ == b.sessions@
    &&& a.next_session_id == b.next_session_id
    &&& a.flights_offers@ == b.flights_offers@
    &&& a.next_offer_id == b.next_offer_id
    &&& a.flights@ == b.flights@
    &&& a.next_flight_id == b.next_flight_id
    &&& a.bookings@ == b.bookings@
}

/// Two storage states that agree on everything but the role table.
pub open spec fn same_but_users_roles(a: Db, b: Db) -> bool {
    &&& a.users@ == b.users@
    &&& a.next_user_id == b.next_user_id
    &&& a.users_oauth_github@ == b.users_oauth_github@
    &&& a.addresses@ == b.addresses@
    &&& a.next_address_id == b.next_address_id
    &&& a.sessions@ == b.sessions@
    &&& a.next_session_id == b.next_session_id
    &&& a.flights_offers@ == b.flights_offers@
    &&& a.next_offer_id == b.next_offer_id
    &&& a.flights@ == b.flights@
    &&& a.next_flight_id == b.next_flight_id
    &&& a.bookings@ == b.bookings@
}

/// Two storage states that agree on everything but the OAuth link table.
pub open spec fn same_but_oauth_links(a: Db, b: Db) -> bool {
    &&& a.users@ == b.users@
    &&& a.next_user_id == b.next_user_id
    &&& a.users_roles@ == b.users_roles@
    &&& a.addresses@ == b.addresses@
    &&& a.next_address_id == b.next_address_id
    &&& a.sessions@ == b.sessions@
    &&& a.next_session_id == b.next_session_id
    &&& a.flights_offers@ == b.flights_offers@
    &&& a.next_offer_id == b.next_offer_id
    &&& a.flights@ == b.flights@
    &&& a.next_flight_id == b.next_flight_id
    &&& a.bookings@ == b.bookings@
}

/// Two storage states that agree on everything but the address table and its
/// counter.
pub open spec fn same_but_addresses(a: Db, b: Db) -> bool {
    &&& a.users@ == b.users@
    &&& a.next_user_id == b.next_user_id
    &&& a.users_roles@ == b.users_roles@
    &&& a.users_oauth_github@ == b.users_oauth_github@
    &&& a.sessions@ == b.sessions@
    &&& a.next_session_id == b.next_session_id
    &&& a.flights_offers@ == b.flights_offers@
    &&& a.next_offer_id == b.next_offer_id
    &&& a.flights@ == b.flights@
    &&& a.next_flight_id == b.next_flight_id
    &&& a.bookings@ == b.bookings@
}

/// Two storage states that agree on everything but the session table and its
/// counter.
pub open spec fn same_but_sessions(a: Db, b: Db) -> bool {
    &&& a.users@ == b.users@
    &&& a.next_user_id == b.next_user_id
    &&& a.users_roles@ == b.users_roles@
    &&& a.users_oauth_github@ == b.users_oauth_github@
    &&& a.addresses@ == b.addresses@
    &&& a.next_address_id == b.next_address_id
    &&& a.flights_offers@ == b.flights_offers@
    &&& a.next_offer_id == b.next_offer_id
    &&& a.flights@ == b.flights@
    &&& a.next_flight_id == b.next_flight_id
    &&& a.bookings@ == b.bookings@
}

impl Db {
    /// User ids were assigned by the counter and are pairwise distinct.
    pub open spec fn users_wf(&self) -> bool {
        &&& forall|i: int| 0 <= i < self.users@.len()
            ==> (#[trigger] self.users@[i]).id < self.next_user_id
        &&& forall|i: int, j: int| 0 <= i < j < self.users@.len()
            ==> (#[trigger] self.users@[i]).id != (#[trigger] self.users@[j]).id
    }

    /// Address ids were assigned by the counter and are pairwise distinct.
    pub open spec fn addresses_wf(&self) -> bool {
        &&& forall|i: int| 0 <= i < self.addresses@.len()
            ==> (#[trigger] self.addresses@[i]).id < self.next_address_id
        &&& forall|i: int, j: int| 0 <= i < j < self.addresses@.len()
            ==> (#[trigger] self.addresses@[i]).id != (#[trigger] self.addresses@[j]).id
    }

    /// Session ids were assigned by the counter and are pairwise distinct.
    pub open spec fn sessions_wf(&self) -> bool {
        &&& forall|i: int| 0 <= i < self.sessions@.len()
            ==> (#[trigger] self.sessions@[i]).id < self.next_session_id
        &&& forall|i: int, j: int| 0 <= i < j < self.sessions@.len()
            ==> (#[trigger] self.sessions@[i]).id != (#[trigger] self.sessions@[j]).id
    }

    /// Offer ids were assigned by the counter and are pairwise distinct, and
    /// no offer has a negative capacity.
    pub open spec fn offers_wf(&self) -> bool {
        &&& forall|i: int| 0 <= i < self.flights_offers@.len()
            ==> (#[trigger] self.flights_offers@[i]).id < self.next_offer_id
        &&& unique_offer_ids(self.flights_offers@)
        &&& forall|i: int| 0 <= i < self.flights_offers@.len()
            ==> (#[trigger] self.flights_offers@[i]).seats >= 0
    }

    /// Flight ids were assigned by the counter.
    pub open spec fn flights_wf(&self) -> bool {
        forall|i: int| 0 <= i < self.flights@.len()
            ==> (#[trigger] self.flights@[i]).id < self.next_flight_id
    }

    /// Every booking reserves at least one seat of an existing offer, the
    /// rows are keyed by (user id, offer id), and no offer's occupancy
    /// exceeds its capacity: the capacity invariant.
    pub open spec fn bookings_wf(&self) -> bool {
        &&& forall|i: int| 0 <= i < self.bookings@.len()
            ==> (#[trigger] self.bookings@[i]).seats >= 1
        &&& forall|i: int| 0 <= i < self.bookings@.len()
            ==> has_offer(self.flights_offers@, (#[trigger] self.bookings@[i]).offer_id)
        &&& forall|i: int, j: int| 0 <= i < j < self.bookings@.len()
            ==> ((#[trigger] self.bookings@[i]).user_id != (#[trigger] self.bookings@[j]).user_id
                || self.bookings@[i].offer_id != self.bookings@[j].offer_id)
        &&& forall|i: int| 0 <= i < self.flights_offers@.len()
            ==> occupied_seats(self.bookings@, (#[trigger] self.flights_offers@[i]).id)
                <= self.flights_offers@[i].seats
    }

    /// The storage invariant.
    pub open spec fn wf(&self) -> bool {
        &&& self.users_wf()
        &&& self.addresses_wf()
        &&& self.sessions_wf()
        &&& self.offers_wf()
        &&& self.flights_wf()
        &&& self.bookings_wf()
    }

    /// An empty storage.
    pub fn new() -> (db: Db)
        ensures
            db.wf(),
            db.users@.len() == 0,
            db.users_roles@.len() == 0,
            db.users_oauth_github@.len() == 0,
            db.addresses@.len() == 0,
            db.sessions@.len() == 0,
            db.flights_offers@.len() == 0,
            db.flights@.len() == 0,
            db.bookings@.len() == 0,
    {
        Db {
            users: Vec::new(),
            next_user_id: 1,
            users_roles: Vec::new(),
            users_oauth_github: Vec::new(),
            addresses: Vec::new(),
            next_address_id: 1,
            sessions: Vec::new(),
            next_session_id: 1,
            flights_offers: Vec::new(),
            next_offer_id: 1,
            flights: Vec::new(),
            next_flight_id: 1,
            bookings: Vec::new(),
        }
    }

    /// Reads the offer row carrying the given id.
    pub fn find_offer(&self, offer_id: i32) -> (r: Option<FlightOffer>)
        requires
            self.offers_wf(),
        ensures
            has_offer(self.flights_offers@, offer_id)
                ==> r == Some(offer_at(self.flights_offers@, offer_id)),
            !has_offer(self.flights_offers@, offer_id) ==> r is None,
    {
        let offers = &self.flights_offers;
        let mut i: usize = 0;
        while i < offers.len()
            invariant
                i <= offers@.len(),
                self.offers_wf(),
                offers@ == self.flights_offers@,
                forall|j: int| 0 <= j < i ==> (#[trigger] offers@[j]).id != offer_id,
            decreases offers@.len() - i,
        {
            let o = offers[i];
            if o.id == offer_id {
                proof {
                    assert(has_offer(offers@, offer_id));
                    lemma_offer_at(offers@, offer_id);
                }
                return Some(o);
            }
            i = i + 1;
        }
        proof {
            assert(!has_offer(offers@, offer_id));
        }
        None
    }

    /// The occupancy of an offer under the storage invariant is between zero
    /// and the largest capacity a row can hold.
    pub proof fn lemma_occupied_bounded(&self, offer_id: i32)
        requires
            self.wf(),
        ensures
            0 <= occupied_seats(self.bookings@, offer_id) <= i32::MAX as int,
    {
        crate::db::models::booking::lemma_occupied_prefix_le(
            self.bookings@,
            offer_id,
            0,
            self.bookings@.len() as int,
        );
        if has_offer(self.flights_offers@, offer_id) {
            lemma_offer_at(self.flights_offers@, offer_id);
            let k = offer_index(self.flights_offers@, offer_id);
            assert(occupied_seats(self.bookings@, self.flights_offers@[k].id)
                <= self.flights_offers@[k].seats);
        } else {
            assert forall|i: int| 0 <= i < self.bookings@.len()
                implies (#[trigger] self.bookings@[i]).offer_id != offer_id by {
                assert(has_offer(self.flights_offers@, self.bookings@[i].offer_id));
            }
            crate::db::models::booking::lemma_occupied_absent(
                self.bookings@,
                offer_id,
                self.bookings@.len() as int,
            );
        }
    }

    /// Sums the seats of all bookings referencing the given offer: the
    /// offer's current occupancy, recomputed from the rows.
    pub fn sum_booked_seats(&self, offer_id: i32) -> (r: i64)
        requires
            self.wf(),
        ensures
            r == occupied_seats(self.bookings@, offer_id),
    {
        let ghost bs = self.bookings@;
        proof {
            self.lemma_occupied_bounded(offer_id);
        }
        let mut acc: i64 = 0;
        let mut i: usize = 0;
        while i < self.bookings.len()
            invariant
                i <= bs.len(),
                bs == self.bookings@,
                self.wf(),
                acc == crate::db::models::booking::occupied_prefix(bs, offer_id, i as int),
                0 <= occupied_seats(bs, offer_id) <= i32::MAX as int,
            decreases bs.len() - i,
        {
            let b = self.bookings[i];
            proof {
                crate::db::models::booking::lemma_occupied_prefix_le(
                    bs,
                    offer_id,
                    i + 1 as int,
                    bs.len() as int,
                );
                crate::db::models::booking::lemma_occupied_prefix_le(bs, offer_id, 0, i + 1 as int);
            }
            if b.offer_id == offer_id {
                acc = acc + (b.seats as i64);
            }
            i = i + 1;
        }
        acc
    }
}

} // verus!
