use vstd::prelude::*;

use crate::db::Db;
use crate::db::models::flight::FlightOffer;
use crate::db::models::flight::FlightOfferWithOccupancy;
use crate::oso::OwnedResource;
use crate::routes::error;
use crate::routes::ApiResult;
use crate::routes::HttpStatus;

verus! {

/// A seat reservation: `seats` seats of offer `offer_id` held by user
/// `user_id`. Created only through `Booking::create`; never updated or
/// deleted. Its ownership attribute is `user_id`.
#[derive(Clone, Copy, Debug, PartialEq, Eq, Structural)]
pub struct Booking {
    pub user_id: i32,
    pub offer_id: i32,
    pub seats: i32,
}

impl OwnedResource for Booking {
    open spec fn owner_key_spec(&self) -> i32 {
        self.user_id
    }

    fn owner_key(&self) -> (k: i32)
        ensures
            k == self.owner_key_spec(),
    {
        self.user_id
    }
}

/// The seats of the first `n` bookings that reference `offer_id`, summed.
pub open spec fn occupied_prefix(bookings: Seq<Booking>, offer_id: i32, n: int) -> int
    decreases n,
{
    if n <= 0 {
        0
    } else {
        occupied_prefix(bookings, offer_id, n - 1) + if bookings[n - 1].offer_id == offer_id {
            bookings[n - 1].seats as int
        } else {
            0
        }
    }
}

/// The occupancy of an offer: the seats of all bookings referencing it,
/// summed. Recomputed per check, never materialized.
pub open spec fn occupied_seats(bookings: Seq<Booking>, offer_id: i32) -> int {
    occupied_prefix(bookings, offer_id, bookings.len() as int)
}

/// A prefix of the occupancy sum never exceeds a longer one when every
/// booking holds at least one seat; in particular every prefix lies between
/// zero and the full sum.
pub proof fn lemma_occupied_prefix_le(bookings: Seq<Booking>, offer_id: i32, n: int, m: int)
    requires
        0 <= n <= m <= bookings.len(),
        forall|i: int| 0 <= i < bookings.len() ==> #[trigger] bookings[i].seats >= 0,
    ensures
        0 <= occupied_prefix(bookings, offer_id, n) <= occupied_prefix(bookings, offer_id, m),
    decreases m,
{
    if m > 0 {
        if n == m {
            lemma_occupied_prefix_le(bookings, offer_id, n - 1, m - 1);
        } else {
            lemma_occupied_prefix_le(bookings, offer_id, n, m - 1);
        }
    }
}

/// Appending a booking leaves the occupancy of the first `n` rows unchanged.
proof fn lemma_occupied_prefix_push(bookings: Seq<Booking>, b: Booking, offer_id: i32, n: int)
    requires
        0 <= n <= bookings.len(),
    ensures
        occupied_prefix(bookings.push(b), offer_id, n) == occupied_prefix(
            bookings,
            offer_id,
            n,
        ),
    decreases n,
{
    if n > 0 {
        lemma_occupied_prefix_push(bookings, b, offer_id, n - 1);
        assert(bookings.push(b)[n - 1] == bookings[n - 1]);
    }
}

/// Appending a booking raises the occupancy of exactly the offer it
/// references, by exactly its seats.
pub proof fn lemma_occupied_push(bookings: Seq<Booking>, b: Booking, offer_id: i32)
    ensures
        occupied_seats(bookings.push(b), offer_id) == occupied_seats(bookings, offer_id)
            + if b.offer_id == offer_id { b.seats as int } else { 0 },
{
    lemma_occupied_prefix_push(bookings, b, offer_id, bookings.len() as int);
}

/// An offer that no booking references has occupancy zero.
pub proof fn lemma_occupied_absent(bookings: Seq<Booking>, offer_id: i32, n: int)
    requires
        0 <= n <= bookings.len(),
        forall|i: int| 0 <= i < bookings.len() ==> #[trigger] bookings[i].offer_id != offer_id,
    ensures
        occupied_prefix(bookings, offer_id, n) == 0,
    decreases n,
{
    if n > 0 {
        lemma_occupied_absent(bookings, offer_id, n - 1);
    }
}

/// Some booking row carries the given key: bookings are keyed by
/// (user id, offer id), so one user holds at most one reservation per offer.
pub open spec fn has_booking(bookings: Seq<Booking>, user_id: i32, offer_id: i32) -> bool {
    exists|i: int| 0 <= i < bookings.len()
        && (#[trigger] bookings[i]).user_id == user_id
        && bookings[i].offer_id == offer_id
}

/// A booking request is admissible when the offer exists, at least one seat
/// is asked for, the request does not exceed the remaining capacity, and the
/// user holds no reservation of this offer yet.
pub open spec fn booking_allowed(
    offers: Seq<FlightOffer>,
    bookings: Seq<Booking>,
    user_id: i32,
    offer_id: i32,
    seats: i32,
) -> bool {
    &&& crate::db::has_offer(offers, offer_id)
    &&& seats >= 1
    &&& seats as int <= crate::db::offer_at(offers, offer_id).seats
        - occupied_seats(bookings, offer_id)
    &&& !has_booking(bookings, user_id, offer_id)
}

impl Booking {
    /// A zero-valued booking row carrying only the ownership key. The policy
    /// engine reads nothing else, so it decides on it exactly as on a real
    /// row owned by the same user.
    pub fn dummy(user_id: i32) -> (b: Booking)
        ensures
            b == (Booking { user_id, offer_id: 0, seats: 0 }),
    {
        Booking { user_id, offer_id: 0, seats: 0 }
    }

    /// Persists one reservation row. Callers have already checked the
    /// capacity and the key; the row must keep the storage invariant.
    fn save(db: &mut Db, booking: Booking)
        requires
            old(db).wf(),
            booking.seats >= 1,
            booking_allowed(
                old(db).flights_offers@,
                old(db).bookings@,
                booking.user_id,
                booking.offer_id,
                booking.seats,
            ),
        ensures
            final(db).wf(),
            final(db).bookings@ == old(db).bookings@.push(booking),
            crate::db::same_but_bookings(*old(db), *final(db)),
    {
        proof {
            lemma_booking_keeps_capacity(old(db).flights_offers@, old(db).bookings@, booking);
            let bs0 = old(db).bookings@;
            let bs1 = bs0.push(booking);
            assert forall|i: int, j: int| 0 <= i < j < bs1.len()
                implies (#[trigger] bs1[i]).user_id != (#[trigger] bs1[j]).user_id
                    || bs1[i].offer_id != bs1[j].offer_id by {
                if j < bs0.len() {
                    assert(bs1[i] == bs0[i] && bs1[j] == bs0[j]);
                } else {
                    assert(bs1[j] == booking);
                    assert(bs1[i] == bs0[i]);
                    assert(!has_booking(bs0, booking.user_id, booking.offer_id));
                }
            }
        }
        db.bookings.push(booking);
    }

    /// Validates and persists a seat reservation against the offer's current
    /// occupancy. Rejects a request for less than one seat, then a request
    /// against an absent offer, then a request exceeding the remaining
    /// capacity, then a request whose (user, offer) key is already taken;
    /// otherwise exactly one row is appended. The check and the write run
    /// under one exclusive borrow of the storage, so two requests are
    /// serialized and can never both pass the check on the same state.
    pub fn create(db: &mut Db, user_id: i32, offer_id: i32, seats: i32) -> (r: ApiResult<()>)
        requires
            old(db).wf(),
        ensures
            final(db).wf(),
            seats < 1 ==> (r matches Err(e) && e.status == HttpStatus::BadRequest
                && *final(db) == *old(db)),
            seats >= 1 && !crate::db::has_offer(old(db).flights_offers@, offer_id)
                ==> (r matches Err(e) && e.status == HttpStatus::NotFound
                && *final(db) == *old(db)),
            seats >= 1 && crate::db::has_offer(old(db).flights_offers@, offer_id)
                && !booking_allowed(
                    old(db).flights_offers@,
                    old(db).bookings@,
                    user_id,
                    offer_id,
                    seats,
                ) ==> (r matches Err(e) && e.status == HttpStatus::BadRequest
                && *final(db) == *old(db)),
            booking_allowed(old(db).flights_offers@, old(db).bookings@, user_id, offer_id, seats)
                ==> (r matches Ok(())
                && final(db).bookings@ == old(db).bookings@.push(
                    Booking { user_id, offer_id, seats },
                )
                && crate::db::same_but_bookings(*old(db), *final(db))),
    {
        if seats < 1 {
            return Err(error(HttpStatus::BadRequest, "Bad number of seats"));
        }
        let offer = match FlightOfferWithOccupancy::from_offer_id(db, offer_id) {
            Some(o) => o,
            None => {
                return Err(error(HttpStatus::NotFound, "Cannot find flight offer"));
            },
        };
        proof {
            db.lemma_occupied_bounded(offer_id);
            assert(offer.occupied == occupied_seats(db.bookings@, offer_id));
            assert(offer.seats == crate::db::offer_at(db.flights_offers@, offer_id).seats);
        }
        if (seats as i64) > (offer.seats as i64) - offer.occupied {
            return Err(error(HttpStatus::BadRequest, "Bad number of seats"));
        }
        if Booking::already_booked(db, user_id, offer_id) {
            return Err(error(HttpStatus::BadRequest, "Offer already booked"));
        }
        Booking::save(db, Booking { user_id, offer_id, seats });
        Ok(())
    }

    /// Whether a booking row already carries the (user, offer) key; the
    /// executable side of `has_booking`.
    fn already_booked(db: &Db, user_id: i32, offer_id: i32) -> (r: bool)
        ensures
            r == has_booking(db.bookings@, user_id, offer_id),
    {
        let mut i: usize = 0;
        while i < db.bookings.len()
            invariant
                i <= db.bookings@.len(),
                forall|j: int| 0 <= j < i ==> ((#[trigger] db.bookings@[j]).user_id != user_id
                    || db.bookings@[j].offer_id != offer_id),
            decreases db.bookings@.len() - i,
        {
            let b = db.bookings[i];
            if b.user_id == user_id && b.offer_id == offer_id {
                proof {
                    assert(has_booking(db.bookings@, user_id, offer_id));
                }
                return true;
            }
            i = i + 1;
        }
        proof {
            assert(!has_booking(db.bookings@, user_id, offer_id));
        }
        false
    }

    /// All reservations referencing the given offer.
    pub fn all_from_offer(db: &Db, offer_id: i32) -> (r: Vec<Booking>)
        ensures
            r@ == bookings_of_offer(db.bookings@, offer_id, db.bookings@.len() as int),
    {
        let mut out: Vec<Booking> = Vec::new();
        let mut i: usize = 0;
        while i < db.bookings.len()
            invariant
                i <= db.bookings@.len(),
                out@ == bookings_of_offer(db.bookings@, offer_id, i as int),
            decreases db.bookings@.len() - i,
        {
            let b = db.bookings[i];
            if b.offer_id == offer_id {
                out.push(b);
            }
            proof {
                assert(out@ =~= bookings_of_offer(db.bookings@, offer_id, i + 1 as int));
            }
            i = i + 1;
        }
        out
    }

    /// All reservations held by the given user.
    pub fn all_from_user(db: &Db, user_id: i32) -> (r: Vec<Booking>)
        ensures
            r@ == bookings_of_user(db.bookings@, user_id, db.bookings@.len() as int),
    {
        let mut out: Vec<Booking> = Vec::new();
        let mut i: usize = 0;
        while i < db.bookings.len()
            invariant
                i <= db.bookings@.len(),
                out@ == bookings_of_user(db.bookings@, user_id, i as int),
            decreases db.bookings@.len() - i,
        {
            let b = db.bookings[i];
            if b.user_id == user_id {
                out.push(b);
            }
            proof {
                assert(out@ =~= bookings_of_user(db.bookings@, user_id, i + 1 as int));
            }
            i = i + 1;
        }
        out
    }
}

/// The bookings among the first `n` that reference the given offer, in
/// order.
pub open spec fn bookings_of_offer(bookings: Seq<Booking>, offer_id: i32, n: int) -> Seq<Booking>
    decreases n,
{
    if n <= 0 {
        Seq::empty()
    } else if bookings[n - 1].offer_id == offer_id {
        bookings_of_offer(bookings, offer_id, n - 1).push(bookings[n - 1])
    } else {
        bookings_of_offer(bookings, offer_id, n - 1)
    }
}

/// The bookings among the first `n` that the given user holds, in order.
pub open spec fn bookings_of_user(bookings: Seq<Booking>, user_id: i32, n: int) -> Seq<Booking>
    decreases n,
{
    if n <= 0 {
        Seq::empty()
    } else if bookings[n - 1].user_id == user_id {
        bookings_of_user(bookings, user_id, n - 1).push(bookings[n - 1])
    } else {
        bookings_of_user(bookings, user_id, n - 1)
    }
}

/// An admissible booking keeps the capacity invariant: after the row is
/// appended, no offer's occupancy exceeds its capacity.
pub proof fn lemma_booking_keeps_capacity(
    offers: Seq<FlightOffer>,
    bookings: Seq<Booking>,
    b: Booking,
)
    requires
        forall|i: int, j: int| 0 <= i < j < offers.len()
            ==> offers[i].id != offers[j].id,
        forall|i: int| 0 <= i < offers.len()
            ==> occupied_seats(bookings, #[trigger] offers[i].id) <= offers[i].seats,
        booking_allowed(offers, bookings, b.user_id, b.offer_id, b.seats),
    ensures
        forall|i: int| 0 <= i < offers.len()
            ==> occupied_seats(bookings.push(b), #[trigger] offers[i].id) <= offers[i].seats,
{
    let pushed = bookings.push(b);
    assert forall|i: int| 0 <= i < offers.len()
        implies occupied_seats(pushed, #[trigger] offers[i].id) <= offers[i].seats by {
        lemma_occupied_push(bookings, b, offers[i].id);
        if offers[i].id == b.offer_id {
            crate::db::lemma_offer_at(offers, b.offer_id);
            assert(offers[crate::db::offer_index(offers, b.offer_id)] == offers[i]);
        }
    }
}

/// Two requests contending for the last seat can never both succeed: with
/// one seat remaining on an offer, a one-seat booking by a user who holds
/// none yet is admissible, and after it is appended a further one-seat
/// booking on the same offer is not, whoever asks.
pub proof fn lemma_no_oversell(
    offers: Seq<FlightOffer>,
    bookings: Seq<Booking>,
    first_user: i32,
    second_user: i32,
    offer_id: i32,
)
    requires
        crate::db::has_offer(offers, offer_id),
        crate::db::offer_at(offers, offer_id).seats - occupied_seats(bookings, offer_id) == 1,
        !has_booking(bookings, first_user, offer_id),
    ensures
        booking_allowed(offers, bookings, first_user, offer_id, 1),
        !booking_allowed(
            offers,
            bookings.push(Booking { user_id: first_user, offer_id, seats: 1 }),
            second_user,
            offer_id,
            1,
        ),
{
    lemma_occupied_push(
        bookings,
        Booking { user_id: first_user, offer_id, seats: 1 },
        offer_id,
    );
}

} // verus!
