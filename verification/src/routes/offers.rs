use vstd::prelude::*;

use crate::db::models::booking::booking_allowed;
use crate::db::models::booking::bookings_of_offer;
use crate::db::models::booking::Booking;
use crate::db::models::flight::flight_row;
use crate::db::models::flight::occupancy_row;
use crate::db::models::flight::offer_flights;
use crate::db::models::flight::valid_new_flight;
use crate::db::models::flight::valid_new_offer;
use crate::db::models::flight::views_of_flights;
use crate::db::models::flight::Flight;
use crate::db::models::flight::FlightOffer;
use crate::db::models::flight::FlightOfferWithOccupancy;
use crate::db::models::flight::NewFlight;
use crate::db::models::flight::NewFlightOffer;
use crate::db::models::flight::NewFlightView;
use crate::db::models::role::AdminRole;
use crate::db::models::user::AuthUser;
use crate::db::Db;
use crate::routes::error;
use crate::routes::ApiResult;
use crate::routes::HttpStatus;

verus! {

/// Creates a flight offer, for administrators. Rejects an offer out of
/// range as a client error; otherwise persists it under a fresh id and
/// hands the persisted row back.
pub fn create_offer(_r: AdminRole, db: &mut Db, new_offer: NewFlightOffer)
    -> (r: ApiResult<FlightOffer>)
    requires
        old(db).wf(),
        old(db).next_offer_id < i32::MAX,
    ensures
        final(db).wf(),
        !valid_new_offer(new_offer) ==> (r matches Err(e)
            && e.status == HttpStatus::BadRequest && *final(db) == *old(db)),
        valid_new_offer(new_offer) ==> (r matches Ok(o)
            && o == (FlightOffer {
                id: old(db).next_offer_id,
                seats: new_offer.seats,
                price: new_offer.price,
                currency: new_offer.currency,
            })
            && final(db).flights_offers@ == old(db).flights_offers@.push(o)
            && final(db).next_offer_id == old(db).next_offer_id + 1
            && final(db).bookings@ == old(db).bookings@
            && final(db).flights@ == old(db).flights@),
{
    match new_offer.is_valid() {
        Ok(()) => (),
        Err(e) => {
            return Err(e);
        },
    }
    match FlightOffer::save(db, new_offer) {
        Ok(_) => (),
        Err(_) => {
            return Err(error(HttpStatus::InternalServerError, ""));
        },
    }
    match FlightOffer::last_inserted(db) {
        Some(o) => {
            proof {
                let offers = db.flights_offers@;
                let n = offers.len() - 1;
                assert(offers[n].id == old(db).next_offer_id);
                assert forall|i: int| 0 <= i < offers.len()
                    implies (#[trigger] offers[i]).id <= offers[n].id by {
                    if i < n {
                        assert(offers[i] == old(db).flights_offers@[i]);
                    }
                }
                let w = choose|i: int| 0 <= i < offers.len() && offers[i] == o;
                assert(offers[w].id <= offers[n].id);
            }
            Ok(o)
        },
        None => Err(error(HttpStatus::InternalServerError, "")),
    }
}

/// Reads all offers with their current occupancy, for authenticated users.
pub fn read_offer(_actor: AuthUser, db: &Db) -> (r: ApiResult<Vec<FlightOfferWithOccupancy>>)
    requires
        db.wf(),
    ensures
        r matches Ok(v) && v@.len() == db.flights_offers@.len()
            && forall|k: int| 0 <= k < v@.len()
                ==> v@[k] == occupancy_row(#[trigger] db.flights_offers@[k], db.bookings@),
{
    Ok(FlightOfferWithOccupancy::get_all(db))
}

/// Reads the raw offer rows, for administrators.
pub fn read_offer_raw(_r: AdminRole, db: &Db) -> (r: ApiResult<Vec<FlightOffer>>)
    ensures
        r matches Ok(v) && v@ == db.flights_offers@,
{
    Ok(FlightOffer::get_all(db))
}

/// Books seats of an offer for the requesting actor, enforcing the capacity
/// invariant and the one-reservation-per-user-and-offer key.
pub fn create_offer_booking(actor: AuthUser, db: &mut Db, id: i32, seats: i32)
    -> (r: ApiResult<()>)
    requires
        old(db).wf(),
    ensures
        final(db).wf(),
        booking_allowed(old(db).flights_offers@, old(db).bookings@, actor.id, id, seats)
            ==> (r matches Ok(())
            && final(db).bookings@ == old(db).bookings@.push(
                Booking { user_id: actor.id, offer_id: id, seats },
            )),
        !booking_allowed(old(db).flights_offers@, old(db).bookings@, actor.id, id, seats)
            ==> (r is Err && *final(db) == *old(db)),
        seats >= 1 && !crate::db::has_offer(old(db).flights_offers@, id)
            ==> (r matches Err(e) && e.status == HttpStatus::NotFound),
        seats < 1 || (crate::db::has_offer(old(db).flights_offers@, id)
            && !booking_allowed(old(db).flights_offers@, old(db).bookings@, actor.id, id, seats))
            ==> (r matches Err(e) && e.status == HttpStatus::BadRequest),
{
    Booking::create(db, actor.id, id, seats)
}

/// Reads the bookings of an offer, for administrators.
pub fn read_offer_bookings(_r: AdminRole, db: &Db, id: i32) -> (r: ApiResult<Vec<Booking>>)
    ensures
        r matches Ok(v) && v@ == bookings_of_offer(db.bookings@, id, db.bookings@.len() as int),
{
    Ok(Booking::all_from_offer(db, id))
}

/// Reads the flights of an offer, for authenticated users.
pub fn read_flights(_actor: AuthUser, db: &Db, id: i32) -> (r: ApiResult<Vec<Flight>>)
    ensures
        r matches Ok(v) && views_of_flights(v@) == offer_flights(
            db.flights@,
            id,
            db.flights@.len() as int,
        ),
{
    Ok(Flight::all_from_offer(db, id))
}

/// The departure of each flight in the chain succeeds what came before it:
/// the arrival of the previous flight, or the epoch for the first flight.
pub open spec fn chain_prev(fs: Seq<NewFlightView>, n: int) -> i64 {
    if n <= 0 {
        0
    } else {
        fs[n - 1].arrival_time
    }
}

/// The first `n` flights form a forward chain: each departs after the
/// arrival of the one before it.
pub open spec fn chain_ok(fs: Seq<NewFlightView>, n: int) -> bool
    decreases n,
{
    if n <= 0 {
        true
    } else {
        chain_ok(fs, n - 1) && fs[n - 1].departure_time > chain_prev(fs, n - 1)
    }
}

/// The mathematical values of a sequence of submitted flights.
pub open spec fn views_of_new_flights(fs: Seq<NewFlight>) -> Seq<NewFlightView> {
    fs.map_values(|f: NewFlight| f@)
}

/// Attaches a chain of flights to an offer, for administrators. Rejects the
/// submission as a client error unless every flight is well formed and the
/// chain is ordered; otherwise persists one row per flight, in order, under
/// fresh ids.
pub fn create_flights(_r: AdminRole, db: &mut Db, id: i32, new_flights: Vec<NewFlight>)
    -> (r: ApiResult<()>)
    requires
        old(db).wf(),
        old(db).next_flight_id as int + new_flights@.len() <= i32::MAX as int,
    ensures
        final(db).wf(),
        ({
            let fs = views_of_new_flights(new_flights@);
            &&& (r matches Ok(()) <==> (chain_ok(fs, fs.len() as int)
                && forall|k: int| 0 <= k < fs.len() ==> valid_new_flight(#[trigger] fs[k])))
            &&& (r matches Err(e) ==> e.status == HttpStatus::BadRequest
                && *final(db) == *old(db))
            &&& (r matches Ok(()) ==> final(db).flights@.len() == old(db).flights@.len()
                + fs.len()
                && (forall|k: int| 0 <= k < old(db).flights@.len()
                    ==> final(db).flights@[k] == old(db).flights@[k])
                && (forall|k: int| 0 <= k < fs.len()
                    ==> (#[trigger] final(db).flights@[old(db).flights@.len() + k])@
                        == flight_row(fs[k], id, (old(db).next_flight_id + k) as i32))
                && final(db).flights_offers@ == old(db).flights_offers@
                && final(db).bookings@ == old(db).bookings@)
        }),
{
    let ghost fs = views_of_new_flights(new_flights@);
    let mut prev_time: i64 = 0;
    let mut i: usize = 0;
    while i < new_flights.len()
        invariant
            i <= new_flights@.len(),
            fs == views_of_new_flights(new_flights@),
            old(db).wf(),
            old(db).next_flight_id as int + new_flights@.len() <= i32::MAX as int,
            *db == *old(db),
            chain_ok(fs, i as int),
            prev_time == chain_prev(fs, i as int),
            forall|k: int| 0 <= k < i ==> valid_new_flight(#[trigger] fs[k]),
        decreases new_flights@.len() - i,
    {
        let flight = &new_flights[i];
        if flight.departure_time > prev_time {
            prev_time = flight.arrival_time;
        } else {
            proof {
                assert(!chain_ok(fs, fs.len() as int)) by {
                    lemma_chain_ok_prefix(fs, i + 1 as int, fs.len() as int);
                }
            }
            return Err(error(
                HttpStatus::BadRequest,
                "Departure of a flight must succeed arrival of previous flight",
            ));
        }
        match flight.is_valid() {
            Ok(()) => (),
            Err(e) => {
                proof {
                    assert(fs[i as int] == new_flights@[i as int]@);
                }
                return Err(e);
            },
        }
        i = i + 1;
    }
    match FlightOffer::save_flights(db, id, new_flights) {
        Ok(_) => Ok(()),
        Err(_) => Err(error(HttpStatus::InternalServerError, "")),
    }
}

/// A failed chain check in a prefix fails the whole chain.
proof fn lemma_chain_ok_prefix(fs: Seq<NewFlightView>, n: int, m: int)
    requires
        0 <= n <= m,
        !chain_ok(fs, n),
    ensures
        !chain_ok(fs, m),
    decreases m,
{
    if n < m {
        lemma_chain_ok_prefix(fs, n, m - 1);
    }
}

} // verus!
