use vstd::prelude::*;

use crate::db::has_offer;
use crate::db::models::booking::occupied_seats;
use crate::db::models::DbResult;
use crate::db::offer_at;
use crate::db::Db;
use crate::routes::error;
use crate::routes::ApiResult;
use crate::routes::HttpStatus;

verus! {

/// The currency a flight offer is priced in.
#[derive(Clone, Copy, Debug, PartialEq, Eq, Structural)]
pub enum Currency {
    Dollar,
    Euro,
}

/// A flight of an offer as submitted by a client. Times are unix
/// timestamps in seconds.
pub struct NewFlight {
    pub departure_icao: String,
    pub departure_time: i64,
    pub arrival_icao: String,
    pub arrival_time: i64,
}

/// The mathematical value of a submitted flight.
#[verifier::ext_equal]
pub ghost struct NewFlightView {
    pub departure_icao: Seq<char>,
    pub departure_time: i64,
    pub arrival_icao: Seq<char>,
    pub arrival_time: i64,
}

impl View for NewFlight {
    type V = NewFlightView;

    open spec fn view(&self) -> NewFlightView {
        NewFlightView {
            departure_icao: self.departure_icao@,
            departure_time: self.departure_time,
            arrival_icao: self.arrival_icao@,
            arrival_time: self.arrival_time,
        }
    }
}

impl Clone for NewFlight {
    fn clone(&self) -> (r: Self)
        ensures
            r@ == self@,
    {
        NewFlight {
            departure_icao: self.departure_icao.clone(),
            departure_time: self.departure_time,
            arrival_icao: self.arrival_icao.clone(),
            arrival_time: self.arrival_time,
        }
    }
}

/// A well-formed airport code reference: the string ends in four ASCII
/// upper-case letters.
pub open spec fn valid_icao(s: Seq<char>) -> bool {
    &&& s.len() >= 4
    &&& forall|i: int| s.len() - 4 <= i < s.len() ==> ('A' <= #[trigger] s[i] && s[i] <= 'Z')
}

/// Relies on `regex::Regex::is_match` with the pattern `[A-Z]{4}$`: it
/// matches exactly the strings whose last four characters are ASCII
/// upper-case letters (`$` is the end of the haystack; the pattern is not
/// anchored at the start).
#[verifier::external_body]
fn matches_icao_re(s: &str) -> (r: bool)
    ensures
        r == valid_icao(s@),
{
    regex::Regex::new("[A-Z]{4}$").unwrap().is_match(s)
}

/// Arrival must happen strictly after departure.
pub open spec fn flight_times_ok(f: NewFlightView) -> bool {
    f.departure_time < f.arrival_time
}

/// Checks that arrival succeeds departure.
pub fn arrival_greater_departure(flight: &NewFlight) -> (r: bool)
    ensures
        r == flight_times_ok(flight@),
{
    flight.departure_time < flight.arrival_time
}

/// A submitted flight is accepted when both airport codes are well formed
/// and arrival succeeds departure.
pub open spec fn valid_new_flight(f: NewFlightView) -> bool {
    &&& valid_icao(f.departure_icao)
    &&& valid_icao(f.arrival_icao)
    &&& flight_times_ok(f)
}

impl NewFlight {
    /// Accepts the flight, or rejects it as a client error.
    pub fn is_valid(&self) -> (r: ApiResult<()>)
        ensures
            r matches Ok(()) <==> valid_new_flight(self@),
            r matches Err(e) ==> e.status == HttpStatus::BadRequest,
    {
        if !matches_icao_re(self.departure_icao.as_str()) {
            return Err(error(HttpStatus::BadRequest, "Invalid flight: departure ICAO"));
        }
        if !matches_icao_re(self.arrival_icao.as_str()) {
            return Err(error(HttpStatus::BadRequest, "Invalid flight: arrival ICAO"));
        }
        if !arrival_greater_departure(self) {
            return Err(error(
                HttpStatus::BadRequest,
                "Invalid flights: Arrival happens before departure",
            ));
        }
        Ok(())
    }
}

/// A flight row ready for insertion, bound to its offer.
pub struct InsertableFlight {
    pub offer_id: i32,
    pub departure_icao: String,
    pub departure_time: i64,
    pub arrival_icao: String,
    pub arrival_time: i64,
}

impl InsertableFlight {
    /// Binds a submitted flight to an offer.
    pub fn new(new_flight: &NewFlight, offer_id: i32) -> (r: InsertableFlight)
        ensures
            r.offer_id == offer_id,
            r.departure_icao@ == new_flight@.departure_icao,
            r.departure_time == new_flight.departure_time,
            r.arrival_icao@ == new_flight@.arrival_icao,
            r.arrival_time == new_flight.arrival_time,
    {
        InsertableFlight {
            offer_id,
            departure_icao: new_flight.departure_icao.clone(),
            departure_time: new_flight.departure_time,
            arrival_icao: new_flight.arrival_icao.clone(),
            arrival_time: new_flight.arrival_time,
        }
    }
}

/// A persistent flight row.
pub struct Flight {
    pub id: i32,
    pub offer_id: i32,
    pub departure_icao: String,
    pub departure_time: i64,
    pub arrival_icao: String,
    pub arrival_time: i64,
}

/// The mathematical value of a flight row.
#[verifier::ext_equal]
pub ghost struct FlightView {
    pub id: i32,
    pub offer_id: i32,
    pub departure_icao: Seq<char>,
    pub departure_time: i64,
    pub arrival_icao: Seq<char>,
    pub arrival_time: i64,
}

impl View for Flight {
    type V = FlightView;

    open spec fn view(&self) -> FlightView {
        FlightView {
            id: self.id,
            offer_id: self.offer_id,
            departure_icao: self.departure_icao@,
            departure_time: self.departure_time,
            arrival_icao: self.arrival_icao@,
            arrival_time: self.arrival_time,
        }
    }
}

impl Clone for Flight {
    fn clone(&self) -> (r: Self)
        ensures
            r@ == self@,
    {
        Flight {
            id: self.id,
            offer_id: self.offer_id,
            departure_icao: self.departure_icao.clone(),
            departure_time: self.departure_time,
            arrival_icao: self.arrival_icao.clone(),
            arrival_time: self.arrival_time,
        }
    }
}

/// The mathematical values of a sequence of flight rows.
pub open spec fn views_of_flights(rows: Seq<Flight>) -> Seq<FlightView> {
    rows.map_values(|f: Flight| f@)
}

/// The values of the flights among the first `n` rows that belong to the
/// given offer, in order.
pub open spec fn offer_flights(rows: Seq<Flight>, offer_id: i32, n: int) -> Seq<FlightView>
    decreases n,
{
    if n <= 0 {
        Seq::empty()
    } else if rows[n - 1].offer_id == offer_id {
        offer_flights(rows, offer_id, n - 1).push(rows[n - 1]@)
    } else {
        offer_flights(rows, offer_id, n - 1)
    }
}

impl Flight {
    /// Reads all flight rows of the given offer, in insertion order.
    pub fn all_from_offer(db: &Db, offer_id: i32) -> (r: Vec<Flight>)
        ensures
            views_of_flights(r@) == offer_flights(
                db.flights@,
                offer_id,
                db.flights@.len() as int,
            ),
    {
        let mut out: Vec<Flight> = Vec::new();
        let mut i: usize = 0;
        while i < db.flights.len()
            invariant
                i <= db.flights@.len(),
                views_of_flights(out@) == offer_flights(db.flights@, offer_id, i as int),
            decreases db.flights@.len() - i,
        {
            if db.flights[i].offer_id == offer_id {
                out.push(db.flights[i].clone());
            }
            proof {
                assert(views_of_flights(out@) =~= offer_flights(
                    db.flights@,
                    offer_id,
                    i + 1 as int,
                ));
            }
            i = i + 1;
        }
        out
    }
}

/// A flight offer as submitted by a client. The price is a whole number of
/// currency units.
#[derive(Clone, Copy, Debug, PartialEq, Eq, Structural)]
pub struct NewFlightOffer {
    pub seats: i32,
    pub price: i32,
    pub currency: Currency,
}

/// A submitted offer is accepted when it has between 1 and 2000 seats and a
/// price between 1 and 99999.
pub open spec fn valid_new_offer(o: NewFlightOffer) -> bool {
    &&& 1 <= o.seats <= 2000
    &&& 1 <= o.price <= 99999
}

impl NewFlightOffer {
    /// Accepts the offer, or rejects it as a client error.
    pub fn is_valid(&self) -> (r: ApiResult<()>)
        ensures
            r matches Ok(()) <==> valid_new_offer(*self),
            r matches Err(e) ==> e.status == HttpStatus::BadRequest,
    {
        if self.seats < 1 || self.seats > 2000 {
            return Err(error(HttpStatus::BadRequest, "Invalid offer: seats out of range"));
        }
        if self.price < 1 || self.price > 99999 {
            return Err(error(HttpStatus::BadRequest, "Invalid offer: price out of range"));
        }
        Ok(())
    }
}

/// A persistent flight offer row. `seats` is the offer's total capacity.
#[derive(Clone, Copy, Debug, PartialEq, Eq, Structural)]
pub struct FlightOffer {
    pub id: i32,
    pub seats: i32,
    pub price: i32,
    pub currency: Currency,
}

impl FlightOffer {
    /// A zero-valued offer row carrying only the offer id.
    pub fn dummy(id: i32) -> (o: FlightOffer)
        ensures
            o == (FlightOffer { id, seats: 0, price: 0, currency: Currency::Euro }),
    {
        FlightOffer { id, seats: 0, price: 0, currency: Currency::Euro }
    }
}

impl FlightOffer {
    /// Reads all offer rows.
    pub fn get_all(db: &Db) -> (r: Vec<FlightOffer>)
        ensures
            r@ == db.flights_offers@,
    {
        let mut out: Vec<FlightOffer> = Vec::new();
        let mut i: usize = 0;
        while i < db.flights_offers.len()
            invariant
                i <= db.flights_offers@.len(),
                out@ =~= db.flights_offers@.subrange(0, i as int),
            decreases db.flights_offers@.len() - i,
        {
            out.push(db.flights_offers[i]);
            i = i + 1;
        }
        proof {
            assert(out@ =~= db.flights_offers@);
        }
        out
    }

    /// Persists a new offer row under a fresh id.
    pub fn save(db: &mut Db, new_offer: NewFlightOffer) -> (r: DbResult)
        requires
            old(db).wf(),
            old(db).next_offer_id < i32::MAX,
            new_offer.seats >= 0,
        ensures
            final(db).wf(),
            r matches Ok(n) && n == 1,
            final(db).flights_offers@ == old(db).flights_offers@.push(
                FlightOffer {
                    id: old(db).next_offer_id,
                    seats: new_offer.seats,
                    price: new_offer.price,
                    currency: new_offer.currency,
                },
            ),
            final(db).next_offer_id == old(db).next_offer_id + 1,
            final(db).users@ == old(db).users@,
            final(db).bookings@ == old(db).bookings@,
            final(db).flights@ == old(db).flights@,
            final(db).addresses@ == old(db).addresses@,
            final(db).sessions@ == old(db).sessions@,
    {
        let row = FlightOffer {
            id: db.next_offer_id,
            seats: new_offer.seats,
            price: new_offer.price,
            currency: new_offer.currency,
        };
        proof {
            lemma_fresh_offer_unoccupied(*db, db.next_offer_id);
        }
        db.flights_offers.push(row);
        db.next_offer_id = db.next_offer_id + 1;
        proof {
            let offers0 = old(db).flights_offers@;
            let offers1 = db.flights_offers@;
            assert forall|i: int, j: int| 0 <= i < j < offers1.len()
                implies (#[trigger] offers1[i]).id != (#[trigger] offers1[j]).id by {
                if j < offers0.len() {
                    assert(offers0[i].id != offers0[j].id);
                } else {
                    assert(offers0[i].id < old(db).next_offer_id);
                }
            }
            assert forall|i: int| 0 <= i < db.bookings@.len()
                implies has_offer(offers1, (#[trigger] db.bookings@[i]).offer_id) by {
                assert(has_offer(offers0, db.bookings@[i].offer_id));
                let w = choose|k: int| 0 <= k < offers0.len()
                    && #[trigger] offers0[k].id == db.bookings@[i].offer_id;
                assert(offers1[w].id == db.bookings@[i].offer_id);
            }
            assert forall|i: int| 0 <= i < offers1.len()
                implies occupied_seats(db.bookings@, (#[trigger] offers1[i]).id)
                    <= offers1[i].seats by {
                if i < offers0.len() {
                    assert(offers1[i] == offers0[i]);
                } else {
                    assert(offers1[i] == row);
                }
            }
        }
        Ok(1)
    }

    /// Persists one flight row per submitted flight, bound to the offer, in
    /// order, under fresh ids.
    pub fn save_flights(db: &mut Db, offer_id: i32, flights: Vec<NewFlight>) -> (r: DbResult)
        requires
            old(db).wf(),
            old(db).next_flight_id as int + flights@.len() <= i32::MAX as int,
        ensures
            final(db).wf(),
            r matches Ok(n) && n == flights@.len(),
            final(db).flights@.len() == old(db).flights@.len() + flights@.len(),
            forall|k: int| 0 <= k < old(db).flights@.len()
                ==> final(db).flights@[k] == old(db).flights@[k],
            forall|k: int| 0 <= k < flights@.len()
                ==> (#[trigger] final(db).flights@[old(db).flights@.len() + k])@
                    == flight_row(flights@[k]@, offer_id, (old(db).next_flight_id + k) as i32),
            final(db).next_flight_id == old(db).next_flight_id + flights@.len(),
            final(db).users@ == old(db).users@,
            final(db).bookings@ == old(db).bookings@,
            final(db).flights_offers@ == old(db).flights_offers@,
            final(db).next_offer_id == old(db).next_offer_id,
            final(db).addresses@ == old(db).addresses@,
            final(db).sessions@ == old(db).sessions@,
    {
        let n = flights.len();
        let mut i: usize = 0;
        while i < n
            invariant
                i <= n,
                n == flights@.len(),
                db.wf(),
                old(db).next_flight_id as int + flights@.len() <= i32::MAX as int,
                db.next_flight_id == old(db).next_flight_id + i,
                db.flights@.len() == old(db).flights@.len() + i,
                forall|k: int| 0 <= k < old(db).flights@.len()
                    ==> db.flights@[k] == old(db).flights@[k],
                forall|k: int| 0 <= k < i
                    ==> (#[trigger] db.flights@[old(db).flights@.len() + k])@
                        == flight_row(flights@[k]@, offer_id, (old(db).next_flight_id + k) as i32),
                db.users@ == old(db).users@,
                db.bookings@ == old(db).bookings@,
                db.flights_offers@ == old(db).flights_offers@,
                db.next_offer_id == old(db).next_offer_id,
                db.users_roles@ == old(db).users_roles@,
                db.users_oauth_github@ == old(db).users_oauth_github@,
                db.next_user_id == old(db).next_user_id,
                db.addresses@ == old(db).addresses@,
                db.next_address_id == old(db).next_address_id,
                db.sessions@ == old(db).sessions@,
                db.next_session_id == old(db).next_session_id,
            decreases n - i,
        {
            let insertable = InsertableFlight::new(&flights[i], offer_id);
            let row = Flight {
                id: db.next_flight_id,
                offer_id: insertable.offer_id,
                departure_icao: insertable.departure_icao,
                departure_time: insertable.departure_time,
                arrival_icao: insertable.arrival_icao,
                arrival_time: insertable.arrival_time,
            };
            db.flights.push(row);
            db.next_flight_id = db.next_flight_id + 1;
            i = i + 1;
        }
        Ok(n)
    }

    /// Reads the offer row inserted last: the one with the greatest id.
    pub fn last_inserted(db: &Db) -> (r: Option<FlightOffer>)
        ensures
            db.flights_offers@.len() == 0 ==> r is None,
            db.flights_offers@.len() > 0 ==> (r matches Some(o)
                && db.flights_offers@.contains(o)
                && forall|i: int| 0 <= i < db.flights_offers@.len()
                    ==> (#[trigger] db.flights_offers@[i]).id <= o.id),
    {
        if db.flights_offers.len() == 0 {
            return None;
        }
        let mut best = db.flights_offers[0];
        assert(db.flights_offers@.contains(best));
        let mut i: usize = 1;
        while i < db.flights_offers.len()
            invariant
                1 <= i <= db.flights_offers@.len(),
                db.flights_offers@.contains(best),
                forall|j: int| 0 <= j < i ==> (#[trigger] db.flights_offers@[j]).id <= best.id,
            decreases db.flights_offers@.len() - i,
        {
            let o = db.flights_offers[i];
            if o.id > best.id {
                best = o;
                assert(db.flights_offers@.contains(best));
            }
            i = i + 1;
        }
        Some(best)
    }
}

/// The flight row that binding a submitted flight to an offer under a given
/// id produces.
pub open spec fn flight_row(nf: NewFlightView, offer_id: i32, id: i32) -> FlightView {
    FlightView {
        id,
        offer_id,
        departure_icao: nf.departure_icao,
        departure_time: nf.departure_time,
        arrival_icao: nf.arrival_icao,
        arrival_time: nf.arrival_time,
    }
}

/// An offer id that no offer row carries has no bookings referencing it
/// under the storage invariant, so its occupancy is zero.
proof fn lemma_fresh_offer_unoccupied(db: Db, fresh_id: i32)
    requires
        db.wf(),
        forall|i: int| 0 <= i < db.flights_offers@.len()
            ==> (#[trigger] db.flights_offers@[i]).id < fresh_id,
    ensures
        occupied_seats(db.bookings@, fresh_id) == 0,
{
    assert forall|i: int| 0 <= i < db.bookings@.len()
        implies (#[trigger] db.bookings@[i]).offer_id != fresh_id by {
        assert(has_offer(db.flights_offers@, db.bookings@[i].offer_id));
    }
    crate::db::models::booking::lemma_occupied_absent(
        db.bookings@,
        fresh_id,
        db.bookings@.len() as int,
    );
}

/// An offer joined with its current occupancy: the sum of the seats of all
/// bookings referencing it.
#[derive(Clone, Copy, Debug, PartialEq, Eq, Structural)]
pub struct FlightOfferWithOccupancy {
    pub id: i32,
    pub seats: i32,
    pub occupied: i64,
    pub price: i32,
    pub currency: Currency,
}

/// The occupancy row of one offer against a booking table.
pub open spec fn occupancy_row(
    o: FlightOffer,
    bookings: Seq<crate::db::models::booking::Booking>,
) -> FlightOfferWithOccupancy {
    FlightOfferWithOccupancy {
        id: o.id,
        seats: o.seats,
        occupied: occupied_seats(bookings, o.id) as i64,
        price: o.price,
        currency: o.currency,
    }
}

impl FlightOfferWithOccupancy {
    /// Reads the offer carrying the given id joined with its current
    /// occupancy.
    pub fn from_offer_id(db: &Db, offer_id: i32) -> (r: Option<FlightOfferWithOccupancy>)
        requires
            db.wf(),
        ensures
            has_offer(db.flights_offers@, offer_id) ==> r == Some(
                occupancy_row(offer_at(db.flights_offers@, offer_id), db.bookings@),
            ),
            !has_offer(db.flights_offers@, offer_id) ==> r is None,
    {
        let offer = match db.find_offer(offer_id) {
            Some(o) => o,
            None => {
                return None;
            },
        };
        let occupied = db.sum_booked_seats(offer_id);
        proof {
            db.lemma_occupied_bounded(offer_id);
        }
        Some(FlightOfferWithOccupancy {
            id: offer.id,
            seats: offer.seats,
            occupied,
            price: offer.price,
            currency: offer.currency,
        })
    }

    /// Reads all offers, each joined with its current occupancy.
    pub fn get_all(db: &Db) -> (r: Vec<FlightOfferWithOccupancy>)
        requires
            db.wf(),
        ensures
            r@.len() == db.flights_offers@.len(),
            forall|k: int| 0 <= k < r@.len()
                ==> r@[k] == occupancy_row(#[trigger] db.flights_offers@[k], db.bookings@),
    {
        let mut out: Vec<FlightOfferWithOccupancy> = Vec::new();
        let mut i: usize = 0;
        while i < db.flights_offers.len()
            invariant
                i <= db.flights_offers@.len(),
                db.wf(),
                out@.len() == i,
                forall|k: int| 0 <= k < i
                    ==> out@[k] == occupancy_row(#[trigger] db.flights_offers@[k], db.bookings@),
            decreases db.flights_offers@.len() - i,
        {
            let o = db.flights_offers[i];
            let occupied = db.sum_booked_seats(o.id);
            proof {
                db.lemma_occupied_bounded(o.id);
            }
            out.push(FlightOfferWithOccupancy {
                id: o.id,
                seats: o.seats,
                occupied,
                price: o.price,
                currency: o.currency,
            });
            i = i + 1;
        }
        out
    }
}

} // verus!
