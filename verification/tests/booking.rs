use skyrocket::config::Config;
use skyrocket::db::models::booking::Booking;
use skyrocket::db::models::flight::Currency;
use skyrocket::db::models::flight::Flight;
use skyrocket::db::models::flight::FlightOffer;
use skyrocket::db::models::flight::FlightOfferWithOccupancy;
use skyrocket::db::models::flight::NewFlight;
use skyrocket::db::models::flight::NewFlightOffer;
use skyrocket::db::models::role::AdminRole;
use skyrocket::db::models::role::Role;
use skyrocket::db::models::user::is_adult;
use skyrocket::db::models::user::AuthUser;
use skyrocket::db::models::user::Gender;
use skyrocket::db::models::user::NewUser;
use skyrocket::db::models::user::User;
use skyrocket::db::Db;
use skyrocket::oso::register_polar_classes;
use skyrocket::routes::login::oauth_list;
use skyrocket::routes::offers;
use skyrocket::routes::users;
use skyrocket::routes::HttpStatus;
use skyrocket::session::set_github_id;
use skyrocket::session::set_user;
use skyrocket::session::CookieJar;
use skyrocket::session::SessionStore;

/// Builds a storage holding one offer with the given capacity and an admin
/// guard to create it with, and returns the offer id.
fn db_with_offer(capacity: i32) -> (Db, i32) {
    let mut db = Db::new();
    let admin = admin_guard();
    let offer = offers::create_offer(
        admin.0,
        &mut db,
        NewFlightOffer { seats: capacity, price: 120, currency: Currency::Euro },
    )
    .expect("offer creation succeeds");
    (db, offer.id)
}

/// An admin guard together with the session state it was granted from.
fn admin_guard() -> (AdminRole, SessionStore, CookieJar) {
    let mut store = SessionStore::new();
    let mut jar = CookieJar { cookie: None };
    let mut admin = AuthUser::dummy(1);
    admin.roles.push(Role::Admin);
    set_user(&mut jar, &mut store, admin);
    let guard = AdminRole::from_session(&jar, &store).expect("admin session grants the guard");
    (guard, store, jar)
}

#[test]
fn booking_respects_remaining_capacity() {
    let (mut db, offer_id) = db_with_offer(10);
    Booking::create(&mut db, 1, offer_id, 4).expect("4 of 10 seats");

    let zero = Booking::create(&mut db, 2, offer_id, 0);
    assert!(matches!(zero, Err(e) if e.status == HttpStatus::BadRequest));

    let too_many = Booking::create(&mut db, 2, offer_id, 7);
    assert!(matches!(too_many, Err(e) if e.status == HttpStatus::BadRequest));

    Booking::create(&mut db, 2, offer_id, 6).expect("6 of the remaining 6 seats");

    let none_left = Booking::create(&mut db, 3, offer_id, 1);
    assert!(matches!(none_left, Err(e) if e.status == HttpStatus::BadRequest));
}

#[test]
fn one_reservation_per_user_and_offer() {
    let (mut db, offer_id) = db_with_offer(10);
    Booking::create(&mut db, 1, offer_id, 2).expect("first reservation");
    let twice = Booking::create(&mut db, 1, offer_id, 3);
    assert!(matches!(twice, Err(e) if e.status == HttpStatus::BadRequest));
    assert_eq!(Booking::all_from_user(&db, 1).len(), 1);
    Booking::create(&mut db, 2, offer_id, 3).expect("another user may book");
}

#[test]
fn booking_unknown_offer_is_not_found() {
    let mut db = Db::new();
    let missing = Booking::create(&mut db, 1, 99, 2);
    assert!(matches!(missing, Err(e) if e.status == HttpStatus::NotFound));
}

#[test]
fn contended_last_seat_is_sold_once() {
    let (mut db, offer_id) = db_with_offer(1);
    let first = Booking::create(&mut db, 1, offer_id, 1);
    let second = Booking::create(&mut db, 2, offer_id, 1);
    assert!(first.is_ok());
    assert!(matches!(second, Err(e) if e.status == HttpStatus::BadRequest));
    assert_eq!(Booking::all_from_offer(&db, offer_id).len(), 1);
}

#[test]
fn occupancy_is_the_sum_of_bookings() {
    let (mut db, offer_id) = db_with_offer(10);
    Booking::create(&mut db, 1, offer_id, 3).expect("3 seats");
    Booking::create(&mut db, 2, offer_id, 2).expect("2 seats");
    let row = FlightOfferWithOccupancy::from_offer_id(&db, offer_id).expect("offer exists");
    assert_eq!(row.occupied, 5);
    assert_eq!(row.seats, 10);
    assert!(FlightOfferWithOccupancy::from_offer_id(&db, offer_id + 1).is_none());
}

#[test]
fn bookings_are_listed_per_user_and_offer() {
    let (mut db, offer_id) = db_with_offer(10);
    Booking::create(&mut db, 1, offer_id, 2).expect("2 seats");
    Booking::create(&mut db, 2, offer_id, 3).expect("3 seats");
    let per_offer = Booking::all_from_offer(&db, offer_id);
    assert_eq!(per_offer.len(), 2);
    let per_user = Booking::all_from_user(&db, 2);
    assert_eq!(per_user.len(), 1);
    assert_eq!(per_user[0].seats, 3);
}

#[test]
fn offer_validation_rejects_out_of_range() {
    let ok = NewFlightOffer { seats: 1, price: 99999, currency: Currency::Dollar };
    assert!(ok.is_valid().is_ok());
    let no_seats = NewFlightOffer { seats: 0, price: 10, currency: Currency::Euro };
    assert!(matches!(no_seats.is_valid(), Err(e) if e.status == HttpStatus::BadRequest));
    let too_big = NewFlightOffer { seats: 2001, price: 10, currency: Currency::Euro };
    assert!(too_big.is_valid().is_err());
    let free = NewFlightOffer { seats: 10, price: 0, currency: Currency::Euro };
    assert!(free.is_valid().is_err());
}

#[test]
fn last_inserted_is_the_newest_offer() {
    let mut db = Db::new();
    let (guard, _, _) = admin_guard();
    assert!(FlightOffer::last_inserted(&db).is_none());
    offers::create_offer(
        guard,
        &mut db,
        NewFlightOffer { seats: 5, price: 10, currency: Currency::Euro },
    )
    .expect("first offer");
    let (guard2, _, _) = admin_guard();
    let second = offers::create_offer(
        guard2,
        &mut db,
        NewFlightOffer { seats: 9, price: 20, currency: Currency::Dollar },
    )
    .expect("second offer");
    let last = FlightOffer::last_inserted(&db).expect("offers exist");
    assert_eq!(last.id, second.id);
    assert_eq!(last.seats, 9);
    assert_eq!(FlightOffer::get_all(&db).len(), 2);
}

fn flight(dep: &str, dep_t: i64, arr: &str, arr_t: i64) -> NewFlight {
    NewFlight {
        departure_icao: dep.to_string(),
        departure_time: dep_t,
        arrival_icao: arr.to_string(),
        arrival_time: arr_t,
    }
}

#[test]
fn flight_validation_checks_icao_and_times() {
    assert!(flight("EDDF", 100, "EGLL", 200).is_valid().is_ok());
    assert!(flight("KJFK", 100, "EDDF", 200).is_valid().is_ok());
    let lowercase = flight("eddf", 100, "EGLL", 200);
    assert!(matches!(lowercase.is_valid(), Err(e) if e.status == HttpStatus::BadRequest));
    let short = flight("EDD", 100, "EGLL", 200);
    assert!(short.is_valid().is_err());
    let arrival_first = flight("EDDF", 200, "EGLL", 100);
    assert!(arrival_first.is_valid().is_err());
    let same_time = flight("EDDF", 100, "EGLL", 100);
    assert!(same_time.is_valid().is_err());
}

#[test]
fn flight_chain_must_be_ordered() {
    let (mut db, offer_id) = db_with_offer(10);
    let (guard, _, _) = admin_guard();
    let chained = vec![
        flight("EDDF", 100, "EGLL", 200),
        flight("EGLL", 300, "KJFK", 400),
    ];
    offers::create_flights(guard, &mut db, offer_id, chained).expect("ordered chain");
    let rows = Flight::all_from_offer(&db, offer_id);
    assert_eq!(rows.len(), 2);
    assert_eq!(rows[0].departure_icao, "EDDF");
    assert_eq!(rows[1].arrival_icao, "KJFK");

    let (guard2, _, _) = admin_guard();
    let out_of_order = vec![
        flight("EDDF", 100, "EGLL", 300),
        flight("EGLL", 250, "KJFK", 400),
    ];
    let rejected = offers::create_flights(guard2, &mut db, offer_id, out_of_order);
    assert!(matches!(rejected, Err(e) if e.status == HttpStatus::BadRequest));
    assert_eq!(Flight::all_from_offer(&db, offer_id).len(), 2);
}

#[test]
fn adulthood_follows_the_day_arithmetic() {
    let now: i64 = 1_700_000_000;
    assert!(is_adult(0, now));
    let today = (now / 86400) as i32;
    assert!(!is_adult(today, now));
    assert!(!is_adult(today + 10, now));
    let eighteen_years = today - 18 * 365;
    assert!(!is_adult(eighteen_years, now));
    let nineteen_years = today - 19 * 365;
    assert!(is_adult(nineteen_years, now));
}

#[test]
fn user_crud_round_trip() {
    let now: i64 = 1_700_000_000;
    let oso = register_polar_classes();
    let mut db = Db::new();
    let submitted = NewUser {
        firstname: "Jane".to_string(),
        lastname: "Doe".to_string(),
        email: "jane@example.com".to_string(),
        birthday: 0,
        gender: Gender::Female,
    };
    let saved = submitted.save_and_return(&mut db).expect("insert succeeds");
    assert_eq!(saved.email, "jane@example.com");

    let by_id = User::find_by_id(&db, saved.id).expect("row exists");
    assert_eq!(by_id.firstname, "Jane");
    assert!(User::find_by_id(&db, saved.id + 1).is_none());

    let listed = users::list_for_user(AuthUser::dummy(saved.id), &db).expect("own row");
    assert_eq!(listed.len(), 1);

    let read = users::read(AuthUser::dummy(saved.id), &oso, &db, saved.id).expect("own read");
    assert_eq!(read.email, "jane@example.com");
    let denied = users::read(AuthUser::dummy(saved.id + 1), &oso, &db, saved.id);
    assert!(matches!(denied, Err(e) if e.status == HttpStatus::Forbidden));

    let update = NewUser {
        firstname: "Janet".to_string(),
        lastname: "Doe".to_string(),
        email: "janet@example.com".to_string(),
        birthday: 0,
        gender: Gender::Female,
    };
    let updated = users::update(AuthUser::dummy(saved.id), &oso, &mut db, saved.id, update, now)
        .expect("own update");
    assert_eq!(updated.firstname, "Janet");
    assert_eq!(
        User::find_by_id(&db, saved.id).expect("still there").email,
        "janet@example.com"
    );

    users::delete(AuthUser::dummy_admin(7), &oso, &mut db, saved.id).expect("admin may delete");
    assert!(User::find_by_id(&db, saved.id).is_none());
    let already_gone = users::delete(AuthUser::dummy_admin(7), &oso, &mut db, saved.id);
    assert!(matches!(already_gone, Err(e) if e.status == HttpStatus::NotFound));
}

#[test]
fn updating_a_missing_user_is_an_internal_error() {
    let now: i64 = 1_700_000_000;
    let oso = register_polar_classes();
    let mut db = Db::new();
    let update = NewUser {
        firstname: "Jane".to_string(),
        lastname: "Doe".to_string(),
        email: "jane@example.com".to_string(),
        birthday: 0,
        gender: Gender::Female,
    };
    let missing = users::update(AuthUser::dummy_admin(1), &oso, &mut db, 9, update, now);
    assert!(matches!(missing, Err(e) if e.status == HttpStatus::InternalServerError));
}

#[test]
fn oauth_provider_listing_follows_configuration() {
    let configured = Config::load(Some("client-123".to_string()), None, None);
    let providers = oauth_list(&configured);
    assert_eq!(
        providers.github.as_deref(),
        Some("https://github.com/login/oauth/authorize?client_id=client-123&scope=user:email")
    );
    let unconfigured = Config::load(None, None, None);
    assert!(oauth_list(&unconfigured).github.is_none());
}

#[test]
fn admin_guard_requires_the_admin_role() {
    let mut store = SessionStore::new();
    let mut jar = CookieJar { cookie: None };
    set_user(&mut jar, &mut store, AuthUser::dummy(1));
    assert!(AdminRole::from_session(&jar, &store).is_none());
    let mut pending_jar = CookieJar { cookie: None };
    set_github_id(&mut pending_jar, &mut store, 5);
    assert!(AdminRole::from_session(&pending_jar, &store).is_none());
}
