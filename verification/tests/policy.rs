use skyrocket::db::models::address::Address;
use skyrocket::db::models::address::NewAddress;
use skyrocket::db::models::user::AuthUser;
use skyrocket::db::models::user::User;
use skyrocket::db::Db;
use skyrocket::oso::register_polar_classes;
use skyrocket::oso::OsoAction;
use skyrocket::routes::addresses;
use skyrocket::routes::HttpStatus;

#[test]
fn test_user_read_self() {
    let oso = register_polar_classes();
    assert_eq!(
        true,
        oso.is_allowed(AuthUser::dummy(1), OsoAction::Read, User::dummy(1))
    );
}

#[test]
fn test_user_read_other_user() {
    let oso = register_polar_classes();
    assert_eq!(
        false,
        oso.is_allowed(AuthUser::dummy(1), OsoAction::Read, User::dummy(2))
    );
}

#[test]
fn test_admin_user_read_self() {
    let oso = register_polar_classes();
    assert_eq!(
        true,
        oso.is_allowed(AuthUser::dummy_admin(1), OsoAction::Read, User::dummy(1))
    );
}

#[test]
fn test_admin_user_read_other_user() {
    let oso = register_polar_classes();
    assert_eq!(
        true,
        oso.is_allowed(AuthUser::dummy_admin(1), OsoAction::Read, User::dummy(2))
    );
}

#[test]
fn test_user_read_own_addresses() {
    let oso = register_polar_classes();
    assert_eq!(
        true,
        oso.is_allowed(AuthUser::dummy(1), OsoAction::Read, Address::dummy_for_user(1))
    );
}

#[test]
fn test_user_read_other_addresses() {
    let oso = register_polar_classes();
    assert_eq!(
        false,
        oso.is_allowed(AuthUser::dummy(1), OsoAction::Read, Address::dummy_for_user(2))
    );
}

#[test]
fn test_admin_user_read_own_addresses() {
    let oso = register_polar_classes();
    assert_eq!(
        true,
        oso.is_allowed(AuthUser::dummy_admin(1), OsoAction::Read, Address::dummy_for_user(1))
    );
}

#[test]
fn test_admin_user_read_other_addresses() {
    let oso = register_polar_classes();
    assert_eq!(
        true,
        oso.is_allowed(AuthUser::dummy_admin(1), OsoAction::Read, Address::dummy_for_user(2))
    );
}

fn real_address(user_id: i32) -> Address {
    Address {
        id: 7,
        user_id,
        country: "DE".to_string(),
        postal_code: 60311,
        town: "Frankfurt".to_string(),
        street: "Zeil".to_string(),
        house_number: 12,
    }
}

#[test]
fn placeholder_decides_like_real_row() {
    let oso = register_polar_classes();
    for action in [
        OsoAction::Create,
        OsoAction::Read,
        OsoAction::Update,
        OsoAction::Delete,
    ] {
        let on_placeholder =
            oso.is_allowed(AuthUser::dummy(1), action, Address::dummy_for_user(1));
        let on_real = oso.is_allowed(AuthUser::dummy(1), action, real_address(1));
        assert_eq!(on_placeholder, on_real);
        let other_placeholder =
            oso.is_allowed(AuthUser::dummy(1), action, Address::dummy_for_user(2));
        let other_real = oso.is_allowed(AuthUser::dummy(1), action, real_address(2));
        assert_eq!(other_placeholder, other_real);
        assert!(!other_real);
    }
}

#[test]
fn no_action_distinction_for_owner() {
    let oso = register_polar_classes();
    for action in [
        OsoAction::Create,
        OsoAction::Read,
        OsoAction::Update,
        OsoAction::Delete,
    ] {
        assert!(oso.is_allowed(AuthUser::dummy(5), action, User::dummy(5)));
        assert!(!oso.is_allowed(AuthUser::dummy(5), action, User::dummy(6)));
    }
}

#[test]
fn action_labels() {
    assert_eq!(OsoAction::Create.label(), "create");
    assert_eq!(OsoAction::Read.label(), "read");
    assert_eq!(OsoAction::Update.label(), "update");
    assert_eq!(OsoAction::Delete.label(), "delete");
}

fn new_address() -> NewAddress {
    NewAddress {
        country: "DE".to_string(),
        postal_code: 10115,
        town: "Berlin".to_string(),
        street: "Invalidenstr.".to_string(),
        house_number: 44,
    }
}

#[test]
fn end_to_end_address_ownership() {
    let oso = register_polar_classes();
    let mut db = Db::new();

    let created = addresses::create(&oso, AuthUser::dummy(1), &mut db, 1, new_address());
    assert!(created.is_ok());

    let own = addresses::read(&oso, AuthUser::dummy(1), &db, 1).expect("owner may read");
    assert_eq!(own.len(), 1);
    assert_eq!(own[0].user_id, 1);
    assert_eq!(own[0].town, "Berlin");

    let other = addresses::read(&oso, AuthUser::dummy(2), &db, 1);
    assert!(matches!(other, Err(e) if e.status == HttpStatus::Forbidden));

    let admin = addresses::read(&oso, AuthUser::dummy_admin(2), &db, 1).expect("admin may read");
    assert_eq!(admin.len(), 1);
}

#[test]
fn stranger_may_not_create_for_other_user() {
    let oso = register_polar_classes();
    let mut db = Db::new();
    let denied = addresses::create(&oso, AuthUser::dummy(2), &mut db, 1, new_address());
    assert!(matches!(denied, Err(e) if e.status == HttpStatus::Forbidden));
    let listed = addresses::read(&oso, AuthUser::dummy(1), &db, 1).expect("owner may read");
    assert_eq!(listed.len(), 0);
}
