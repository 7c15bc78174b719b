use dross_manager::dross::{transfer_dross, DrossError, DrossHolder};
use dross_manager::faery::{CreateFaeryRequest, Faery};
use dross_manager::repository::RepositoryItem;

fn new_faery() -> Faery {
    Faery::new("Tinkerbell".to_string(), "me@example.com".to_string(), false, 0, None)
}

fn new_faery_two() -> Faery {
    Faery::new("Silvermist".to_string(), "you@example.com".to_string(), false, 0, None)
}

#[test]
fn test_new_faery() {
    let faery = new_faery();
    assert_eq!(faery.name(), "Tinkerbell");
    assert_eq!(faery.email(), "me@example.com");
}

#[test]
fn test_increment_dross() {
    let mut faery = new_faery();
    assert_eq!(faery.dross(), 0);
    let _ = faery.increment_dross(1);
    assert_eq!(faery.dross(), 1);
}

#[test]
fn test_decrement_dross() {
    let mut faery = new_faery();
    assert_eq!(faery.dross(), 0);
    let _ = faery.increment_dross(1);
    assert_eq!(faery.dross(), 1);
    let _ = faery.decrement_dross(1);
    assert_eq!(faery.dross(), 0);
}

#[test]
fn test_transfer_dross() {
    let mut faery = new_faery();
    let mut faery_two = new_faery_two();
    assert_eq!(faery.dross(), 0);
    assert_eq!(faery_two.dross(), 0);
    let _ = faery.increment_dross(1);
    assert_eq!(faery.dross(), 1);
    assert_eq!(faery_two.dross(), 0);
    transfer_dross(&mut faery, &mut faery_two, 1).unwrap();
    assert_eq!(faery.dross(), 0);
    assert_eq!(faery_two.dross(), 1);
}

#[test]
fn new_faery_keeps_every_field() {
    let faery = Faery::new("Iridessa".to_string(), "i@example.com".to_string(), true, 7, Some(3));
    assert_eq!(faery.id, Some(3));
    assert_eq!(faery.name(), "Iridessa");
    assert_eq!(faery.email(), "i@example.com");
    assert!(faery.is_admin());
    assert_eq!(faery.dross(), 7);
    let copy = faery.clone();
    assert_eq!(copy.id, Some(3));
    assert_eq!(copy.name, "Iridessa");
    assert_eq!(copy.email, "i@example.com");
    assert!(copy.is_admin);
    assert_eq!(copy.dross, 7);
}

#[test]
fn increment_returns_the_new_holding() {
    let mut faery = new_faery();
    assert_eq!(faery.increment_dross(5), Ok(5));
    assert_eq!(faery.increment_dross(7), Ok(12));
    assert_eq!(DrossHolder::dross(&faery), Ok(12));
    assert_eq!(faery.increment_dross(u32::MAX - 12), Ok(u32::MAX));
}

#[test]
fn increment_of_nothing_is_refused() {
    let mut faery = new_faery();
    let _ = faery.increment_dross(4);
    assert_eq!(faery.increment_dross(0), Err(DrossError::InvalidIncrement));
    assert_eq!(faery.dross(), 4);
}

#[test]
fn decrement_of_nothing_is_refused() {
    let mut faery = new_faery();
    let _ = faery.increment_dross(4);
    assert_eq!(faery.decrement_dross(0), Err(DrossError::InvalidDecrement));
    assert_eq!(faery.dross(), 4);
}

#[test]
fn decrement_beyond_the_holding_is_refused() {
    let mut faery = new_faery();
    let _ = faery.increment_dross(4);
    assert_eq!(faery.decrement_dross(5), Err(DrossError::NotEnoughDross));
    assert_eq!(faery.dross(), 4);
    assert_eq!(faery.decrement_dross(4), Ok(0));
    assert_eq!(faery.decrement_dross(1), Err(DrossError::NotEnoughDross));
}

#[test]
fn transfer_keeps_the_total() {
    let mut sender = new_faery();
    let mut receiver = new_faery_two();
    let _ = sender.increment_dross(10);
    let _ = receiver.increment_dross(3);
    assert_eq!(transfer_dross(&mut sender, &mut receiver, 4), Ok(7));
    assert_eq!(sender.dross(), 6);
    assert_eq!(receiver.dross(), 7);
    assert_eq!(sender.name(), "Tinkerbell");
    assert_eq!(receiver.name(), "Silvermist");
}

#[test]
fn refused_transfer_changes_nothing() {
    let mut sender = new_faery();
    let mut receiver = new_faery_two();
    let _ = sender.increment_dross(2);
    let _ = receiver.increment_dross(3);
    assert_eq!(
        transfer_dross(&mut sender, &mut receiver, 3),
        Err(DrossError::NotEnoughDross)
    );
    assert_eq!(
        transfer_dross(&mut sender, &mut receiver, 0),
        Err(DrossError::InvalidDecrement)
    );
    assert_eq!(sender.dross(), 2);
    assert_eq!(receiver.dross(), 3);
}

#[test]
fn faery_columns() {
    assert_eq!(Faery::masked_columns(false), vec!["email".to_string()]);
    assert!(Faery::masked_columns(true).is_empty());
    let all = vec![
        "id".to_string(),
        "name".to_string(),
        "is_admin".to_string(),
        "email".to_string(),
        "dross".to_string(),
    ];
    assert_eq!(Faery::all_columns(), all);
    assert_eq!(Faery::saved_columns(), all);
    assert_eq!(Faery::table_name(), "faeries");
}

#[test]
fn requested_faery_holds_nothing() {
    let faery = Faery::from(CreateFaeryRequest {
        name: "Rosetta".to_string(),
        email: "r@example.com".to_string(),
    });
    assert_eq!(faery.id, None);
    assert_eq!(faery.name(), "Rosetta");
    assert_eq!(faery.email(), "r@example.com");
    assert!(!faery.is_admin());
    assert_eq!(faery.dross(), 0);
}
