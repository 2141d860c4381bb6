use ticket_resell::gate::{get_ticket, list_ticket_for_resell, mint_ticket, transfer_ticket};
use ticket_resell::store::TicketStore;
use ticket_resell::ticket::{Identity, TicketError, TicketId};

fn alice() -> Identity {
    Identity::new(0xA11CE, 1, 2, 3)
}

fn bob() -> Identity {
    Identity::new(0xB0B, 4, 5, 6)
}

fn tid(n: u64) -> TicketId {
    TicketId::new(n, 0, 0, 0)
}

#[test]
fn mint_gives_caller_ownership_and_zero_price() {
    let mut store = TicketStore::new();
    let r = mint_ticket(&mut store, tid(1), alice(), "front row".to_string());
    assert_eq!(r, Ok(()));
    let t = get_ticket(&store, tid(1)).unwrap();
    assert_eq!(t.owner, alice());
    assert_eq!(t.price, 0);
    assert_eq!(t.metadata, "front row".to_string());
}

#[test]
fn mint_on_taken_identity_fails_already_exists() {
    let mut store = TicketStore::new();
    assert_eq!(mint_ticket(&mut store, tid(1), alice(), "one".to_string()), Ok(()));
    let r = mint_ticket(&mut store, tid(1), bob(), "two".to_string());
    assert_eq!(r, Err(TicketError::AlreadyExists));
    let t = get_ticket(&store, tid(1)).unwrap();
    assert_eq!(t.owner, alice());
    assert_eq!(t.metadata, "one".to_string());
}

#[test]
fn list_by_non_owner_fails_and_price_is_unchanged() {
    let mut store = TicketStore::new();
    assert_eq!(mint_ticket(&mut store, tid(1), alice(), "seat".to_string()), Ok(()));
    assert_eq!(list_ticket_for_resell(&mut store, tid(1), alice(), 70), Ok(()));
    let r = list_ticket_for_resell(&mut store, tid(1), bob(), 999);
    assert_eq!(r, Err(TicketError::InvalidOwner));
    let t = get_ticket(&store, tid(1)).unwrap();
    assert_eq!(t.price, 70);
    assert_eq!(t.owner, alice());
}

#[test]
fn list_by_owner_sets_price_and_keeps_owner() {
    let mut store = TicketStore::new();
    assert_eq!(mint_ticket(&mut store, tid(1), alice(), "seat".to_string()), Ok(()));
    assert_eq!(list_ticket_for_resell(&mut store, tid(1), alice(), 250), Ok(()));
    let t = get_ticket(&store, tid(1)).unwrap();
    assert_eq!(t.price, 250);
    assert_eq!(t.owner, alice());
    assert_eq!(t.metadata, "seat".to_string());
}

#[test]
fn list_with_zero_price_unlists() {
    let mut store = TicketStore::new();
    assert_eq!(mint_ticket(&mut store, tid(1), alice(), "seat".to_string()), Ok(()));
    assert_eq!(list_ticket_for_resell(&mut store, tid(1), alice(), 80), Ok(()));
    assert_eq!(list_ticket_for_resell(&mut store, tid(1), alice(), 0), Ok(()));
    let t = get_ticket(&store, tid(1)).unwrap();
    assert_eq!(t.price, 0);
}

#[test]
fn list_twice_at_same_price_is_idempotent() {
    let mut store = TicketStore::new();
    assert_eq!(mint_ticket(&mut store, tid(1), alice(), "seat".to_string()), Ok(()));
    assert_eq!(list_ticket_for_resell(&mut store, tid(1), alice(), 42), Ok(()));
    let once = get_ticket(&store, tid(1)).unwrap();
    assert_eq!(list_ticket_for_resell(&mut store, tid(1), alice(), 42), Ok(()));
    let twice = get_ticket(&store, tid(1)).unwrap();
    assert_eq!(once.owner, twice.owner);
    assert_eq!(once.metadata, twice.metadata);
    assert_eq!(once.price, twice.price);
}

#[test]
fn list_on_missing_ticket_fails_not_found() {
    let mut store = TicketStore::new();
    let r = list_ticket_for_resell(&mut store, tid(7), alice(), 10);
    assert_eq!(r, Err(TicketError::NotFound));
}

#[test]
fn transfer_by_owner_moves_ownership_and_resets_price() {
    let mut store = TicketStore::new();
    assert_eq!(mint_ticket(&mut store, tid(1), alice(), "seat".to_string()), Ok(()));
    assert_eq!(list_ticket_for_resell(&mut store, tid(1), alice(), 900), Ok(()));
    assert_eq!(transfer_ticket(&mut store, tid(1), alice(), bob()), Ok(()));
    let t = get_ticket(&store, tid(1)).unwrap();
    assert_eq!(t.owner, bob());
    assert_eq!(t.price, 0);
    assert_eq!(t.metadata, "seat".to_string());
}

#[test]
fn transfer_by_non_owner_fails_and_owner_stays() {
    let mut store = TicketStore::new();
    assert_eq!(mint_ticket(&mut store, tid(1), alice(), "seat".to_string()), Ok(()));
    let r = transfer_ticket(&mut store, tid(1), bob(), bob());
    assert_eq!(r, Err(TicketError::InvalidOwner));
    let t = get_ticket(&store, tid(1)).unwrap();
    assert_eq!(t.owner, alice());
}

#[test]
fn transfer_on_missing_ticket_fails_not_found() {
    let mut store = TicketStore::new();
    let r = transfer_ticket(&mut store, tid(7), alice(), bob());
    assert_eq!(r, Err(TicketError::NotFound));
}

#[test]
fn self_transfer_is_legal_and_resets_price() {
    let mut store = TicketStore::new();
    assert_eq!(mint_ticket(&mut store, tid(1), alice(), "seat".to_string()), Ok(()));
    assert_eq!(list_ticket_for_resell(&mut store, tid(1), alice(), 33), Ok(()));
    assert_eq!(transfer_ticket(&mut store, tid(1), alice(), alice()), Ok(()));
    let t = get_ticket(&store, tid(1)).unwrap();
    assert_eq!(t.owner, alice());
    assert_eq!(t.price, 0);
}

#[test]
fn get_on_never_minted_identity_fails_not_found() {
    let store = TicketStore::new();
    let r = get_ticket(&store, tid(1));
    assert!(matches!(r, Err(TicketError::NotFound)));
}

#[test]
fn operations_on_one_ticket_leave_others_alone() {
    let mut store = TicketStore::new();
    assert_eq!(mint_ticket(&mut store, tid(1), alice(), "first".to_string()), Ok(()));
    assert_eq!(mint_ticket(&mut store, tid(2), bob(), "second".to_string()), Ok(()));
    assert_eq!(list_ticket_for_resell(&mut store, tid(1), alice(), 12), Ok(()));
    assert_eq!(transfer_ticket(&mut store, tid(2), bob(), alice()), Ok(()));
    let t1 = get_ticket(&store, tid(1)).unwrap();
    assert_eq!(t1.owner, alice());
    assert_eq!(t1.price, 12);
    assert_eq!(t1.metadata, "first".to_string());
    let t2 = get_ticket(&store, tid(2)).unwrap();
    assert_eq!(t2.owner, alice());
    assert_eq!(t2.price, 0);
    assert_eq!(t2.metadata, "second".to_string());
}

#[test]
fn full_resale_scenario() {
    let mut store = TicketStore::new();
    let a = alice();
    let b = bob();
    let t1 = tid(1);
    assert_eq!(mint_ticket(&mut store, t1, a, "VIP seat 12".to_string()), Ok(()));
    let t = get_ticket(&store, t1).unwrap();
    assert_eq!(t.owner, a);
    assert_eq!(t.price, 0);
    assert_eq!(t.metadata, "VIP seat 12".to_string());

    assert_eq!(list_ticket_for_resell(&mut store, t1, a, 500), Ok(()));
    assert_eq!(get_ticket(&store, t1).unwrap().price, 500);

    assert_eq!(transfer_ticket(&mut store, t1, a, b), Ok(()));
    let t = get_ticket(&store, t1).unwrap();
    assert_eq!(t.owner, b);
    assert_eq!(t.price, 0);

    assert_eq!(list_ticket_for_resell(&mut store, t1, b, 10), Ok(()));
    let t = get_ticket(&store, t1).unwrap();
    assert_eq!(t.price, 10);
    assert_eq!(t.owner, b);

    assert_eq!(list_ticket_for_resell(&mut store, t1, a, 1), Err(TicketError::InvalidOwner));
    assert_eq!(get_ticket(&store, t1).unwrap().price, 10);
}
