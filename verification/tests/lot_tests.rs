use charity_lot::CharityLot;
use charity_lot::LotError;
use charity_lot::LotStatus;
use charity_lot::CHARITY_RATE;
use charity_lot::TICKET_PRICE;

fn council() -> String {
    "council".to_string()
}

fn fresh_lot() -> CharityLot {
    CharityLot::new(council()).unwrap()
}

#[test]
fn construction_initializes_closed_and_empty() {
    let lot = fresh_lot();
    assert_eq!(lot.get_council(), "council");
    assert_eq!(lot.get_lot_status(), LotStatus::Done);
    assert!(lot.get_charity_funds().is_empty());
    assert!(lot.get_participants().is_empty());
    assert_eq!(lot.lottery_pot, 0);
    assert_eq!(lot.charity_pot, 0);
    assert_eq!(lot.ticket_price, TICKET_PRICE);
    assert_eq!(lot.charity_rate, CHARITY_RATE);
}

#[test]
fn construction_rejects_invalid_council() {
    assert!(matches!(CharityLot::new("Bad!".to_string()), Err(LotError::InvalidIdentity)));
    assert!(matches!(CharityLot::new("a".to_string()), Err(LotError::InvalidIdentity)));
}

#[test]
fn register_adds_record_with_zero_votes() {
    let mut lot = fresh_lot();
    lot.set_charity_fund(&council(), "x".repeat(2), "X Fund".to_string()).unwrap();
    let funds = lot.get_charity_funds();
    assert_eq!(funds.len(), 1);
    assert_eq!(funds[0].charity_id, "xx");
    assert_eq!(funds[0].name, "X Fund");
    assert_eq!(funds[0].voted_count, 0);
}

#[test]
fn register_twice_resets_votes_not_accumulates() {
    let mut lot = fresh_lot();
    lot.set_charity_fund(&council(), "xx".to_string(), "first".to_string()).unwrap();
    lot.set_charity_fund(&council(), "yy".to_string(), "other".to_string()).unwrap();
    // Give xx a vote through a full round, then re-register it.
    lot.update_status(&council(), LotStatus::Open, 0).unwrap();
    lot.buy_ticket("buyer".to_string(), "xx".to_string(), TICKET_PRICE).unwrap();
    lot.update_status(&council(), LotStatus::Done, 0).unwrap();
    assert_eq!(lot.get_charity_funds()[0].voted_count, 1);
    lot.set_charity_fund(&council(), "xx".to_string(), "renamed".to_string()).unwrap();
    let funds = lot.get_charity_funds();
    assert_eq!(funds.len(), 2);
    assert_eq!(funds[0].charity_id, "xx");
    assert_eq!(funds[0].name, "renamed");
    assert_eq!(funds[0].voted_count, 0);
    assert_eq!(funds[1].charity_id, "yy");
}

#[test]
fn register_requires_done_status() {
    let mut lot = fresh_lot();
    lot.update_status(&council(), LotStatus::Open, 0).unwrap();
    let r = lot.set_charity_fund(&council(), "xx".to_string(), "X".to_string());
    assert_eq!(r, Err(LotError::InvalidState));
    assert!(lot.get_charity_funds().is_empty());
}

#[test]
fn register_rejects_invalid_charity_id() {
    let mut lot = fresh_lot();
    let r = lot.set_charity_fund(&council(), "UPPER".to_string(), "X".to_string());
    assert_eq!(r, Err(LotError::InvalidIdentity));
    assert!(lot.get_charity_funds().is_empty());
}

#[test]
fn privileged_calls_by_non_council_fail_and_change_nothing() {
    let mut lot = fresh_lot();
    lot.set_charity_fund(&council(), "xx".to_string(), "X".to_string()).unwrap();
    let intruder = "intruder".to_string();

    let r = lot.set_charity_fund(&intruder, "yy".to_string(), "Y".to_string());
    assert_eq!(r, Err(LotError::Unauthorized));
    assert_eq!(lot.get_charity_funds().len(), 1);

    let r = lot.reset_state(&intruder);
    assert_eq!(r, Err(LotError::Unauthorized));
    assert_eq!(lot.get_charity_funds().len(), 1);

    let r = lot.update_status(&intruder, LotStatus::Open, 0);
    assert!(matches!(r, Err(LotError::Unauthorized)));
    assert_eq!(lot.get_lot_status(), LotStatus::Done);
}

#[test]
fn only_council_distinguishes_signers() {
    let lot = fresh_lot();
    assert_eq!(lot.only_council(&council()), Ok(()));
    assert_eq!(lot.only_council(&"other".to_string()), Err(LotError::Unauthorized));
}

#[test]
fn reset_clears_collections_and_pots_keeps_council() {
    let mut lot = fresh_lot();
    lot.set_charity_fund(&council(), "xx".to_string(), "X".to_string()).unwrap();
    lot.update_status(&council(), LotStatus::Open, 0).unwrap();
    lot.buy_ticket("buyer".to_string(), "xx".to_string(), TICKET_PRICE).unwrap();
    lot.update_status(&council(), LotStatus::Done, 0).unwrap();
    assert!(lot.lottery_pot > 0);

    lot.reset_state(&council()).unwrap();
    assert_eq!(lot.get_council(), "council");
    assert_eq!(lot.get_lot_status(), LotStatus::Done);
    assert!(lot.get_charity_funds().is_empty());
    assert!(lot.get_participants().is_empty());
    assert_eq!(lot.lottery_pot, 0);
    assert_eq!(lot.charity_pot, 0);
    assert_eq!(lot.ticket_price, TICKET_PRICE);
    assert_eq!(lot.charity_rate, CHARITY_RATE);
}

#[test]
fn reset_requires_done_status() {
    let mut lot = fresh_lot();
    lot.update_status(&council(), LotStatus::Open, 0).unwrap();
    assert_eq!(lot.reset_state(&council()), Err(LotError::InvalidState));
    assert_eq!(lot.get_lot_status(), LotStatus::Open);
}

#[test]
fn update_status_rejects_same_status() {
    let mut lot = fresh_lot();
    assert!(matches!(
        lot.update_status(&council(), LotStatus::Done, 0),
        Err(LotError::NoSameStatus)
    ));
    lot.update_status(&council(), LotStatus::Open, 0).unwrap();
    assert!(matches!(
        lot.update_status(&council(), LotStatus::Open, 0),
        Err(LotError::NoSameStatus)
    ));
    assert_eq!(lot.get_lot_status(), LotStatus::Open);
}

#[test]
fn done_can_move_straight_to_paused() {
    let mut lot = fresh_lot();
    assert!(matches!(lot.update_status(&council(), LotStatus::Paused, 0), Ok(None)));
    assert_eq!(lot.get_lot_status(), LotStatus::Paused);
}

#[test]
fn status_can_move_between_open_and_paused() {
    let mut lot = fresh_lot();
    assert!(matches!(lot.update_status(&council(), LotStatus::Open, 0), Ok(None)));
    assert_eq!(lot.get_lot_status(), LotStatus::Open);
    assert!(matches!(lot.update_status(&council(), LotStatus::Paused, 0), Ok(None)));
    assert_eq!(lot.get_lot_status(), LotStatus::Paused);
    assert!(matches!(lot.update_status(&council(), LotStatus::Open, 0), Ok(None)));
    assert_eq!(lot.get_lot_status(), LotStatus::Open);
}
