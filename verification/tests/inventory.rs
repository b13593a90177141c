use star_duel::card::Card;
use star_duel::inventory::{DuelError, Inventory, Stake, StakeError, Trade, TradeError};

fn inventory(star: usize, coin: usize, rock: usize, paper: usize, scissors: usize) -> Inventory {
    Inventory { star, coin, rock, paper, scissors }
}

fn trade(star: usize, coin: usize, rock: usize, paper: usize, scissors: usize) -> Trade {
    Trade { star, coin, rock, paper, scissors }
}

#[test]
fn default_inventory_and_stake() {
    assert_eq!(Inventory::default(), inventory(3, 10, 4, 4, 4));
    assert_eq!(Stake::default(), Stake { star: 1, coin: 0 });
    assert_eq!(Trade::default(), trade(0, 0, 0, 0, 0));
}

#[test]
fn derived_predicates() {
    assert!(inventory(1, 0, 0, 0, 0).is_alive());
    assert!(!inventory(0, 9, 1, 1, 1).is_alive());
    assert!(inventory(3, 0, 0, 0, 0).is_safe());
    assert!(!inventory(2, 0, 0, 0, 0).is_safe());
    assert!(!inventory(3, 0, 0, 1, 0).is_safe());
    assert!(inventory(0, 0, 0, 0, 1).can_duel());
    assert!(!inventory(5, 5, 0, 0, 0).can_duel());
    assert_eq!(inventory(1, 2, 3, 4, 5).num_cards(), 12);
}

#[test]
fn split_trade_takes_every_component() {
    let rest = inventory(3, 10, 4, 4, 4).split_trade(&trade(1, 2, 3, 4, 0));
    assert_eq!(rest, Ok(inventory(2, 8, 1, 0, 4)));
}

#[test]
fn split_trade_names_the_first_shortage() {
    let poor = inventory(1, 1, 1, 1, 1);
    assert_eq!(poor.split_trade(&trade(2, 2, 2, 2, 2)), Err(TradeError::Star(1, 2)));
    assert_eq!(poor.split_trade(&trade(1, 2, 2, 2, 2)), Err(TradeError::Coin(1, 2)));
    assert_eq!(poor.split_trade(&trade(1, 1, 2, 2, 2)), Err(TradeError::Rock(1, 2)));
    assert_eq!(poor.split_trade(&trade(1, 1, 1, 2, 2)), Err(TradeError::Paper(1, 2)));
    assert_eq!(poor.split_trade(&trade(1, 1, 1, 1, 2)), Err(TradeError::Scissors(1, 2)));
    assert_eq!(poor.split_trade(&trade(1, 1, 1, 1, 1)), Ok(inventory(0, 0, 0, 0, 0)));
}

#[test]
fn split_stake_checks_star_before_coin() {
    let mine = inventory(2, 5, 1, 1, 1);
    assert_eq!(mine.split_stake(&Stake { star: 3, coin: 9 }), Err(StakeError::Star(2, 3)));
    assert_eq!(mine.split_stake(&Stake { star: 2, coin: 9 }), Err(StakeError::Coin(5, 9)));
    assert_eq!(mine.split_stake(&Stake { star: 2, coin: 5 }), Ok(inventory(0, 0, 1, 1, 1)));
}

#[test]
fn split_duel_removes_exactly_one_card() {
    let mine = inventory(3, 0, 2, 0, 1);
    assert_eq!(mine.split_duel(Card::Rock), Ok(inventory(3, 0, 1, 0, 1)));
    assert_eq!(mine.split_duel(Card::Paper), Err(DuelError::Paper));
    assert_eq!(mine.split_duel(Card::Scissors), Ok(inventory(3, 0, 2, 0, 0)));
    assert_eq!(inventory(1, 1, 0, 1, 0).split_duel(Card::Rock), Err(DuelError::Rock));
    assert_eq!(inventory(1, 1, 1, 1, 0).split_duel(Card::Scissors), Err(DuelError::Scissors));
}

#[test]
fn merges_add_component_wise() {
    let mut mine = inventory(1, 2, 3, 4, 5);
    mine.apply_trade(&trade(5, 4, 3, 2, 1));
    assert_eq!(mine, inventory(6, 6, 6, 6, 6));
    mine.apply_stake(&Stake { star: 2, coin: 7 });
    assert_eq!(mine, inventory(8, 13, 6, 6, 6));
}

#[test]
fn splits_leave_the_inventory_untouched() {
    let mine = inventory(3, 10, 4, 4, 4);
    let _ = mine.split_trade(&trade(1, 1, 1, 1, 1));
    let _ = mine.split_stake(&Stake { star: 1, coin: 1 });
    let _ = mine.split_duel(Card::Rock);
    assert_eq!(mine, inventory(3, 10, 4, 4, 4));
}

#[test]
fn normalize_caps_to_holdings_and_keeps_a_star() {
    let mine = inventory(3, 10, 4, 0, 1);
    assert_eq!(trade(9, 99, 9, 9, 9).normalize(&mine), trade(2, 10, 4, 0, 1));
    assert_eq!(trade(3, 0, 0, 0, 0).normalize(&mine), trade(2, 0, 0, 0, 0));
    assert_eq!(trade(1, 2, 3, 0, 1).normalize(&mine), trade(1, 2, 3, 0, 1));
    assert_eq!(trade(1, 0, 0, 0, 0).normalize(&inventory(1, 0, 0, 0, 0)), trade(0, 0, 0, 0, 0));
}

#[test]
fn normalize_is_idempotent() {
    let mine = inventory(3, 10, 4, 0, 1);
    let once = trade(9, 3, 9, 9, 0).normalize(&mine);
    assert_eq!(once.normalize(&mine), once);
}

#[test]
fn normalized_trade_splits_and_leaves_a_star() {
    for star in 1..5 {
        let mine = inventory(star, 2, 1, 1, 1);
        let wanted = trade(7, 7, 7, 7, 7).normalize(&mine);
        let rest = mine.split_trade(&wanted).unwrap();
        assert_eq!(rest, inventory(1, 0, 0, 0, 0));
    }
}

#[test]
fn stake_normalize_forces_one_star() {
    assert_eq!(Stake { star: 0, coin: 4 }.normalize(), Stake { star: 1, coin: 4 });
    assert_eq!(Stake { star: 1, coin: 0 }.normalize(), Stake { star: 1, coin: 0 });
    assert_eq!(Stake { star: 6, coin: 2 }.normalize(), Stake { star: 6, coin: 2 });
}

#[test]
fn stake_addition_is_pointwise_commutative_and_associative() {
    let a = Stake { star: 1, coin: 2 };
    let b = Stake { star: 3, coin: 4 };
    let c = Stake { star: 5, coin: 6 };
    assert_eq!(a + b, Stake { star: 4, coin: 6 });
    assert_eq!(a + b, b + a);
    assert_eq!((a + b) + c, a + (b + c));
    assert_eq!((a + b) + c, Stake { star: 9, coin: 12 });
}

#[test]
fn trade_error_messages() {
    assert_eq!(
        TradeError::Star(0, 5).to_string(),
        "cannot take out 5 star(s) since you only have 0"
    );
    assert_eq!(
        TradeError::Coin(10, 1234).to_string(),
        "cannot take out 1234 coin(s) since you only have 10"
    );
    assert_eq!(
        TradeError::Rock(1, 2).to_string(),
        "cannot take out 2 rock card(s) since you only have 1"
    );
    assert_eq!(
        TradeError::Paper(3, 40).to_string(),
        "cannot take out 40 paper card(s) since you only have 3"
    );
    assert_eq!(
        TradeError::Scissors(99, 100).to_string(),
        "cannot take out 100 scissors card(s) since you only have 99"
    );
}

#[test]
fn stake_and_duel_error_messages() {
    assert_eq!(
        StakeError::Star(3, 5).to_string(),
        "cannot take out 5 star(s) since you only have 3 star(s)"
    );
    assert_eq!(
        StakeError::Coin(0, 17).to_string(),
        "cannot take out 17 coin(s) since you only have 0 coin(s)"
    );
    assert_eq!(
        DuelError::Rock.to_string(),
        "cannot draw rock since you do not have such card"
    );
    assert_eq!(
        DuelError::Paper.to_string(),
        "cannot draw paper since you do not have such card"
    );
    assert_eq!(
        DuelError::Scissors.to_string(),
        "cannot draw scissors since you do not have such card"
    );
}

#[test]
fn numbers_are_written_in_decimal() {
    assert_eq!(star_duel::text::decimal_text(0), "0");
    assert_eq!(star_duel::text::decimal_text(7), "7");
    assert_eq!(star_duel::text::decimal_text(10), "10");
    assert_eq!(star_duel::text::decimal_text(1090), "1090");
    assert_eq!(star_duel::text::decimal_text(9876543210), "9876543210");
    assert_eq!(star_duel::text::decimal_text(usize::MAX), usize::MAX.to_string());
}
