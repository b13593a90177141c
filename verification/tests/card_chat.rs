use star_duel::card::Card;
use star_duel::chat::{observe, ChatRecord, Role, ASSISTANT_NAME, SYSTEM_NAME};
use star_duel::inventory::Inventory;
use star_duel::player::{OpponentData, PlayerData, PlayerTimer, PublicState};

#[test]
fn compare_is_cyclic() {
    assert_eq!(Card::Rock.compare(Card::Rock), None);
    assert_eq!(Card::Rock.compare(Card::Paper), Some(1));
    assert_eq!(Card::Rock.compare(Card::Scissors), Some(0));
    assert_eq!(Card::Paper.compare(Card::Rock), Some(0));
    assert_eq!(Card::Paper.compare(Card::Paper), None);
    assert_eq!(Card::Paper.compare(Card::Scissors), Some(1));
    assert_eq!(Card::Scissors.compare(Card::Rock), Some(1));
    assert_eq!(Card::Scissors.compare(Card::Paper), Some(0));
    assert_eq!(Card::Scissors.compare(Card::Scissors), None);
}

#[test]
fn compare_is_antisymmetric() {
    let cards = [Card::Rock, Card::Paper, Card::Scissors];
    for a in cards {
        for b in cards {
            match a.compare(b) {
                None => assert_eq!(b.compare(a), None),
                Some(0) => assert_eq!(b.compare(a), Some(1)),
                Some(1) => assert_eq!(b.compare(a), Some(0)),
                Some(_) => unreachable!(),
            }
        }
    }
}

#[test]
fn card_names() {
    assert_eq!(Card::Rock.to_string(), "Rock");
    assert_eq!(Card::Paper.to_string(), "Paper");
    assert_eq!(Card::Scissors.to_string(), "Scissors");
}

#[test]
fn timer_counts_down_and_stops_at_zero() {
    let mut timer = PlayerTimer(2);
    assert!(!timer.time_up());
    timer.decrease();
    assert_eq!(timer, PlayerTimer(1));
    timer.decrease();
    assert_eq!(timer, PlayerTimer(0));
    assert!(timer.time_up());
    timer.decrease();
    assert_eq!(timer, PlayerTimer(0));
}

#[test]
fn public_state_total() {
    let state = PublicState { player: 7, rock: 1, paper: 20, scissors: 300 };
    assert_eq!(state.total_cards(), 321);
}

#[test]
fn opponent_shows_name_stars_and_card_count() {
    let player = PlayerData {
        entity: 4,
        name: "Ann".to_string(),
        inventory: Inventory { star: 2, coin: 50, rock: 1, paper: 2, scissors: 3 },
        timer: PlayerTimer(9),
    };
    let seen = OpponentData::new(&player);
    assert_eq!(seen.name, "Ann");
    assert_eq!(seen.star, 2);
    assert_eq!(seen.card, 6);
}

#[test]
fn actor_role_trims_the_name() {
    match Role::actor(7, "  Bob \n") {
        Role::Actor(entity, name) => {
            assert_eq!(entity, 7);
            assert_eq!(name, "Bob");
        }
        _ => panic!("not an actor"),
    }
    assert_eq!(Role::actor(7, "\u{3000}Li Na\u{2003}\t"), Role::Actor(7, "Li Na".to_string()));
}

#[test]
fn role_labels() {
    assert_eq!(Role::Nobody.to_string(), "");
    assert_eq!(Role::Transparent(1).to_string(), "");
    assert_eq!(Role::System(1).to_string(), SYSTEM_NAME);
    assert_eq!(Role::System(1).to_string(), "System");
    assert_eq!(Role::Assistant(1).to_string(), ASSISTANT_NAME);
    assert_eq!(Role::Assistant(1).to_string(), "Stellaris");
    assert_eq!(Role::actor(1, "Ann").to_string(), "Ann");
}

#[test]
fn roles_compare_by_kind_entity_and_name() {
    assert_eq!(Role::Nobody, Role::default());
    assert_eq!(Role::System(1), Role::System(1));
    assert_ne!(Role::System(1), Role::System(2));
    assert_ne!(Role::System(1), Role::Assistant(1));
    assert_ne!(Role::Transparent(1), Role::Nobody);
    assert_eq!(Role::actor(1, "Ann"), Role::actor(1, " Ann "));
    assert_ne!(Role::actor(1, "Ann"), Role::actor(1, "Bob"));
    assert_ne!(Role::actor(1, "Ann"), Role::actor(2, "Ann"));
}

#[test]
fn records_get_new_identities_and_compare_by_them() {
    let one = ChatRecord::new(Role::System(1), "hello");
    let two = ChatRecord::new(Role::System(1), "hello");
    assert_ne!(one.id, 0);
    assert_ne!(two.id, 0);
    assert_ne!(one.id, two.id);
    assert_ne!(one, two);
    let mut same = one.clone();
    same.content = "something else".to_string();
    same.role = Role::Nobody;
    assert_eq!(one, same);
    assert_eq!(one.content, "hello");
    assert_eq!(one.role, Role::System(1));
}

#[test]
fn record_line() {
    let record = ChatRecord::new(Role::actor(3, "Ann"), "  I offer a rock.\n");
    assert_eq!(record.to_string(), "Ann: I offer a rock.");
    let quiet = ChatRecord::new(Role::Transparent(3), "aside");
    assert_eq!(quiet.to_string(), ": aside");
}

#[test]
fn observe_hides_only_what_an_assistant_told_the_other() {
    let me = PlayerData {
        entity: 1,
        name: "Ann".to_string(),
        inventory: Inventory::default(),
        timer: PlayerTimer(3),
    };
    let history = vec![
        ChatRecord::new(Role::Assistant(1), "for Ann"),
        ChatRecord::new(Role::Assistant(2), "for Bob"),
        ChatRecord::new(Role::System(2), "system"),
        ChatRecord::new(Role::Transparent(2), "transparent"),
        ChatRecord::new(Role::actor(2, "Bob"), "public"),
        ChatRecord::new(Role::Nobody, "nobody"),
        ChatRecord::new(Role::Assistant(2), "for Bob again"),
    ];
    let seen = observe(&me, &history);
    let contents: Vec<&str> = seen.iter().map(|record| record.content.as_str()).collect();
    assert_eq!(contents, vec!["for Ann", "system", "transparent", "public", "nobody"]);
    assert_eq!(seen[0].id, history[0].id);
    assert_eq!(seen[1].id, history[2].id);
    assert_eq!(history.len(), 7);
    assert!(observe(&me, &vec![]).is_empty());
}
