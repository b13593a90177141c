use star_duel::actor::{duel, DummyActor};
use star_duel::arena::{pair_up, Arena, DuelJob, Participant, Table};
use star_duel::config::{
    Rules, MAX_ROUNDS, MAX_TRAIL_ROUNDS, MIN_MATCH_PLAYERS, NUM_CHAT_ROUNDS, NUM_PLAYERS,
};
use star_duel::duel::StageAbort;
use star_duel::inventory::Inventory;
use star_duel::player::{PlayerTimer, PublicState};

fn inventory(star: usize, coin: usize, rock: usize, paper: usize, scissors: usize) -> Inventory {
    Inventory { star, coin, rock, paper, scissors }
}

fn arena_of(players: &[(u64, Inventory, usize)]) -> Arena {
    let mut arena = Arena::new();
    for (entity, inventory, timer) in players {
        let name = format!("Player {entity}");
        assert!(arena.add_player(*entity, name, *inventory, PlayerTimer(*timer)));
    }
    arena
}

fn seats(arena: &Arena) -> Vec<u64> {
    arena.tables.iter().flat_map(|sitting| sitting.table.0).collect()
}

fn player(arena: &Arena, entity: u64) -> &Participant {
    arena.players.iter().find(|player| player.entity == entity).unwrap()
}

#[test]
fn constants() {
    assert_eq!(NUM_PLAYERS, 16);
    assert_eq!(MIN_MATCH_PLAYERS, 2);
    assert_eq!(MAX_ROUNDS, 16);
    assert_eq!(NUM_CHAT_ROUNDS, 4);
    assert_eq!(MAX_TRAIL_ROUNDS, 3);
    let rules = Rules::default();
    assert_eq!(rules.chat_rounds, 4);
    assert_eq!(rules.max_retries, 3);
    assert!(!rules.fresh_history);
    assert!(rules.is_valid());
    assert!(!Rules { chat_rounds: usize::MAX, max_retries: 0, fresh_history: false }.is_valid());
    assert!(!Rules { chat_rounds: 1, max_retries: usize::MAX, fresh_history: false }.is_valid());
}

#[test]
fn table_seats() {
    let table = Table::new(4, 9);
    assert_eq!(table, Table([4, 9]));
    assert_eq!(table.first(), 4);
    assert_eq!(table.second(), 9);
}

#[test]
fn pair_up_takes_neighbours_and_drops_the_odd_one() {
    assert_eq!(pair_up(vec![5, 6, 7, 8, 9]), vec![Table([5, 6]), Table([7, 8])]);
    assert_eq!(pair_up(vec![1, 2]), vec![Table([1, 2])]);
    assert!(pair_up(vec![1]).is_empty());
    assert!(pair_up(vec![]).is_empty());
}

#[test]
fn add_player_refuses_a_taken_identity() {
    let mut arena = arena_of(&[(1, Inventory::default(), 16)]);
    assert!(!arena.add_player(1, "again".to_string(), Inventory::default(), PlayerTimer(16)));
    assert_eq!(arena.players.len(), 1);
    assert_eq!(arena.players[0].name, "Player 1");
    assert!(!arena.players[0].safe);
    assert!(!arena.players[0].dead);
}

#[test]
fn add_player_refuses_what_would_not_fit() {
    let mut arena = arena_of(&[(1, inventory(usize::MAX - 1, 0, 0, 0, 0), 16)]);
    assert!(!arena.add_player(2, "rich".to_string(), inventory(2, 0, 0, 0, 0), PlayerTimer(1)));
    assert!(arena.add_player(2, "poor".to_string(), inventory(1, 0, 0, 0, 0), PlayerTimer(1)));
    let mut cards = arena_of(&[(1, inventory(1, 0, usize::MAX - 2, 1, 0), 16)]);
    assert!(!cards.add_player(2, "x".to_string(), inventory(1, 0, 0, 1, 1), PlayerTimer(1)));
    assert!(cards.add_player(2, "y".to_string(), inventory(1, 0, 0, 0, 1), PlayerTimer(1)));
    assert_eq!(cards.holdings(), inventory(2, 0, usize::MAX - 2, 1, 1));
}

#[test]
fn public_state_counts_the_living() {
    let mut arena = arena_of(&[
        (1, inventory(3, 0, 1, 2, 3), 16),
        (2, inventory(0, 0, 10, 10, 10), 16),
        (3, inventory(5, 0, 0, 0, 0), 16),
        (4, inventory(1, 0, 4, 0, 1), 0),
    ]);
    arena.update_public_state();
    assert_eq!(arena.state, PublicState { player: 3, rock: 5, paper: 2, scissors: 4 });
    assert_eq!(arena.state.total_cards(), 11);
}

#[test]
fn players_are_marked_dead_or_safe_once() {
    let mut arena = arena_of(&[
        (1, inventory(3, 0, 1, 0, 0), 16),
        (2, inventory(0, 0, 1, 0, 0), 16),
        (3, inventory(3, 0, 0, 0, 0), 16),
        (4, inventory(2, 0, 0, 0, 0), 16),
    ]);
    arena.update_players();
    let marks: Vec<(bool, bool)> = arena.players.iter().map(|p| (p.dead, p.safe)).collect();
    assert_eq!(marks, vec![(false, false), (true, false), (false, true), (false, false)]);
    // a marked player is not looked at again
    arena.players[2].inventory = inventory(0, 0, 0, 0, 0);
    arena.update_players();
    assert!(arena.players[2].safe);
    assert!(!arena.players[2].dead);
}

#[test]
fn starvation_guard() {
    // one player is left alive; the others are dead
    let mut arena = arena_of(&[
        (1, inventory(3, 0, 2, 0, 0), 1),
        (2, inventory(0, 0, 1, 0, 0), 16),
        (3, inventory(0, 0, 0, 1, 0), 16),
    ]);
    let jobs = arena.tick(MIN_MATCH_PLAYERS);
    assert!(jobs.is_empty());
    assert!(arena.tables.is_empty());
    assert_eq!(arena.candidates(), vec![1]);
    assert!(!arena.is_game_over());
    // the last player that is not safe runs out of time
    arena.players[0].timer.decrease();
    assert!(arena.players[0].timer.time_up());
    assert!(arena.is_game_over());
    assert_eq!(arena.match_players(MIN_MATCH_PLAYERS), 0);
}

#[test]
fn nobody_is_matched_while_fewer_than_two_cards_are_left() {
    let mut arena = arena_of(&[
        (1, inventory(3, 0, 1, 0, 0), 16),
        (2, inventory(2, 0, 0, 0, 0), 16),
        (3, inventory(1, 0, 0, 0, 0), 16),
    ]);
    assert_eq!(arena.candidates(), vec![1, 2, 3]);
    assert_eq!(arena.match_players(2), 0);
    assert!(arena.tables.is_empty());
    arena.players[1].inventory.paper = 1;
    assert_eq!(arena.match_players(2), 1);
}

#[test]
fn nobody_is_matched_below_the_minimum() {
    let mut arena = arena_of(&[
        (1, inventory(3, 0, 1, 0, 0), 16),
        (2, inventory(2, 0, 1, 0, 0), 16),
        (3, inventory(1, 0, 1, 0, 0), 16),
    ]);
    assert_eq!(arena.match_players(4), 0);
    assert!(arena.tables.is_empty());
    assert_eq!(arena.match_players(3), 1);
    assert_eq!(arena.tables.len(), 1);
    assert!(!arena.tables[0].running);
}

#[test]
fn the_disqualified_are_never_seated() {
    for _ in 0..30 {
        let mut arena = arena_of(&[
            (1, inventory(3, 0, 1, 0, 0), 16),
            (2, inventory(0, 0, 5, 0, 0), 16),
            (3, inventory(3, 0, 0, 0, 0), 16),
            (4, inventory(2, 0, 1, 0, 0), 0),
            (5, inventory(2, 0, 0, 0, 0), 3),
            (6, inventory(1, 9, 0, 2, 0), 1),
            (7, inventory(9, 0, 0, 0, 1), 2),
        ]);
        assert_eq!(arena.candidates(), vec![1, 5, 6, 7]);
        assert_eq!(arena.match_players(2), 2);
        let mut seated = seats(&arena);
        seated.sort();
        assert_eq!(seated, vec![1, 5, 6, 7]);
    }
}

#[test]
fn nobody_sits_at_two_tables() {
    let players: Vec<(u64, Inventory, usize)> =
        (1..=9).map(|entity| (entity, Inventory::default(), 16)).collect();
    let mut arena = arena_of(&players);
    assert_eq!(arena.match_players(2), 4);
    let mut seated = seats(&arena);
    seated.sort();
    seated.dedup();
    assert_eq!(seated.len(), 8);
    // the one that is left finds no partner, and the seated are not seated again
    assert_eq!(arena.candidates().len(), 1);
    assert_eq!(arena.match_players(1), 0);
    assert_eq!(arena.match_players(2), 0);
    assert_eq!(arena.tables.len(), 4);
    let free = arena.candidates()[0];
    assert!(!seated.contains(&free));
    assert_eq!(arena.find_table(free), None);
    for entity in seated {
        let index = arena.find_table(entity).unwrap();
        assert!(arena.tables[index].table.0.contains(&entity));
    }
}

#[test]
fn the_order_of_the_seats_is_shuffled() {
    let players: Vec<(u64, Inventory, usize)> =
        (1..=16).map(|entity| (entity, Inventory::default(), 16)).collect();
    let mut orders = vec![];
    for _ in 0..20 {
        let mut arena = arena_of(&players);
        assert_eq!(arena.match_players(2), 8);
        orders.push(seats(&arena));
    }
    let in_order: Vec<u64> = (1..=16).collect();
    assert!(orders.iter().any(|order| *order != in_order));
    assert!(orders.iter().any(|order| *order != orders[0]));
}

#[test]
fn start_duel_hands_out_one_job_per_new_table() {
    let mut arena = arena_of(&[
        (1, inventory(3, 1, 1, 0, 0), 5),
        (2, inventory(2, 2, 0, 1, 0), 6),
        (3, inventory(1, 3, 0, 0, 1), 7),
        (4, inventory(4, 4, 1, 1, 1), 8),
    ]);
    arena.update_public_state();
    assert_eq!(arena.match_players(2), 2);
    let jobs = arena.start_duel();
    assert_eq!(jobs.len(), 2);
    for (job, sitting) in jobs.iter().zip(arena.tables.iter()) {
        assert_eq!(job.table, sitting.table);
        assert!(sitting.running);
        assert_eq!(job.state, PublicState { player: 4, rock: 2, paper: 2, scissors: 2 });
        for side in 0..2 {
            let data = &job.players[side];
            let seated = player(&arena, job.table.0[side]);
            assert_eq!(data.entity, seated.entity);
            assert_eq!(data.name, seated.name);
            assert_eq!(data.inventory, seated.inventory);
            assert_eq!(data.timer, seated.timer);
        }
    }
    // a table is started once
    assert!(arena.start_duel().is_empty());
    assert_eq!(arena.find_running(&jobs[0].table), Some(0));
    assert_eq!(arena.find_running(&jobs[1].table), Some(1));
    let turned = Table::new(jobs[0].table.second(), jobs[0].table.first());
    assert_eq!(arena.find_running(&turned), None);
}

fn seated_pair() -> (Arena, Table) {
    let mut arena = arena_of(&[
        (1, inventory(3, 5, 1, 0, 0), 5),
        (2, inventory(3, 5, 0, 0, 1), 1),
        (3, inventory(0, 7, 1, 1, 1), 9),
    ]);
    assert_eq!(arena.match_players(2), 1);
    let table = arena.tables[0].table;
    (arena, table)
}

#[test]
fn poll_needs_a_running_table() {
    let (mut arena, table) = seated_pair();
    let result = Ok([inventory(3, 5, 1, 0, 0), inventory(3, 5, 0, 0, 1)]);
    assert!(arena.accepts_result(&table, &result));
    assert!(!arena.poll_duel(&table, result));
    assert_eq!(arena.tables.len(), 1);
    assert_eq!(player(&arena, 1).timer, PlayerTimer(5));
    arena.start_duel();
    assert!(!arena.poll_duel(&Table::new(1, 3), Err(StageAbort::Bet)));
    assert!(!arena.poll_duel(&Table::new(table.second(), table.first()), Err(StageAbort::Bet)));
    assert_eq!(arena.tables.len(), 1);
}

#[test]
fn poll_writes_the_result_back_and_runs_the_timers_down() {
    let (mut arena, table) = seated_pair();
    arena.start_duel();
    let mut pair = [inventory(4, 6, 0, 0, 0), inventory(2, 4, 0, 0, 0)];
    if table.first() == 2 {
        pair.swap(0, 1);
    }
    let result = Ok(pair);
    assert!(arena.accepts_result(&table, &result));
    assert!(arena.poll_duel(&table, result));
    assert!(arena.tables.is_empty());
    assert_eq!(player(&arena, 1).inventory, inventory(4, 6, 0, 0, 0));
    assert_eq!(player(&arena, 2).inventory, inventory(2, 4, 0, 0, 0));
    assert_eq!(player(&arena, 1).timer, PlayerTimer(4));
    assert_eq!(player(&arena, 2).timer, PlayerTimer(0));
    assert_eq!(player(&arena, 3).inventory, inventory(0, 7, 1, 1, 1));
    assert_eq!(player(&arena, 3).timer, PlayerTimer(9));
    // player 1 is now safe, player 2 out of time, player 3 dead
    assert!(arena.is_game_over());
    arena.update_players();
    assert!(player(&arena, 1).safe);
    assert!(player(&arena, 3).dead);
    assert!(!player(&arena, 2).safe && !player(&arena, 2).dead);
}

#[test]
fn an_abort_leaves_the_inventories_and_still_counts() {
    let (mut arena, table) = seated_pair();
    arena.start_duel();
    let result = Err(StageAbort::Trade);
    assert!(arena.accepts_result(&table, &result));
    assert!(arena.poll_duel(&table, result));
    assert!(arena.tables.is_empty());
    assert_eq!(player(&arena, 1).inventory, inventory(3, 5, 1, 0, 0));
    assert_eq!(player(&arena, 2).inventory, inventory(3, 5, 0, 0, 1));
    assert_eq!(player(&arena, 3).inventory, inventory(0, 7, 1, 1, 1));
    assert_eq!(player(&arena, 1).timer, PlayerTimer(4));
    assert_eq!(player(&arena, 2).timer, PlayerTimer(0));
    assert_eq!(player(&arena, 3).timer, PlayerTimer(9));
}

#[test]
fn a_result_that_makes_or_loses_assets_is_not_accepted() {
    let (mut arena, table) = seated_pair();
    arena.start_duel();
    let richer = Ok([inventory(4, 5, 1, 0, 0), inventory(3, 5, 0, 0, 1)]);
    assert!(!arena.accepts_result(&table, &richer));
    let one_card_gone = Ok([inventory(3, 5, 0, 0, 0), inventory(3, 5, 0, 0, 1)]);
    assert!(!arena.accepts_result(&table, &one_card_gone));
    let both_cards_gone = Ok([inventory(3, 5, 0, 0, 0), inventory(3, 5, 0, 0, 0)]);
    assert!(arena.accepts_result(&table, &both_cards_gone));
    // for a table that is not running anything goes, since nothing is applied
    assert!(arena.accepts_result(&Table::new(7, 8), &richer));
}

fn run(job: DuelJob) -> (Table, Result<[Inventory; 2], StageAbort>) {
    let mut first = DummyActor;
    let mut second = DummyActor;
    let DuelJob { table, state, players } = job;
    (table, duel(&Rules::default(), state, &mut first, &mut second, players))
}

#[test]
fn eight_players_make_four_tables_that_all_resolve() {
    let players: Vec<(u64, Inventory, usize)> =
        (1..=8).map(|entity| (entity, Inventory::default(), MAX_ROUNDS)).collect();
    let mut arena = arena_of(&players);
    let before = arena.holdings();
    let jobs = arena.tick(MIN_MATCH_PLAYERS);
    assert_eq!(jobs.len(), 4);
    assert_eq!(arena.tables.len(), 4);
    assert_eq!(arena.state, PublicState { player: 8, rock: 32, paper: 32, scissors: 32 });
    let results: Vec<_> = jobs.into_iter().map(run).collect();
    for (table, result) in results {
        assert!(result.is_ok());
        assert!(arena.accepts_result(&table, &result));
        assert!(arena.poll_duel(&table, result));
    }
    assert!(arena.tables.is_empty());
    let after = arena.holdings();
    assert_eq!(after.star, before.star);
    assert_eq!(after.coin, before.coin);
    // every duel of the default actors draws two cards
    assert_eq!(after.num_cards(), before.num_cards() - 8);
    for player in &arena.players {
        assert_eq!(player.timer, PlayerTimer(MAX_ROUNDS - 1));
    }
}

#[test]
fn a_game_of_default_actors_runs_until_nobody_can_be_matched() {
    let players: Vec<(u64, Inventory, usize)> =
        (1..=6).map(|entity| (entity, Inventory::default(), 4)).collect();
    let mut arena = arena_of(&players);
    let stars = arena.holdings().star;
    let mut ticks = 0;
    loop {
        let mut timers: Vec<usize> = arena.players.iter().map(|p| p.timer.0).collect();
        let jobs = arena.tick(MIN_MATCH_PLAYERS);
        if jobs.is_empty() {
            break;
        }
        let mut seated = seats(&arena);
        seated.sort();
        seated.dedup();
        assert_eq!(seated.len(), 2 * arena.tables.len());
        for job in jobs {
            let (table, result) = run(job);
            assert!(arena.accepts_result(&table, &result));
            assert!(arena.poll_duel(&table, result));
            for entity in table.0 {
                let at = arena.find_player(entity).unwrap();
                assert_eq!(arena.players[at].timer.0, timers[at] - 1);
                timers[at] -= 1;
            }
        }
        let now: Vec<usize> = arena.players.iter().map(|p| p.timer.0).collect();
        assert_eq!(now, timers);
        assert_eq!(arena.holdings().star, stars);
        assert!(arena.tables.is_empty());
        ticks += 1;
        // six players with four rounds each sit through at most twelve duels
        assert!(ticks <= 12);
    }
    assert!(ticks >= 1);
    assert!(arena.candidates().len() < MIN_MATCH_PLAYERS || arena.holdings().num_cards() < 2);
    assert_eq!(arena.is_game_over(), arena.candidates().is_empty());
}

#[test]
fn a_table_with_an_unfit_or_missing_player_is_passed_over() {
    let mut arena = arena_of(&[
        (1, inventory(3, 0, 1, 0, 0), 5),
        (2, inventory(3, 0, 1, 0, 0), 5),
        (3, inventory(3, 0, 1, 0, 0), 5),
        (4, inventory(3, 0, 1, 0, 0), 5),
        (5, inventory(3, 0, 1, 0, 0), 5),
        (6, inventory(3, 0, 1, 0, 0), 5),
        (7, inventory(3, 0, 1, 0, 0), 5),
        (8, inventory(3, 0, 1, 0, 0), 5),
    ]);
    assert_eq!(arena.match_players(2), 4);
    let seated: Vec<[u64; 2]> = arena.tables.iter().map(|sitting| sitting.table.0).collect();
    // the first table loses a player's last star, the second a player's time,
    // the third a player altogether; the fourth is left alone
    let dead = arena.find_player(seated[0][1]).unwrap();
    arena.players[dead].inventory.star = 0;
    let late = arena.find_player(seated[1][0]).unwrap();
    arena.players[late].timer = PlayerTimer(0);
    let gone = arena.find_player(seated[2][0]).unwrap();
    arena.players.remove(gone);

    let jobs = arena.start_duel();
    assert_eq!(jobs.len(), 1);
    assert_eq!(jobs[0].table.0, seated[3]);
    let running: Vec<bool> = arena.tables.iter().map(|sitting| sitting.running).collect();
    assert_eq!(running, vec![false, false, false, true]);
    assert_eq!(arena.tables.len(), 4);
    assert_eq!(arena.players.len(), 7);

    // once the players are fit again their tables start, and no table twice
    let dead = arena.find_player(seated[0][1]).unwrap();
    arena.players[dead].inventory.star = 1;
    let late = arena.find_player(seated[1][0]).unwrap();
    arena.players[late].timer = PlayerTimer(1);
    let jobs = arena.start_duel();
    let started: Vec<[u64; 2]> = jobs.iter().map(|job| job.table.0).collect();
    assert_eq!(started, vec![seated[0], seated[1]]);
    let running: Vec<bool> = arena.tables.iter().map(|sitting| sitting.running).collect();
    assert_eq!(running, vec![true, true, false, true]);
    assert!(arena.start_duel().is_empty());
}

#[test]
fn a_safe_player_at_a_table_still_duels() {
    let (mut arena, table) = seated_pair();
    let at = arena.find_player(table.first()).unwrap();
    arena.players[at].inventory = inventory(3, 0, 0, 0, 0);
    assert!(arena.players[at].inventory.is_safe());
    assert_eq!(arena.start_duel().len(), 1);
}

#[test]
fn poll_writes_back_in_the_order_of_the_table() {
    let mut arena = arena_of(&[
        (1, inventory(3, 5, 1, 0, 0), 16),
        (2, inventory(3, 5, 0, 0, 1), 16),
        (3, inventory(2, 7, 1, 1, 1), 16),
    ]);
    arena.players[2].timer = PlayerTimer(0);
    assert_eq!(arena.match_players(2), 1);
    let table = arena.tables[0].table;
    arena.start_duel();
    let m = inventory(4, 6, 0, 0, 0);
    let n = inventory(2, 4, 0, 0, 0);
    assert!(arena.poll_duel(&table, Ok([m, n])));
    assert_eq!(player(&arena, table.first()).inventory, m);
    assert_eq!(player(&arena, table.second()).inventory, n);
    assert_eq!(player(&arena, table.first()).timer, PlayerTimer(15));
    assert_eq!(player(&arena, table.second()).timer, PlayerTimer(15));
    assert_eq!(player(&arena, 3).inventory, inventory(2, 7, 1, 1, 1));
    assert_eq!(player(&arena, 3).timer, PlayerTimer(0));
    assert!(arena.tables.is_empty());
}

#[test]
fn poll_takes_any_result_and_a_table_whose_player_is_gone() {
    let (mut arena, table) = seated_pair();
    arena.start_duel();
    let gone = arena.find_player(table.second()).unwrap();
    arena.players.remove(gone);
    // the result makes a star, which `accepts_result` would not let pass
    assert!(arena.poll_duel(&table, Ok([inventory(9, 9, 9, 9, 9), inventory(1, 1, 1, 1, 1)])));
    assert_eq!(player(&arena, table.first()).inventory, inventory(9, 9, 9, 9, 9));
    assert!(arena.tables.is_empty());
    assert_eq!(arena.players.len(), 2);
}

#[test]
fn a_timer_that_has_run_out_stays_at_zero() {
    let (mut arena, table) = seated_pair();
    arena.start_duel();
    let at = arena.find_player(table.first()).unwrap();
    arena.players[at].timer = PlayerTimer(0);
    assert!(arena.poll_duel(&table, Err(StageAbort::Duel)));
    assert_eq!(arena.players[at].timer, PlayerTimer(0));
}
