//! The operations of a tick.

use itertools::Itertools;
use vstd::prelude::*;
use vstd::seq_lib::*;

use crate::arena::laws::{
    lemma_candidates, lemma_idle_extended, lemma_poll_keeps_count, lemma_poll_keeps_order,
    lemma_same_players_wf, lemma_same_seats, lemma_seated_can_start, lemma_starting_is_idle,
    lemma_unique_position,
};
use crate::arena::sums::{
    lemma_sum_bounds, lemma_sum_covers, lemma_sum_covers_pair, lemma_sum_prefix, lemma_sum_step,
    sum_alive, sum_assets,
};
use crate::arena::{
    after_duel, can_start, candidates_of, distinct, exclusive, fit_to_duel, idle, is_at, is_seated,
    marked, returned, seated_in_order, sits_at, starting, Arena, DuelJob, Participant, Sitting,
    Table,
};
use crate::chance::shuffle;
use crate::duel::{is_redistribution, redistributes, StageAbort};
use crate::inventory::Inventory;
use crate::player::{PlayerTimer, PublicState};

verus! {

/// Calls `tuples` of itertools on the items, which groups them two by two
/// in their order and drops a last item that has no partner, and collects
/// the pairs.
#[verifier::external_body]
fn in_pairs(items: Vec<u64>) -> (pairs: Vec<(u64, u64)>)
    ensures
        pairs@.len() == items@.len() / 2,
        forall|k: int|
            0 <= k < pairs@.len() ==> #[trigger] pairs@[k] == (items@[2 * k], items@[2 * k + 1]),
{
    items.into_iter().tuples().collect()
}

/// Seats the players two by two in the order given: the first with the
/// second, the third with the fourth, and so on. A last player without a
/// partner gets no table.
pub fn pair_up(order: Vec<u64>) -> (tables: Vec<Table>)
    ensures
        tables@.len() == order@.len() / 2,
        forall|k: int|
            0 <= k < tables@.len() ==> (#[trigger] tables@[k]).seat(0) == order@[2 * k]
                && tables@[k].seat(1) == order@[2 * k + 1],
{
    let ghost listed = order@;
    let pairs = in_pairs(order);
    let mut tables: Vec<Table> = Vec::new();
    let mut index: usize = 0;
    while index < pairs.len()
        invariant
            index <= pairs.len(),
            tables@.len() == index,
            pairs@.len() == listed.len() / 2,
            forall|k: int|
                0 <= k < pairs@.len() ==> #[trigger] pairs@[k] == (
                    listed[2 * k],
                    listed[2 * k + 1],
                ),
            forall|k: int|
                0 <= k < index ==> (#[trigger] tables@[k]).seat(0) == listed[2 * k]
                    && tables@[k].seat(1) == listed[2 * k + 1],
        decreases pairs.len() - index,
    {
        let pair = pairs[index];
        tables.push(Table::new(pair.0, pair.1));
        index += 1;
    }
    tables
}

impl Arena {
    /// An arena without players.
    pub fn new() -> (arena: Arena)
        ensures
            arena.wf(),
            arena.players@.len() == 0,
            arena.tables@.len() == 0,
            arena.state == (PublicState { player: 0, rock: 0, paper: 0, scissors: 0 }),
    {
        Arena {
            players: Vec::new(),
            tables: Vec::new(),
            state: PublicState { player: 0, rock: 0, paper: 0, scissors: 0 },
        }
    }

    /// The position of the player with the identity `entity`, if there is
    /// one.
    pub fn find_player(&self, entity: u64) -> (found: Option<usize>)
        ensures
            found matches Some(index) ==> is_at(self.players@, index as int, entity),
            found is None ==> forall|index: int| !is_at(self.players@, index, entity),
    {
        let mut index: usize = 0;
        while index < self.players.len()
            invariant
                index <= self.players.len(),
                forall|at: int| 0 <= at < index ==> !is_at(self.players@, at, entity),
            decreases self.players.len() - index,
        {
            if self.players[index].entity == entity {
                return Some(index);
            }
            index += 1;
        }
        None
    }

    /// The position of the table at which `entity` sits, if it sits at one.
    pub fn find_table(&self, entity: u64) -> (found: Option<usize>)
        ensures
            found matches Some(index) ==> sits_at(self.tables@, index as int, entity),
            found is None <==> !is_seated(self.tables@, entity),
    {
        let mut index: usize = 0;
        while index < self.tables.len()
            invariant
                index <= self.tables.len(),
                forall|at: int| 0 <= at < index ==> !sits_at(self.tables@, at, entity),
            decreases self.tables.len() - index,
        {
            if self.tables[index].table.first() == entity || self.tables[index].table.second()
                == entity {
                assert(sits_at(self.tables@, index as int, entity));
                return Some(index);
            }
            index += 1;
        }
        None
    }

    /// Adds a player to the game. The player is refused, and nothing
    /// changes, if its identity is taken or if what all players hold would
    /// no longer fit a machine word.
    pub fn add_player(
        &mut self,
        entity: u64,
        name: String,
        inventory: Inventory,
        timer: PlayerTimer,
    ) -> (added: bool)
        requires
            old(self).wf(),
        ensures
            final(self).wf(),
            final(self).tables@ == old(self).tables@,
            final(self).state == old(self).state,
            added <==> (forall|index: int| !is_at(old(self).players@, index, entity))
                && sum_assets(old(self).players@).plus(inventory@).fits(),
            added ==> final(self).players@ == old(self).players@.push(
                Participant { entity, name, inventory, timer, safe: false, dead: false },
            ),
            !added ==> final(self).players@ == old(self).players@,
    {
        if self.find_player(entity).is_some() {
            return false;
        }
        let held = self.holdings();
        if inventory.star > usize::MAX - held.star || inventory.coin > usize::MAX - held.coin {
            return false;
        }
        let cards = held.rock + held.paper + held.scissors;
        if inventory.rock > usize::MAX - cards || inventory.paper > usize::MAX - cards
            - inventory.rock || inventory.scissors > usize::MAX - cards - inventory.rock
            - inventory.paper {
            return false;
        }
        let player = Participant { entity, name, inventory, timer, safe: false, dead: false };
        proof {
            let after = self.players@.push(player);
            assert(after.drop_last() =~= self.players@);
            assert forall|index: int, seated: u64| sits_at(self.tables@, index, seated)
                implies exists|
                at: int,
            |
                is_at(after, at, seated) && after[at].is_active() by {
                let at = choose|at: int|
                    is_at(self.players@, at, seated) && self.players@[at].is_active();
                assert(is_at(after, at, seated) && after[at].is_active());
            }
        }
        self.players.push(player);
        proof {
            assert(self.players@.drop_last() =~= old(self).players@);
            assert(sum_assets(self.players@) == sum_assets(old(self).players@).plus(inventory@));
            lemma_sum_prefix(old(self).players@, old(self).players@.len() as int);
            assert(old(self).players@.take(old(self).players@.len() as int) =~= old(self).players@);
            assert(sum_assets(self.players@).fits());
            assert forall|i: int, j: int| 0 <= i < j < self.players@.len() implies (
            #[trigger] self.players@[i]).entity != (#[trigger] self.players@[j]).entity by {
                if j == self.players@.len() - 1 {
                    assert(!is_at(old(self).players@, i, entity));
                }
            }
            assert(distinct(self.players@));
            assert(self.seated_are_active());
        }
        true
    }

    /// What all players hold together.
    pub fn holdings(&self) -> (held: Inventory)
        requires
            self.wf(),
        ensures
            held@ == sum_assets(self.players@),
    {
        let mut held = Inventory { star: 0, coin: 0, rock: 0, paper: 0, scissors: 0 };
        let mut index: usize = 0;
        while index < self.players.len()
            invariant
                index <= self.players.len(),
                held@ == sum_assets(self.players@.take(index as int)),
                sum_assets(self.players@).fits(),
            decreases self.players.len() - index,
        {
            proof {
                lemma_sum_step(self.players@, index as int);
                lemma_sum_bounds(self.players@, index as int + 1);
            }
            let inventory = &self.players[index].inventory;
            held.star += inventory.star;
            held.coin += inventory.coin;
            held.rock += inventory.rock;
            held.paper += inventory.paper;
            held.scissors += inventory.scissors;
            index += 1;
        }
        assert(self.players@.take(index as int) =~= self.players@);
        held
    }

    /// Counts the players that have a star and the cards they hold, and
    /// makes that the public state.
    pub fn update_public_state(&mut self)
        requires
            old(self).wf(),
        ensures
            final(self).wf(),
            final(self).players@ == old(self).players@,
            final(self).tables@ == old(self).tables@,
            final(self).state.player == sum_alive(old(self).players@).0,
            final(self).state.rock == sum_alive(old(self).players@).1.rock,
            final(self).state.paper == sum_alive(old(self).players@).1.paper,
            final(self).state.scissors == sum_alive(old(self).players@).1.scissors,
    {
        let mut state = PublicState { player: 0, rock: 0, paper: 0, scissors: 0 };
        let mut index: usize = 0;
        while index < self.players.len()
            invariant
                index <= self.players.len(),
                sum_assets(self.players@).fits(),
                state.player == sum_alive(self.players@.take(index as int)).0,
                state.rock == sum_alive(self.players@.take(index as int)).1.rock,
                state.paper == sum_alive(self.players@.take(index as int)).1.paper,
                state.scissors == sum_alive(self.players@.take(index as int)).1.scissors,
            decreases self.players.len() - index,
        {
            proof {
                lemma_sum_step(self.players@, index as int);
                lemma_sum_bounds(self.players@, index as int);
                lemma_sum_bounds(self.players@, index as int + 1);
            }
            let inventory = &self.players[index].inventory;
            if inventory.is_alive() {
                state.player += 1;
                state.rock += inventory.rock;
                state.paper += inventory.paper;
                state.scissors += inventory.scissors;
            }
            index += 1;
        }
        assert(self.players@.take(index as int) =~= self.players@);
        self.state = state;
    }

    /// The identities of the players that may be matched now, in the order
    /// of the players.
    pub fn candidates(&self) -> (found: Vec<u64>)
        requires
            self.wf(),
        ensures
            found@ == candidates_of(self.players@, self.tables@),
    {
        let mut found: Vec<u64> = Vec::new();
        let mut index: usize = 0;
        while index < self.players.len()
            invariant
                index <= self.players.len(),
                found@ == candidates_of(self.players@.take(index as int), self.tables@),
            decreases self.players.len() - index,
        {
            proof {
                assert(self.players@.take(index + 1).drop_last() =~= self.players@.take(
                    index as int,
                ));
            }
            let player = &self.players[index];
            if player.is_active() && self.find_table(player.entity).is_none() {
                found.push(player.entity);
            }
            index += 1;
        }
        assert(self.players@.take(index as int) =~= self.players@);
        found
    }

    /// Matches the players that are free and fit to duel. Nothing happens
    /// while fewer than two cards are left in the game or fewer than
    /// `min_players` players can be matched. Otherwise these players are
    /// shuffled and seated two by two at new tables; with an odd number, one
    /// of them stays free. Returns the number of new tables.
    pub fn match_players(&mut self, min_players: usize) -> (made: usize)
        requires
            old(self).wf(),
        ensures
            final(self).wf(),
            final(self).players@ == old(self).players@,
            final(self).state == old(self).state,
            final(self).tables@.take(old(self).tables@.len() as int) == old(self).tables@,
            made == (if sum_assets(old(self).players@).cards() < 2 || candidates_of(
                old(self).players@,
                old(self).tables@,
            ).len() < min_players {
                0
            } else {
                candidates_of(old(self).players@, old(self).tables@).len() / 2
            }),
            final(self).tables@.len() == old(self).tables@.len() + made,
            exists|order: Seq<u64>|
                order.to_multiset() == candidates_of(
                    old(self).players@,
                    old(self).tables@,
                ).to_multiset() && #[trigger] seated_in_order(
                    final(self).tables@,
                    final(self).tables@.len() - made,
                    order.take(2 * made),
                ),
            forall|index: int, entity: u64|
                old(self).tables@.len() <= index && #[trigger] sits_at(
                    final(self).tables@,
                    index,
                    entity,
                ) ==> exists|at: int|
                    old(self).eligible(at) && old(self).players@[at].entity == entity,
    {
        let ghost listed = candidates_of(self.players@, self.tables@);
        let held = self.holdings();
        if held.rock + held.paper + held.scissors < 2 {
            proof {
                assert(self.tables@.take(self.tables@.len() as int) =~= self.tables@);
                let none: usize = 0;
                assert(listed.take(2 * none).len() == 0);
                assert(seated_in_order(
                    self.tables@,
                    self.tables@.len() - none,
                    listed.take(2 * none),
                ));
            }
            return 0;
        }
        let mut order = self.candidates();
        if order.len() < min_players {
            proof {
                assert(self.tables@.take(self.tables@.len() as int) =~= self.tables@);
                let none: usize = 0;
                assert(listed.take(2 * none).len() == 0);
                assert(seated_in_order(
                    self.tables@,
                    self.tables@.len() - none,
                    listed.take(2 * none),
                ));
            }
            return 0;
        }
        shuffle(&mut order);
        let ghost shuffled = order@;
        proof {
            broadcast use group_to_multiset_ensures;

            lemma_candidates(self.players@, self.tables@);
            listed.lemma_multiset_has_no_duplicates();
            shuffled.lemma_multiset_has_no_duplicates_conv();
            to_multiset_len(shuffled);
            to_multiset_len(listed);
            assert(shuffled.len() == listed.len());
            assert forall|j: int| 0 <= j < shuffled.len() implies listed.contains(
                #[trigger] shuffled[j],
            ) by {
                assert(shuffled.to_multiset().count(shuffled[j]) > 0);
            }
        }
        let tables = pair_up(order);
        let mut index: usize = 0;
        while index < tables.len()
            invariant
                index <= tables.len(),
                tables@.len() == shuffled.len() / 2,
                forall|k: int|
                    0 <= k < tables@.len() ==> (#[trigger] tables@[k]).seat(0) == shuffled[2 * k]
                        && tables@[k].seat(1) == shuffled[2 * k + 1],
                shuffled.no_duplicates(),
                forall|j: int| 0 <= j < shuffled.len() ==> listed.contains(#[trigger] shuffled[j]),
                forall|entity: u64| #[trigger]
                    listed.contains(entity) ==> !is_seated(old(self).tables@, entity)
                        && exists|at: int|
                        is_at(old(self).players@, at, entity) && old(self).players@[at].is_active(),
                self.players@ == old(self).players@,
                self.state == old(self).state,
                old(self).wf(),
                self.tables@.len() == old(self).tables@.len() + index,
                self.tables@.take(old(self).tables@.len() as int) == old(self).tables@,
                forall|k: int|
                    0 <= k < index ==> #[trigger] self.tables@[old(self).tables@.len() + k] == (
                    Sitting { table: tables@[k], running: false }),
                self.wf(),
            decreases tables.len() - index,
        {
            let table = tables[index];
            let ghost earlier = self.tables@;
            let ghost base = old(self).tables@.len() as int;
            self.tables.push(Sitting { table, running: false });
            proof {
                let now = self.tables@;
                let x = shuffled[2 * index];
                let y = shuffled[2 * index + 1];
                assert(table.seat(0) == x && table.seat(1) == y);
                assert(x != y);
                assert(listed.contains(x) && listed.contains(y));
                assert(now.take(base) =~= old(self).tables@) by {
                    assert(earlier.take(base) == old(self).tables@);
                }
                assert forall|at: int, entity: u64| sits_at(earlier, at, entity) implies entity != x
                    && entity != y by {
                    if at < base {
                        assert(earlier.take(base)[at] == earlier[at]);
                        assert(sits_at(old(self).tables@, at, entity));
                        assert(is_seated(old(self).tables@, entity));
                    } else {
                        let k = at - base;
                        assert(earlier[base + k] == Sitting { table: tables@[k], running: false });
                        assert(tables@[k].seat(0) == shuffled[2 * k]);
                        assert(entity == shuffled[2 * k] || entity == shuffled[2 * k + 1]);
                    }
                }
                assert(exclusive(now)) by {
                    assert forall|i: int| 0 <= i < now.len() implies (#[trigger] now[i]).table.seat(
                        0,
                    ) != now[i].table.seat(1) by {
                        if i < earlier.len() {
                            assert(earlier[i].table.seat(0) != earlier[i].table.seat(1));
                        }
                    }
                    assert forall|i: int, j: int, entity: u64|
                        sits_at(now, i, entity) && sits_at(now, j, entity) implies i == j by {
                        if i < earlier.len() {
                            assert(sits_at(earlier, i, entity));
                        }
                        if j < earlier.len() {
                            assert(sits_at(earlier, j, entity));
                        }
                    }
                }
                assert(self.seated_are_active()) by {
                    assert forall|at: int, entity: u64| sits_at(now, at, entity) implies exists|
                        k: int,
                    |
                        is_at(self.players@, k, entity) && self.players@[k].is_active() by {
                        if at < earlier.len() {
                            assert(sits_at(earlier, at, entity));
                            let k = choose|k: int|
                                is_at(old(self).players@, k, entity)
                                    && old(self).players@[k].is_active();
                            assert(is_at(self.players@, k, entity));
                        } else {
                            assert(now[at].table == table);
                            assert(entity == x || entity == y);
                            assert(listed.contains(entity));
                            let k = choose|k: int|
                                is_at(old(self).players@, k, entity)
                                    && old(self).players@[k].is_active();
                            assert(is_at(self.players@, k, entity));
                        }
                    }
                }
            }
            index += 1;
        }
        proof {
            let base = old(self).tables@.len() as int;
            let made = tables@.len() as int;
            assert(self.tables@.len() - made == base);
            assert(shuffled.take(2 * made).len() / 2 == made);
            assert(seated_in_order(self.tables@, base, shuffled.take(2 * made))) by {
                assert forall|k: int| 0 <= k < made implies {
                    &&& (#[trigger] self.tables@[base + k]).table.seat(0) == shuffled.take(
                        2 * made,
                    )[2 * k]
                    &&& self.tables@[base + k].table.seat(1) == shuffled.take(2 * made)[2 * k + 1]
                    &&& !self.tables@[base + k].running
                } by {
                    assert(self.tables@[base + k] == Sitting { table: tables@[k], running: false });
                    assert(tables@[k].seat(0) == shuffled[2 * k]);
                }
            }
            assert forall|at: int, entity: u64|
                base <= at && #[trigger] sits_at(self.tables@, at, entity) implies exists|k: int|
                old(self).eligible(k) && old(self).players@[k].entity == entity by {
                let k = at - base;
                assert(self.tables@[base + k] == Sitting { table: tables@[k], running: false });
                assert(tables@[k].seat(0) == shuffled[2 * k]);
                assert(listed.contains(entity));
                let found = choose|found: int|
                    is_at(old(self).players@, found, entity)
                        && old(self).players@[found].is_active();
                assert(old(self).eligible(found));
            }
        }
        tables.len()
    }

    /// Looks at every player that is not marked yet and marks it dead if it
    /// has no star and safe if it has retired.
    pub fn update_players(&mut self)
        requires
            old(self).wf(),
        ensures
            final(self).wf(),
            final(self).tables@ == old(self).tables@,
            final(self).state == old(self).state,
            final(self).players@.len() == old(self).players@.len(),
            forall|index: int|
                0 <= index < final(self).players@.len() ==> #[trigger] final(self).players@[index]
                    == marked(old(self).players@[index]),
    {
        let mut index: usize = 0;
        while index < self.players.len()
            invariant
                index <= self.players.len(),
                self.players@.len() == old(self).players@.len(),
                self.tables@ == old(self).tables@,
                self.state == old(self).state,
                forall|at: int|
                    0 <= at < index ==> #[trigger] self.players@[at] == marked(
                        old(self).players@[at],
                    ),
                forall|at: int|
                    index <= at < self.players@.len() ==>
                        #[trigger] self.players@[at] == old(self).players@[at],
            decreases self.players.len() - index,
        {
            let player = &self.players[index];
            if !player.dead && !player.safe {
                let dead = !player.inventory.is_alive();
                let safe = player.inventory.is_safe();
                let seen = Participant {
                    entity: player.entity,
                    name: player.name.clone(),
                    inventory: player.inventory,
                    timer: player.timer,
                    safe,
                    dead,
                };
                self.players.set(index, seen);
            }
            index += 1;
        }
        proof {
            lemma_same_players_wf(*old(self), *self);
        }
    }

    /// Starts the duel of every table that has none yet and whose two players
    /// are there, have a star and have time left: the table is marked as
    /// running, and a job with a snapshot of its two players is handed out
    /// for it, in the order of the tables. Any other table is passed over and
    /// stays as it is.
    pub fn start_duel(&mut self) -> (jobs: Vec<DuelJob>)
        requires
            old(self).orderly(),
            old(self).countable(),
        ensures
            final(self).orderly(),
            final(self).countable(),
            old(self).wf() ==> final(self).wf(),
            final(self).players@ == old(self).players@,
            final(self).state == old(self).state,
            final(self).tables@.len() == old(self).tables@.len(),
            forall|index: int|
                0 <= index < final(self).tables@.len() ==> #[trigger] final(self).tables@[index]
                    == (Sitting {
                    table: old(self).tables@[index].table,
                    running: old(self).tables@[index].running || can_start(
                        old(self).players@,
                        old(self).tables@[index].table,
                    ),
                }),
            jobs@.len() == starting(old(self).players@, old(self).tables@).len(),
            forall|k: int|
                0 <= k < jobs@.len() ==> (#[trigger] jobs@[k]).table == starting(
                    old(self).players@,
                    old(self).tables@,
                )[k] && old(self).commissions(jobs@[k]),
    {
        let mut jobs: Vec<DuelJob> = Vec::new();
        let mut index: usize = 0;
        while index < self.tables.len()
            invariant
                index <= self.tables.len(),
                old(self).orderly(),
                old(self).countable(),
                self.players@ == old(self).players@,
                self.state == old(self).state,
                self.tables@.len() == old(self).tables@.len(),
                forall|at: int|
                    0 <= at < index ==> #[trigger] self.tables@[at] == (Sitting {
                        table: old(self).tables@[at].table,
                        running: old(self).tables@[at].running || can_start(
                            old(self).players@,
                            old(self).tables@[at].table,
                        ),
                    }),
                forall|at: int|
                    index <= at < self.tables@.len() ==>
                        #[trigger] self.tables@[at] == old(self).tables@[at],
                jobs@.len() == starting(
                    old(self).players@,
                    old(self).tables@.take(index as int),
                ).len(),
                forall|k: int|
                    0 <= k < jobs@.len() ==> (#[trigger] jobs@[k]).table == starting(
                        old(self).players@,
                        old(self).tables@.take(index as int),
                    )[k] && old(self).commissions(jobs@[k]),
            decreases self.tables.len() - index,
        {
            let sitting = self.tables[index];
            proof {
                assert(old(self).tables@.take(index + 1).drop_last() =~= old(self).tables@.take(
                    index as int,
                ));
            }
            if !sitting.running {
                let x = sitting.table.first();
                let y = sitting.table.second();
                let first = self.find_player(x);
                let second = self.find_player(y);
                let mut started = false;
                match (first, second) {
                    (Some(a), Some(b)) => {
                        let one = &self.players[a];
                        let two = &self.players[b];
                        if one.inventory.is_alive() && !one.timer.time_up()
                            && two.inventory.is_alive() && !two.timer.time_up() {
                            proof {
                                assert(x != y);
                                lemma_sum_covers_pair(self.players@, a as int, b as int);
                                lemma_sum_covers(self.players@, a as int);
                            }
                            let job = DuelJob {
                                table: sitting.table,
                                state: self.state,
                                players: [one.snapshot(), two.snapshot()],
                            };
                            proof {
                                let ghost before = old(self);
                                assert(job.players[0] == before.players@[a as int].data());
                                assert(job.players[1] == before.players@[b as int].data());
                                assert(is_at(before.players@, a as int, job.table.seat(0)));
                                assert(is_at(before.players@, b as int, job.table.seat(1)));
                                assert(job.players[0].inventory@.plus(
                                    job.players[1].inventory@,
                                ).le(sum_assets(before.players@)));
                                assert(before.commissions(job));
                                assert(fit_to_duel(before.players@[a as int]) && fit_to_duel(
                                    before.players@[b as int],
                                ));
                                assert(can_start(before.players@, sitting.table));
                            }
                            jobs.push(job);
                            started = true;
                        }
                    },
                    _ => {},
                }
                assert(started == can_start(old(self).players@, sitting.table)) by {
                    if !started && can_start(old(self).players@, sitting.table) {
                        let (i, j) = choose|i: int, j: int|
                            {
                                &&& #[trigger] is_at(old(self).players@, i, sitting.table.seat(0))
                                &&& #[trigger] is_at(old(self).players@, j, sitting.table.seat(1))
                                &&& fit_to_duel(old(self).players@[i])
                                &&& fit_to_duel(old(self).players@[j])
                            };
                        if let Some(a) = first {
                            lemma_unique_position(old(self).players@, i, a as int);
                        }
                        if let Some(b) = second {
                            lemma_unique_position(old(self).players@, j, b as int);
                        }
                    }
                }
                if started {
                    self.tables.set(index, Sitting { table: sitting.table, running: true });
                }
            }
            index += 1;
        }
        proof {
            assert(old(self).tables@.take(index as int) =~= old(self).tables@);
            lemma_same_seats(*old(self), *self);
        }
        jobs
    }

    /// The position of the running table that seats the two players of
    /// `table` in the same order, if there is one.
    pub fn find_running(&self, table: &Table) -> (found: Option<usize>)
        requires
            self.orderly(),
        ensures
            found matches Some(index) ==> self.running_at(index as int, *table),
            found is None ==> forall|index: int| !self.running_at(index, *table),
    {
        match self.find_table(table.first()) {
            Some(index) => {
                let sitting = self.tables[index];
                if sitting.running && sitting.table.first() == table.first()
                    && sitting.table.second() == table.second() {
                    Some(index)
                } else {
                    proof {
                        assert forall|other: int| !self.running_at(other, *table) by {
                            if self.running_at(other, *table) {
                                assert(sits_at(self.tables@, other, table.seat(0)));
                                assert(sits_at(self.tables@, index as int, table.seat(0)));
                            }
                        }
                    }
                    None
                }
            },
            None => {
                proof {
                    assert forall|other: int| !self.running_at(other, *table) by {
                        if self.running_at(other, *table) {
                            assert(sits_at(self.tables@, other, table.seat(0)));
                        }
                    }
                }
                None
            },
        }
    }

    /// Whether the result may be applied to the table.
    pub fn accepts_result(
        &self,
        table: &Table,
        result: &Result<[Inventory; 2], StageAbort>,
    ) -> (fair: bool)
        requires
            self.orderly(),
        ensures
            fair == self.admits(*table, *result),
    {
        let pair = match result {
            Ok(pair) => pair,
            Err(_) => {
                return true;
            },
        };
        if self.find_running(table).is_none() {
            return true;
        }
        let first = self.find_player(table.first());
        let second = self.find_player(table.second());
        match (first, second) {
            (Some(a), Some(b)) => {
                let fair = is_redistribution(
                    &(self.players[a].inventory, self.players[b].inventory),
                    &(pair[0], pair[1]),
                );
                proof {
                    let index = choose|index: int| self.running_at(index, *table);
                    assert(self.running_at(index, *table));
                    assert(is_at(self.players@, a as int, table.seat(0)));
                    assert(is_at(self.players@, b as int, table.seat(1)));
                    if fair {
                        assert forall|index: int, first: int, second: int|
                            #![trigger self.running_at(index, *table),
                                is_at(self.players@, first, table.seat(0)),
                                is_at(self.players@, second, table.seat(1))]
                            self.running_at(index, *table) && is_at(
                                self.players@,
                                first,
                                table.seat(0),
                            ) && is_at(self.players@, second, table.seat(1)) implies redistributes(
                            (self.players@[first].inventory, self.players@[second].inventory),
                            (pair[0], pair[1]),
                        ) by {
                            lemma_unique_position(self.players@, first, a as int);
                            lemma_unique_position(self.players@, second, b as int);
                        }
                    }
                }
                fair
            },
            _ => true,
        }
    }

    /// Retires the table whose duel has ended and writes the result back.
    /// Both players have taken part, so the timer of each runs down by one.
    /// Where the duel came to an end they hold what it left them, the first
    /// at the table the first inventory and the second the second; where it
    /// gave up they hold what they held. Nobody else changes. Returns
    /// `false`, and changes nothing, if no running table seats these two
    /// players.
    pub fn poll_duel(&mut self, table: &Table, result: Result<[Inventory; 2], StageAbort>) -> (done:
        bool)
        requires
            old(self).orderly(),
        ensures
            final(self).orderly(),
            old(self).seated_are_active() ==> final(self).seated_are_active(),
            old(self).wf() && old(self).admits(*table, result) ==> final(self).wf(),
            final(self).state == old(self).state,
            done <==> exists|index: int| old(self).running_at(index, *table),
            !done ==>
                final(self).players@ == old(self).players@
                    && final(self).tables@ == old(self).tables@,
            done ==> exists|index: int|
                old(self).running_at(index, *table)
                    && final(self).tables@ == old(self).tables@.remove(index),
            final(self).players@.len() == old(self).players@.len(),
            done ==> forall|at: int|
                0 <= at < final(self).players@.len() ==> #[trigger] final(self).players@[at]
                    == after_duel(old(self).players@[at], *table, result),
            forall|at: int|
                0 <= at < final(self).players@.len() ==>
                    (#[trigger] final(self).players@[at]).timer.0 <= old(self).players@[at].timer.0,
            done ==> forall|at: int|
                0 <= at < final(self).players@.len() && table.seats(old(self).players@[at].entity)
                    && old(self).players@[at].timer.0 > 0
                    ==> (#[trigger] final(self).players@[at]).timer.0
                        == old(self).players@[at].timer.0 - 1,
            forall|at: int|
                0 <= at < final(self).players@.len() && !table.seats(old(self).players@[at].entity)
                    ==> #[trigger] final(self).players@[at] == old(self).players@[at],
            result is Err ==> forall|at: int|
                0 <= at < final(self).players@.len() ==>
                    (#[trigger] final(self).players@[at]).inventory
                        == old(self).players@[at].inventory,
    {
        let index = match self.find_running(table) {
            Some(index) => index,
            None => {
                return false;
            },
        };
        let x = table.first();
        let y = table.second();
        proof {
            assert(sits_at(self.tables@, index as int, x));
            assert(sits_at(self.tables@, index as int, y));
            assert(x != y);
        }
        let (mine, yours) = match result {
            Ok(pair) => (Some(pair[0]), Some(pair[1])),
            Err(_) => (None, None),
        };
        let first = self.find_player(x);
        if let Some(a) = first {
            let one = Self::settle(&self.players[a], mine);
            self.players.set(a, one);
        }
        let ghost middle = self.players@;
        proof {
            assert forall|at: int| 0 <= at < middle.len() implies #[trigger] middle[at] == (
            if old(self).players@[at].entity == x {
                returned(old(self).players@[at], mine)
            } else {
                old(self).players@[at]
            }) by {
                if old(self).players@[at].entity == x {
                    assert(is_at(old(self).players@, at, x));
                    if let Some(a) = first {
                        lemma_unique_position(old(self).players@, at, a as int);
                    }
                }
            }
            assert(distinct(middle)) by {
                assert forall|i: int, j: int| 0 <= i < j < middle.len() implies (
                #[trigger] middle[i]).entity != (#[trigger] middle[j]).entity by {
                    assert(old(self).players@[i].entity != old(self).players@[j].entity);
                }
            }
        }
        let second = self.find_player(y);
        if let Some(b) = second {
            let two = Self::settle(&self.players[b], yours);
            self.players.set(b, two);
        }
        proof {
            assert forall|at: int| 0 <= at < self.players@.len() implies (
            #[trigger] self.players@[at]) == after_duel(
                old(self).players@[at],
                *table,
                result,
            ) by {
                assert(middle[at].entity == old(self).players@[at].entity);
                if old(self).players@[at].entity == y {
                    assert(is_at(middle, at, y));
                    if let Some(b) = second {
                        lemma_unique_position(middle, at, b as int);
                    }
                }
            }
        }
        self.tables.remove(index);
        proof {
            lemma_poll_keeps_order(*old(self), *self, index as int, *table, result);
            if old(self).wf() && old(self).admits(*table, result) {
                lemma_poll_keeps_count(*old(self), *self, index as int, *table, result);
            }
        }
        true
    }

    /// The first half of a tick: the public state is brought up to date, free
    /// players are matched, players are marked, and the duels of the new
    /// tables are started. The jobs that come back are to be run; their
    /// results go to [`Arena::poll_duel`].
    pub fn tick(&mut self, min_players: usize) -> (jobs: Vec<DuelJob>)
        requires
            old(self).wf(),
        ensures
            final(self).wf(),
            final(self).players@.len() == old(self).players@.len(),
            forall|index: int|
                0 <= index < final(self).players@.len() ==> #[trigger] final(self).players@[index]
                    == marked(old(self).players@[index]),
            final(self).state.player == sum_alive(old(self).players@).0,
            final(self).state.rock == sum_alive(old(self).players@).1.rock,
            final(self).state.paper == sum_alive(old(self).players@).1.paper,
            final(self).state.scissors == sum_alive(old(self).players@).1.scissors,
            final(self).tables@.len() == old(self).tables@.len() + (if sum_assets(
                old(self).players@,
            ).cards() < 2 || candidates_of(old(self).players@, old(self).tables@).len()
                < min_players {
                0
            } else {
                candidates_of(old(self).players@, old(self).tables@).len() / 2
            }),
            forall|index: int|
                0 <= index < old(self).tables@.len() ==>
                    (#[trigger] final(self).tables@[index]).table == old(self).tables@[index].table,
            forall|index: int, entity: u64|
                old(self).tables@.len() <= index && #[trigger] sits_at(
                    final(self).tables@,
                    index,
                    entity,
                ) ==> exists|at: int|
                    old(self).eligible(at) && old(self).players@[at].entity == entity,
            forall|index: int|
                0 <= index < final(self).tables@.len() ==>
                    (#[trigger] final(self).tables@[index]).running,
            jobs@.len()
                == idle(old(self).tables@).len()
                    + final(self).tables@.len() - old(self).tables@.len(),
            forall|k: int| 0 <= k < jobs@.len() ==> final(self).commissions(#[trigger] jobs@[k]),
    {
        self.update_public_state();
        let ghost counted = *self;
        self.match_players(min_players);
        let ghost matched = *self;
        self.update_players();
        let ghost seen = *self;
        let jobs = self.start_duel();
        proof {
            let base = old(self).tables@.len() as int;
            assert forall|k: int| 0 <= k < jobs@.len() implies self.commissions(
                #[trigger] jobs@[k],
            ) by {
                assert(seen.commissions(jobs@[k]));
            }
            assert forall|index: int| 0 <= index < base implies (
            #[trigger] self.tables@[index]).table == old(self).tables@[index].table by {
                assert(matched.tables@.take(base)[index] == matched.tables@[index]);
            }
            assert forall|index: int, entity: u64|
                base <= index && #[trigger] sits_at(self.tables@, index, entity) implies exists|
                at: int,
            |
                old(self).eligible(at) && old(self).players@[at].entity == entity by {
                assert(self.tables@[index].table == matched.tables@[index].table);
                assert(sits_at(matched.tables@, index, entity));
                let at = choose|at: int|
                    counted.eligible(at) && counted.players@[at].entity == entity;
                assert(old(self).eligible(at));
            }
            let order = choose|order: Seq<u64>|
                order.to_multiset() == candidates_of(
                    counted.players@,
                    counted.tables@,
                ).to_multiset() && #[trigger] seated_in_order(
                    matched.tables@,
                    matched.tables@.len() - (matched.tables@.len() - base),
                    order.take(2 * (matched.tables@.len() - base)),
                );
            assert(matched.tables@.take(base) == old(self).tables@);
            assert forall|k: int| base <= k < matched.tables@.len() implies !(
            #[trigger] matched.tables@[k]).running by {
                let offset = k - base;
                assert(matched.tables@[base + offset] == matched.tables@[k]);
            }
            lemma_idle_extended(matched.tables@, base);
            assert forall|index: int| 0 <= index < seen.tables@.len() implies can_start(
                seen.players@,
                (#[trigger] seen.tables@[index]).table,
            ) by {
                lemma_seated_can_start(seen, index);
            }
            lemma_starting_is_idle(seen.players@, seen.tables@);
        }
        jobs
    }

    /// A player after a duel it took part in.
    fn settle(player: &Participant, inventory: Option<Inventory>) -> (after: Participant)
        ensures
            after == returned(*player, inventory),
    {
        let mut timer = player.timer;
        timer.decrease();
        Participant {
            entity: player.entity,
            name: player.name.clone(),
            inventory: match inventory {
                Some(inventory) => inventory,
                None => player.inventory,
            },
            timer,
            safe: player.safe,
            dead: player.dead,
        }
    }

    /// No player is left that could still be matched.
    pub open spec fn spec_is_game_over(&self) -> bool {
        forall|index: int|
            0 <= index < self.players@.len() ==> !(#[trigger] self.players@[index]).is_active()
    }

    /// Whether the game is over: no player is left that has a star, has not
    /// retired and has time left.
    #[verifier::when_used_as_spec(spec_is_game_over)]
    pub fn is_game_over(&self) -> (over: bool)
        ensures
            over == self.spec_is_game_over(),
    {
        let mut index: usize = 0;
        while index < self.players.len()
            invariant
                index <= self.players.len(),
                forall|at: int| 0 <= at < index ==> !(#[trigger] self.players@[at]).is_active(),
            decreases self.players.len() - index,
        {
            if self.players[index].is_active() {
                return false;
            }
            index += 1;
        }
        true
    }
}

} // verus!
