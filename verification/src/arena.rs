//! The game as a whole: the players, the tables at which pairs of them sit,
//! and what happens to both from tick to tick.
//!
//! The arena decides who is matched, which duels start, and what a finished
//! duel does to its two players. Running a duel is left to whoever drives
//! the arena.
//!
//! This file holds the data of the arena and its invariant. The operations
//! of a tick are in [`ops`], sums over the players in [`sums`], and what is
//! proved of the invariant in [`laws`].

use vstd::prelude::*;

use crate::arena::sums::sum_assets;
use crate::duel::{redistributes, StageAbort};
use crate::inventory::Inventory;
use crate::player::{PlayerData, PlayerTimer, PublicState};

pub mod laws;
pub mod ops;
pub mod sums;

pub use self::laws::{
    lemma_candidates, lemma_exclusion, lemma_idle_extended, lemma_poll_keeps_count,
    lemma_poll_keeps_order, lemma_same_players_wf, lemma_same_seats, lemma_seated_can_start,
    lemma_starting_is_idle, lemma_timer_runs_down, lemma_unique_active, lemma_unique_position,
};
pub use self::ops::pair_up;
pub use self::sums::{
    lemma_sum_bounds, lemma_sum_covers, lemma_sum_covers_pair, lemma_sum_prefix, lemma_sum_same,
    lemma_sum_step, lemma_sum_update, sum_alive,
};

verus! {

/// One player of the game.
#[derive(Debug)]
pub struct Participant {
    /// The identity of the player.
    pub entity: u64,
    /// The name of the player.
    pub name: String,
    /// What the player holds.
    pub inventory: Inventory,
    /// How many duels the player may still take part in.
    pub timer: PlayerTimer,
    /// The player was seen to have retired.
    pub safe: bool,
    /// The player was seen to be out of stars.
    pub dead: bool,
}

impl Participant {
    /// The player may be matched: it has a star, has not retired and has
    /// time left.
    pub open spec fn spec_is_active(&self) -> bool {
        self.inventory.is_alive() && !self.inventory.is_safe() && !self.timer.time_up()
    }

    /// Whether the player may be matched.
    #[verifier::when_used_as_spec(spec_is_active)]
    pub fn is_active(&self) -> (active: bool)
        ensures
            active == (self.inventory.is_alive() && !self.inventory.is_safe()
                && !self.timer.time_up()),
    {
        self.inventory.is_alive() && !self.inventory.is_safe() && !self.timer.time_up()
    }

    /// The player as its actor sees it.
    pub open spec fn data(&self) -> PlayerData {
        PlayerData {
            entity: self.entity,
            name: self.name,
            inventory: self.inventory,
            timer: self.timer,
        }
    }

    /// A snapshot of the player for its actor.
    pub fn snapshot(&self) -> (data: PlayerData)
        ensures
            data == self.data(),
    {
        PlayerData {
            entity: self.entity,
            name: self.name.clone(),
            inventory: self.inventory,
            timer: self.timer,
        }
    }
}

impl Clone for Participant {
    fn clone(&self) -> (copy: Participant)
        ensures
            copy == *self,
    {
        Participant {
            entity: self.entity,
            name: self.name.clone(),
            inventory: self.inventory,
            timer: self.timer,
            safe: self.safe,
            dead: self.dead,
        }
    }
}

/// Two players that sit together.
#[derive(Debug, Clone, Copy, PartialEq, Eq)]
pub struct Table(pub [u64; 2]);

impl Table {
    /// The player on one side of the table.
    pub open spec fn seat(self, side: int) -> u64 {
        self.0[side]
    }

    /// Whether the player sits at the table.
    pub open spec fn seats(self, entity: u64) -> bool {
        self.seat(0) == entity || self.seat(1) == entity
    }

    /// A table for two players.
    pub fn new(x: u64, y: u64) -> (table: Table)
        ensures
            table.seat(0) == x,
            table.seat(1) == y,
    {
        Table([x, y])
    }

    /// The first player at the table.
    pub fn first(&self) -> (entity: u64)
        ensures
            entity == self.seat(0),
    {
        self.0[0]
    }

    /// The second player at the table.
    pub fn second(&self) -> (entity: u64)
        ensures
            entity == self.seat(1),
    {
        self.0[1]
    }
}

/// A table of the arena, and whether its duel has been started.
#[derive(Debug, Clone, Copy)]
pub struct Sitting {
    pub table: Table,
    pub running: bool,
}

/// The players, the tables and the public state of one game.
#[derive(Debug)]
pub struct Arena {
    /// All players, in the order in which they joined.
    pub players: Vec<Participant>,
    /// The tables at which a duel is due or under way.
    pub tables: Vec<Sitting>,
    /// What all players are told about the game.
    pub state: PublicState,
}

/// The player at position `index` of the list has the identity `entity`.
pub open spec fn is_at(players: Seq<Participant>, index: int, entity: u64) -> bool {
    0 <= index < players.len() && players[index].entity == entity
}

/// The table at position `index` of the list seats `entity`.
pub open spec fn sits_at(tables: Seq<Sitting>, index: int, entity: u64) -> bool {
    0 <= index < tables.len() && tables[index].table.seats(entity)
}

/// Some table of the list seats `entity`.
pub open spec fn is_seated(tables: Seq<Sitting>, entity: u64) -> bool {
    exists|index: int| sits_at(tables, index, entity)
}

/// No identity occurs twice among the players.
pub open spec fn distinct(players: Seq<Participant>) -> bool {
    forall|i: int, j: int|
        0 <= i < j < players.len() ==> (#[trigger] players[i]).entity != (
        #[trigger] players[j]).entity
}

/// No player sits at two tables, nor twice at one.
pub open spec fn exclusive(tables: Seq<Sitting>) -> bool {
    &&& forall|i: int|
        0 <= i < tables.len() ==> (#[trigger] tables[i]).table.seat(0) != tables[i].table.seat(1)
    &&& forall|i: int, j: int, entity: u64|
        sits_at(tables, i, entity) && sits_at(tables, j, entity) ==> i == j
}

/// The identities of the players that may be matched: those that sit at no
/// table, have a star, have not retired and have time left, in the order of
/// the list.
pub open spec fn candidates_of(players: Seq<Participant>, tables: Seq<Sitting>) -> Seq<u64>
    decreases players.len(),
{
    if players.len() == 0 {
        Seq::empty()
    } else if !is_seated(tables, players.last().entity) && players.last().is_active() {
        candidates_of(players.drop_last(), tables).push(players.last().entity)
    } else {
        candidates_of(players.drop_last(), tables)
    }
}

/// A player after the tick has looked at it: one not yet marked is marked
/// dead if it has no star and safe if it has retired.
pub open spec fn marked(player: Participant) -> Participant {
    if player.dead || player.safe {
        player
    } else {
        Participant {
            dead: !player.inventory.is_alive(),
            safe: player.inventory.is_safe(),
            ..player
        }
    }
}

/// A player after a duel it took part in: its timer has run down by one,
/// and it holds what the duel left it where the duel came to an end.
pub open spec fn returned(player: Participant, inventory: Option<Inventory>) -> Participant {
    Participant {
        inventory: match inventory {
            Some(inventory) => inventory,
            None => player.inventory,
        },
        timer: PlayerTimer(
            if player.timer.0 > 0 {
                (player.timer.0 - 1) as usize
            } else {
                0
            },
        ),
        ..player
    }
}

/// What a duel has left the player on one side of its table, where it came
/// to an end.
pub open spec fn share(result: Result<[Inventory; 2], StageAbort>, side: int) -> Option<
    Inventory,
> {
    match result {
        Ok(pair) => Some(pair[side]),
        Err(_) => None,
    }
}

/// A player after the duel of `table` has been written back: the two who
/// sat at it have taken part, each with its side of the result, and everyone
/// else is as before.
pub open spec fn after_duel(
    player: Participant,
    table: Table,
    result: Result<[Inventory; 2], StageAbort>,
) -> Participant {
    if player.entity == table.seat(0) {
        returned(player, share(result, 0))
    } else if player.entity == table.seat(1) {
        returned(player, share(result, 1))
    } else {
        player
    }
}

/// A player is fit to duel: it has a star and time left.
pub open spec fn fit_to_duel(player: Participant) -> bool {
    player.inventory.is_alive() && !player.timer.time_up()
}

/// The duel of a table can start: both who sit at it are players of the game
/// and fit to duel.
pub open spec fn can_start(players: Seq<Participant>, table: Table) -> bool {
    exists|first: int, second: int|
        {
            &&& #[trigger] is_at(players, first, table.seat(0))
            &&& #[trigger] is_at(players, second, table.seat(1))
            &&& fit_to_duel(players[first])
            &&& fit_to_duel(players[second])
        }
}

/// The tables of a list whose duel is to start, in their order: those
/// without a running duel whose two players are there and fit.
pub open spec fn starting(players: Seq<Participant>, tables: Seq<Sitting>) -> Seq<Table>
    decreases tables.len(),
{
    if tables.len() == 0 {
        Seq::empty()
    } else if !tables.last().running && can_start(players, tables.last().table) {
        starting(players, tables.drop_last()).push(tables.last().table)
    } else {
        starting(players, tables.drop_last())
    }
}

/// The tables of a list whose duel has not started, in their order.
pub open spec fn idle(tables: Seq<Sitting>) -> Seq<Table>
    decreases tables.len(),
{
    if tables.len() == 0 {
        Seq::empty()
    } else if tables.last().running {
        idle(tables.drop_last())
    } else {
        idle(tables.drop_last()).push(tables.last().table)
    }
}

/// A duel that is to be run: the table, what the actors are told of the
/// game, and the two players as they stand.
#[derive(Debug)]
pub struct DuelJob {
    pub table: Table,
    pub state: PublicState,
    pub players: [PlayerData; 2],
}

/// The tables of the list from position `from` on seat the players of
/// `order` two by two, and none of their duels has started.
pub open spec fn seated_in_order(tables: Seq<Sitting>, from: int, order: Seq<u64>) -> bool {
    &&& tables.len() == from + order.len() / 2
    &&& forall|k: int|
        0 <= k < order.len() / 2 ==> {
            &&& (#[trigger] tables[from + k]).table.seat(0) == order[2 * k]
            &&& tables[from + k].table.seat(1) == order[2 * k + 1]
            &&& !tables[from + k].running
        }
}

impl Arena {
    /// The player with the identity `entity` may be matched now: it sits at
    /// no table, has a star, has not retired and has time left.
    pub open spec fn eligible(&self, index: int) -> bool {
        &&& 0 <= index < self.players@.len()
        &&& !is_seated(self.tables@, self.players@[index].entity)
        &&& self.players@[index].is_active()
    }

    /// Whoever sits at a table is a player of the game that could be
    /// matched when it sat down and has not changed since.
    pub open spec fn seated_are_active(&self) -> bool {
        forall|index: int, entity: u64|
            sits_at(self.tables@, index, entity) ==> exists|at: int|
                is_at(self.players@, at, entity) && self.players@[at].is_active()
    }

    /// Identities are unique and no player sits at two tables.
    pub open spec fn orderly(&self) -> bool {
        distinct(self.players@) && exclusive(self.tables@)
    }

    /// What all players hold together fits a machine word.
    pub open spec fn countable(&self) -> bool {
        sum_assets(self.players@).fits()
    }

    /// The invariant of the arena: identities are unique, no player sits at
    /// two tables, whoever sits at a table is fit to duel, and what all
    /// players hold together fits a machine word. The arena is built and
    /// kept this way by its own operations. Starting and retiring duels ask
    /// for less, so that they also serve an arena whose players were changed
    /// from outside.
    pub open spec fn wf(&self) -> bool {
        &&& self.orderly()
        &&& self.seated_are_active()
        &&& self.countable()
    }

    /// The job is the duel of its table as the arena stands: it carries the
    /// public state and the two players of the table, who are fit to duel and
    /// together hold no more than fits a machine word.
    pub open spec fn commissions(&self, job: DuelJob) -> bool {
        &&& job.state == self.state
        &&& exists|first: int, second: int|
            {
                &&& is_at(self.players@, first, job.table.seat(0))
                &&& is_at(self.players@, second, job.table.seat(1))
                &&& job.players[0] == self.players@[first].data()
                &&& job.players[1] == self.players@[second].data()
            }
        &&& job.players[0].entity == job.table.seat(0)
        &&& job.players[1].entity == job.table.seat(1)
        &&& job.players[0].inventory.is_alive() && !job.players[0].timer.time_up()
        &&& job.players[1].inventory.is_alive() && !job.players[1].timer.time_up()
        &&& job.players[0].inventory@.plus(job.players[1].inventory@).fits()
    }

    /// The position of the table whose duel is under way and which seats the
    /// same two players as `table`, in the same order.
    pub open spec fn running_at(&self, index: int, table: Table) -> bool {
        &&& 0 <= index < self.tables@.len()
        &&& self.tables@[index].running
        &&& self.tables@[index].table.seat(0) == table.seat(0)
        &&& self.tables@[index].table.seat(1) == table.seat(1)
    }

    /// The result may be applied to the table: an `Ok` for a running table
    /// only moves what the two players hold between them, but for the cards
    /// they drew.
    pub open spec fn admits(
        &self,
        table: Table,
        result: Result<[Inventory; 2], StageAbort>,
    ) -> bool {
        forall|index: int, first: int, second: int|
            #![trigger self.running_at(index, table),
                is_at(self.players@, first, table.seat(0)),
                is_at(self.players@, second, table.seat(1))]
            self.running_at(index, table) && is_at(self.players@, first, table.seat(0)) && is_at(
                self.players@,
                second,
                table.seat(1),
            ) ==> (result matches Ok(pair) ==> redistributes(
                (self.players@[first].inventory, self.players@[second].inventory),
                (pair[0], pair[1]),
            ))
    }
}

} // verus!
