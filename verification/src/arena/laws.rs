//! What is proved of the invariant of the arena.

use vstd::prelude::*;

use crate::arena::sums::{
    lemma_sum_covers_pair, lemma_sum_prefix, lemma_sum_same, lemma_sum_update, sum_assets,
};
use crate::arena::{
    after_duel, can_start, candidates_of, distinct, exclusive, fit_to_duel, idle, is_at, is_seated,
    marked, returned, share, sits_at, starting, Arena, Participant, Sitting, Table,
};
use crate::card::Card;
use crate::duel::{redistributes, spent_on, StageAbort};
use crate::inventory::Inventory;

verus! {

/// The candidates are exactly the free and active players, each once.
pub proof fn lemma_candidates(players: Seq<Participant>, tables: Seq<Sitting>)
    requires
        distinct(players),
    ensures
        candidates_of(players, tables).no_duplicates(),
        forall|entity: u64| #[trigger]
            candidates_of(players, tables).contains(entity) <==> !is_seated(tables, entity)
                && exists|at: int| is_at(players, at, entity) && players[at].is_active(),
    decreases players.len(),
{
    let all = candidates_of(players, tables);
    if players.len() > 0 {
        let rest = players.drop_last();
        let last = players.last();
        assert(distinct(rest)) by {
            assert forall|i: int, j: int| 0 <= i < j < rest.len()
                implies (#[trigger] rest[i]).entity
                != (#[trigger] rest[j]).entity by {
                assert(players[i].entity != players[j].entity);
            }
        }
        lemma_candidates(rest, tables);
        let before = candidates_of(rest, tables);
        assert forall|entity: u64| #[trigger]
            all.contains(entity) <==> !is_seated(tables, entity) && exists|at: int|
                is_at(players, at, entity) && players[at].is_active() by {
            if all.contains(entity) {
                let k = choose|k: int| 0 <= k < all.len() && all[k] == entity;
                if k < before.len() {
                    assert(before[k] == entity);
                    assert(before.contains(entity));
                    let at = choose|at: int| is_at(rest, at, entity) && rest[at].is_active();
                    assert(is_at(players, at, entity) && players[at].is_active());
                } else {
                    assert(is_at(players, players.len() - 1, entity));
                }
            }
            if !is_seated(tables, entity) && exists|at: int|
                is_at(players, at, entity) && players[at].is_active() {
                let at = choose|at: int| is_at(players, at, entity) && players[at].is_active();
                if at == players.len() - 1 {
                    assert(all[all.len() - 1] == entity);
                } else {
                    assert(is_at(rest, at, entity) && rest[at].is_active());
                    assert(before.contains(entity));
                    let k = choose|k: int| 0 <= k < before.len() && before[k] == entity;
                    assert(all[k] == entity);
                }
            }
        }
        if !is_seated(tables, last.entity) && last.is_active() {
            if before.contains(last.entity) {
                let at = choose|at: int| is_at(rest, at, last.entity) && rest[at].is_active();
                assert(players[at].entity != players[players.len() - 1].entity);
            }
            assert(all.no_duplicates());
        }
    }
}

/// A player's timer never rises: looking at a player leaves its timer, its
/// inventory and its identity alone, and a duel runs the timer down by
/// exactly one unless it has run out.
pub proof fn lemma_timer_runs_down(player: Participant, inventory: Option<Inventory>)
    ensures
        marked(player).timer == player.timer,
        marked(player).inventory == player.inventory,
        marked(player).entity == player.entity,
        returned(player, inventory).timer.0 <= player.timer.0,
        player.timer.0 > 0 ==> returned(player, inventory).timer.0 == player.timer.0 - 1,
        returned(player, inventory).entity == player.entity,
        inventory is None ==> returned(player, inventory).inventory == player.inventory,
{
}

/// Tables that are added without a running duel are all idle.
pub proof fn lemma_idle_extended(tables: Seq<Sitting>, from: int)
    requires
        0 <= from <= tables.len(),
        forall|k: int| from <= k < tables.len() ==> !(#[trigger] tables[k]).running,
    ensures
        idle(tables).len() == idle(tables.take(from)).len() + tables.len() - from,
    decreases tables.len(),
{
    if from == tables.len() {
        assert(tables.take(from) =~= tables);
    } else {
        assert(!tables[tables.len() - 1].running);
        assert(tables.drop_last().take(from) =~= tables.take(from));
        lemma_idle_extended(tables.drop_last(), from);
    }
}

/// An arena stays in order when its tables stay as they are and its players
/// keep their identities, inventories and timers.
pub proof fn lemma_same_players_wf(before: Arena, after: Arena)
    requires
        before.wf(),
        after.tables@ == before.tables@,
        after.players@.len() == before.players@.len(),
        forall|index: int|
            0 <= index < after.players@.len() ==> {
                &&& (#[trigger] after.players@[index]).entity == before.players@[index].entity
                &&& after.players@[index].inventory == before.players@[index].inventory
                &&& after.players@[index].timer == before.players@[index].timer
            },
    ensures
        after.wf(),
{
    lemma_sum_same(after.players@, before.players@);
    assert(distinct(after.players@)) by {
        assert forall|i: int, j: int| 0 <= i < j < after.players@.len() implies (
        #[trigger] after.players@[i]).entity != (#[trigger] after.players@[j]).entity by {
            assert(before.players@[i].entity != before.players@[j].entity);
        }
    }
    assert(after.seated_are_active()) by {
        assert forall|index: int, entity: u64| sits_at(after.tables@, index, entity) implies exists|
            at: int,
        |
            is_at(after.players@, at, entity) && after.players@[at].is_active() by {
            assert(sits_at(before.tables@, index, entity));
            let at = choose|at: int|
                is_at(before.players@, at, entity) && before.players@[at].is_active();
            assert(is_at(after.players@, at, entity) && after.players@[at].is_active());
        }
    }
}

/// Tables that keep their seats keep the order of the arena, and keep
/// seating players that are fit.
pub proof fn lemma_same_seats(before: Arena, after: Arena)
    requires
        before.orderly(),
        after.players@ == before.players@,
        after.tables@.len() == before.tables@.len(),
        forall|index: int|
            0 <= index < after.tables@.len() ==> (#[trigger] after.tables@[index]).table
                == before.tables@[index].table,
    ensures
        after.orderly(),
        after.countable() == before.countable(),
        before.seated_are_active() ==> after.seated_are_active(),
        before.wf() ==> after.wf(),
{
    assert forall|index: int, entity: u64|
        sits_at(after.tables@, index, entity) == sits_at(before.tables@, index, entity) by {
        if 0 <= index < after.tables@.len() {
            assert(after.tables@[index].table == before.tables@[index].table);
        }
    }
    assert(exclusive(after.tables@)) by {
        assert forall|i: int| 0 <= i < after.tables@.len() implies (
        #[trigger] after.tables@[i]).table.seat(0) != after.tables@[i].table.seat(1) by {
            assert(before.tables@[i].table.seat(0) != before.tables@[i].table.seat(1));
        }
        assert forall|i: int, j: int, entity: u64|
            sits_at(after.tables@, i, entity) && sits_at(after.tables@, j, entity) implies i
            == j by {
            assert(sits_at(before.tables@, i, entity) && sits_at(before.tables@, j, entity));
        }
    }
    if before.seated_are_active() {
        assert forall|index: int, entity: u64| sits_at(after.tables@, index, entity) implies exists|
            at: int,
        |
            is_at(after.players@, at, entity) && after.players@[at].is_active() by {
            assert(sits_at(before.tables@, index, entity));
        }
    }
}

/// Where whoever sits at a table is fit to be matched, the duel of every
/// table can start.
pub proof fn lemma_seated_can_start(arena: Arena, index: int)
    requires
        arena.seated_are_active(),
        0 <= index < arena.tables@.len(),
    ensures
        can_start(arena.players@, arena.tables@[index].table),
{
    let table = arena.tables@[index].table;
    assert(sits_at(arena.tables@, index, table.seat(0)));
    assert(sits_at(arena.tables@, index, table.seat(1)));
    let first = choose|at: int|
        is_at(arena.players@, at, table.seat(0)) && arena.players@[at].is_active();
    let second = choose|at: int|
        is_at(arena.players@, at, table.seat(1)) && arena.players@[at].is_active();
    assert(is_at(arena.players@, first, table.seat(0)) && is_at(
        arena.players@,
        second,
        table.seat(1),
    ) && fit_to_duel(arena.players@[first]) && fit_to_duel(arena.players@[second]));
}

/// Where the duel of every table can start, the tables whose duel is to
/// start are the idle ones.
pub proof fn lemma_starting_is_idle(players: Seq<Participant>, tables: Seq<Sitting>)
    requires
        forall|index: int|
            0 <= index < tables.len() ==> can_start(players, (#[trigger] tables[index]).table),
    ensures
        starting(players, tables) == idle(tables),
    decreases tables.len(),
{
    if tables.len() > 0 {
        assert(can_start(players, tables[tables.len() - 1].table));
        assert forall|index: int| 0 <= index < tables.drop_last().len() implies can_start(
            players,
            (#[trigger] tables.drop_last()[index]).table,
        ) by {
            assert(tables.drop_last()[index] == tables[index]);
        }
        lemma_starting_is_idle(players, tables.drop_last());
    }
}

/// In an arena that is in order no player sits at two tables, nor on both
/// sides of one.
pub proof fn lemma_exclusion(arena: Arena, one: int, two: int, entity: u64)
    requires
        arena.orderly(),
        sits_at(arena.tables@, one, entity),
        sits_at(arena.tables@, two, entity),
    ensures
        one == two,
        arena.tables@[one].table.seat(0) != arena.tables@[one].table.seat(1),
{
}

/// Among players with unique identities, an identity has one position.
pub proof fn lemma_unique_position(players: Seq<Participant>, one: int, two: int)
    requires
        distinct(players),
        0 <= one < players.len(),
        0 <= two < players.len(),
        players[one].entity == players[two].entity,
    ensures
        one == two,
{
    if one < two {
        assert(players[one].entity != players[two].entity);
    }
    if two < one {
        assert(players[two].entity != players[one].entity);
    }
}

/// A player that sits at a table is fit to duel.
pub proof fn lemma_unique_active(arena: Arena, at: int, entity: u64)
    requires
        arena.orderly(),
        arena.seated_are_active(),
        is_at(arena.players@, at, entity),
        is_seated(arena.tables@, entity),
    ensures
        arena.players@[at].is_active(),
{
    let index = choose|index: int| sits_at(arena.tables@, index, entity);
    let found = choose|found: int|
        is_at(arena.players@, found, entity) && arena.players@[found].is_active();
    lemma_unique_position(arena.players@, at, found);
}

/// Retiring a table and writing the result of its duel back keeps the
/// arena in order, whatever the result; and whoever still sits at a table is
/// as fit as before.
pub proof fn lemma_poll_keeps_order(
    before: Arena,
    after: Arena,
    index: int,
    table: Table,
    result: Result<[Inventory; 2], StageAbort>,
)
    requires
        before.orderly(),
        0 <= index < before.tables@.len(),
        before.tables@[index].table.seat(0) == table.seat(0),
        before.tables@[index].table.seat(1) == table.seat(1),
        after.tables@ == before.tables@.remove(index),
        after.players@.len() == before.players@.len(),
        forall|at: int|
            0 <= at < after.players@.len() ==> #[trigger] after.players@[at] == after_duel(
                before.players@[at],
                table,
                result,
            ),
    ensures
        after.orderly(),
        before.seated_are_active() ==> after.seated_are_active(),
{
    let x = table.seat(0);
    let y = table.seat(1);
    assert(distinct(after.players@)) by {
        assert forall|i: int, j: int| 0 <= i < j < after.players@.len() implies (
        #[trigger] after.players@[i]).entity != (#[trigger] after.players@[j]).entity by {
            assert(before.players@[i].entity != before.players@[j].entity);
        }
    }
    assert forall|at: int, entity: u64| sits_at(after.tables@, at, entity) implies sits_at(
        before.tables@,
        if at < index {
            at
        } else {
            at + 1
        },
        entity,
    ) by {}
    assert(exclusive(after.tables@)) by {
        assert forall|i: int| 0 <= i < after.tables@.len() implies (
        #[trigger] after.tables@[i]).table.seat(0) != after.tables@[i].table.seat(1) by {
            let from = if i < index {
                i
            } else {
                i + 1
            };
            assert(before.tables@[from].table.seat(0) != before.tables@[from].table.seat(1));
        }
        assert forall|i: int, j: int, entity: u64|
            sits_at(after.tables@, i, entity) && sits_at(after.tables@, j, entity) implies i
            == j by {
            let from = if i < index {
                i
            } else {
                i + 1
            };
            let other = if j < index {
                j
            } else {
                j + 1
            };
            assert(sits_at(before.tables@, from, entity) && sits_at(before.tables@, other, entity));
        }
    }
    if before.seated_are_active() {
        assert forall|at: int, entity: u64| sits_at(after.tables@, at, entity) implies exists|
            k: int,
        |
            is_at(after.players@, k, entity) && after.players@[k].is_active() by {
            let from = if at < index {
                at
            } else {
                at + 1
            };
            assert(sits_at(before.tables@, from, entity));
            assert(sits_at(before.tables@, index, x) && sits_at(before.tables@, index, y));
            assert(entity != x && entity != y);
            let k = choose|k: int|
                is_at(before.players@, k, entity) && before.players@[k].is_active();
            assert(after.players@[k] == after_duel(before.players@[k], table, result));
            assert(is_at(after.players@, k, entity) && after.players@[k].is_active());
        }
    }
}

/// Writing back a result that only moves what the two players of a running
/// table hold between them leaves what all players hold together within a
/// machine word.
pub proof fn lemma_poll_keeps_count(
    before: Arena,
    after: Arena,
    index: int,
    table: Table,
    result: Result<[Inventory; 2], StageAbort>,
)
    requires
        before.wf(),
        before.running_at(index, table),
        before.admits(table, result),
        after.players@.len() == before.players@.len(),
        forall|at: int|
            0 <= at < after.players@.len() ==> #[trigger] after.players@[at] == after_duel(
                before.players@[at],
                table,
                result,
            ),
    ensures
        after.countable(),
{
    let x = table.seat(0);
    let y = table.seat(1);
    assert(sits_at(before.tables@, index, x) && sits_at(before.tables@, index, y));
    assert(x != y);
    let a = choose|at: int| is_at(before.players@, at, x) && before.players@[at].is_active();
    let b = choose|at: int| is_at(before.players@, at, y) && before.players@[at].is_active();
    assert(a != b);
    let mine = share(result, 0);
    let yours = share(result, 1);
    let middle = before.players@.update(a, returned(before.players@[a], mine));
    let last = middle.update(b, returned(before.players@[b], yours));
    assert(after.players@ =~= last) by {
        assert forall|at: int| 0 <= at < after.players@.len() implies after.players@[at]
            == last[at] by {
            assert(after.players@[at] == after_duel(before.players@[at], table, result));
            if before.players@[at].entity == x {
                lemma_unique_position(before.players@, at, a);
            } else if before.players@[at].entity == y {
                lemma_unique_position(before.players@, at, b);
            }
        }
    }
    lemma_sum_update(before.players@, a, returned(before.players@[a], mine));
    lemma_sum_update(middle, b, returned(before.players@[b], yours));
    lemma_sum_covers_pair(before.players@, a, b);
    lemma_sum_prefix(after.players@, after.players@.len() as int);
    assert(after.players@.take(after.players@.len() as int) =~= after.players@);
    if let Ok(pair) = result {
        assert(redistributes(
            (before.players@[a].inventory, before.players@[b].inventory),
            (pair[0], pair[1]),
        ));
        let drawn = choose|drawn: Option<(Card, Card)>|
            #[trigger] pair[0]@.plus(pair[1]@).plus(spent_on(drawn))
                == before.players@[a].inventory@.plus(before.players@[b].inventory@);
        assert(spent_on(drawn).non_negative());
    }
}

} // verus!
