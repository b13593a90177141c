//! What the players of a list hold together.

use vstd::prelude::*;

use crate::arena::Participant;
use crate::inventory::Assets;

verus! {

/// What the players of a list hold together.
pub open spec fn sum_assets(players: Seq<Participant>) -> Assets
    decreases players.len(),
{
    if players.len() == 0 {
        Assets::zero()
    } else {
        sum_assets(players.drop_last()).plus(players.last().inventory@)
    }
}

/// The players of a list that have a star, and what they hold together.
pub open spec fn sum_alive(players: Seq<Participant>) -> (nat, Assets)
    decreases players.len(),
{
    if players.len() == 0 {
        (0, Assets::zero())
    } else {
        let rest = sum_alive(players.drop_last());
        if players.last().inventory.is_alive() {
            ((rest.0 + 1) as nat, rest.1.plus(players.last().inventory@))
        } else {
            rest
        }
    }
}

/// The sum over a list grows by its next player.
pub proof fn lemma_sum_step(players: Seq<Participant>, count: int)
    requires
        0 <= count < players.len(),
    ensures
        sum_assets(players.take(count + 1)) == sum_assets(players.take(count)).plus(
            players[count].inventory@,
        ),
        sum_alive(players.take(count + 1)) == (if players[count].inventory.is_alive() {
            (
                (sum_alive(players.take(count)).0 + 1) as nat,
                sum_alive(players.take(count)).1.plus(players[count].inventory@),
            )
        } else {
            sum_alive(players.take(count))
        }),
{
    assert(players.take(count + 1).drop_last() =~= players.take(count));
}

/// What the first players of a list hold is not negative, and the living
/// among them hold no more than all of them.
pub proof fn lemma_sum_prefix(players: Seq<Participant>, count: int)
    requires
        0 <= count <= players.len(),
    ensures
        sum_assets(players.take(count)).non_negative(),
        sum_alive(players.take(count)).1.non_negative(),
        sum_alive(players.take(count)).1.le(sum_assets(players.take(count))),
        sum_alive(players.take(count)).0 <= count,
    decreases count,
{
    if count > 0 {
        lemma_sum_prefix(players, count - 1);
        lemma_sum_step(players, count - 1);
    }
}

/// What some of the players hold is no more than what all of them hold.
pub proof fn lemma_sum_bounds(players: Seq<Participant>, count: int)
    requires
        0 <= count <= players.len(),
    ensures
        sum_assets(players.take(count)).non_negative(),
        sum_assets(players.take(count)).le(sum_assets(players)),
        sum_alive(players.take(count)).1.non_negative(),
        sum_alive(players.take(count)).1.le(sum_assets(players)),
        sum_alive(players.take(count)).0 <= count,
    decreases players.len() - count,
{
    lemma_sum_prefix(players, count);
    if count < players.len() {
        lemma_sum_bounds(players, count + 1);
        lemma_sum_step(players, count);
    } else {
        assert(players.take(count) =~= players);
    }
}

/// Replacing what one player holds changes the sum by the difference.
pub proof fn lemma_sum_update(players: Seq<Participant>, index: int, changed: Participant)
    requires
        0 <= index < players.len(),
    ensures
        sum_assets(players.update(index, changed)) == sum_assets(players).minus(
            players[index].inventory@,
        ).plus(changed.inventory@),
    decreases players.len(),
{
    let updated = players.update(index, changed);
    if index == players.len() - 1 {
        assert(updated.drop_last() =~= players.drop_last());
    } else {
        assert(updated.drop_last() =~= players.drop_last().update(index, changed));
        lemma_sum_update(players.drop_last(), index, changed);
    }
}

/// What one player holds is part of what all hold.
pub proof fn lemma_sum_covers(players: Seq<Participant>, index: int)
    requires
        0 <= index < players.len(),
    ensures
        players[index].inventory@.le(sum_assets(players)),
        sum_assets(players).non_negative(),
    decreases players.len(),
{
    lemma_sum_bounds(players, players.len() as int);
    lemma_sum_bounds(players.drop_last(), players.len() - 1);
    assert(players.take(players.len() as int) =~= players);
    assert(players.drop_last().take(players.len() - 1) =~= players.drop_last());
    if index < players.len() - 1 {
        lemma_sum_covers(players.drop_last(), index);
    }
}

/// What two different players hold is part of what all hold.
pub proof fn lemma_sum_covers_pair(players: Seq<Participant>, one: int, two: int)
    requires
        0 <= one < players.len(),
        0 <= two < players.len(),
        one != two,
    ensures
        players[one].inventory@.plus(players[two].inventory@).le(sum_assets(players)),
    decreases players.len(),
{
    let last = players.len() - 1;
    if one == last {
        lemma_sum_covers(players.drop_last(), two);
    } else if two == last {
        lemma_sum_covers(players.drop_last(), one);
    } else {
        lemma_sum_covers_pair(players.drop_last(), one, two);
    }
}

/// Lists of players that agree in what each player holds hold the same
/// together.
pub proof fn lemma_sum_same(one: Seq<Participant>, two: Seq<Participant>)
    requires
        one.len() == two.len(),
        forall|index: int|
            0 <= index < one.len() ==> (#[trigger] one[index]).inventory == two[index].inventory,
    ensures
        sum_assets(one) == sum_assets(two),
    decreases one.len(),
{
    if one.len() > 0 {
        assert(one.last().inventory == one[one.len() - 1].inventory);
        assert forall|index: int| 0 <= index < one.drop_last().len() implies (
        #[trigger] one.drop_last()[index]).inventory == two.drop_last()[index].inventory by {
            assert(one[index].inventory == two[index].inventory);
        }
        lemma_sum_same(one.drop_last(), two.drop_last());
    }
}

} // verus!
