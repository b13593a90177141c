//! Players as the game sees them: identity, name, inventory and timer.

use vstd::prelude::*;

use crate::inventory::Inventory;

verus! {

/// The number of duels a player may still take part in.
#[derive(Debug, Default, Clone, Copy, PartialEq, Eq, Structural)]
pub struct PlayerTimer(pub usize);

impl PlayerTimer {
    /// No round is left.
    pub open spec fn spec_time_up(&self) -> bool {
        self.0 == 0
    }

    /// Whether no round is left.
    #[verifier::when_used_as_spec(spec_time_up)]
    pub fn time_up(&self) -> (up: bool)
        ensures
            up == (self.0 == 0),
    {
        self.0 == 0
    }

    /// Counts one round down; a timer at zero stays at zero.
    pub fn decrease(&mut self)
        ensures
            old(self).0 > 0 ==> final(self).0 == old(self).0 - 1,
            old(self).0 == 0 ==> final(self).0 == 0,
            final(self).0 <= old(self).0,
    {
        if self.0 > 0 {
            self.0 -= 1;
        }
    }
}

/// What all players are told about the game: how many players there are and
/// how many cards of each kind they hold together.
#[derive(Debug, Default, Clone, Copy, PartialEq, Eq, Structural)]
pub struct PublicState {
    pub player: usize,
    pub rock: usize,
    pub paper: usize,
    pub scissors: usize,
}

impl PublicState {
    /// The number of cards of all kinds. The sum must fit a machine word.
    pub fn total_cards(&self) -> (total: usize)
        requires
            self.rock + self.paper + self.scissors <= usize::MAX,
        ensures
            total == self.rock + self.paper + self.scissors,
    {
        self.rock + self.paper + self.scissors
    }
}

/// A snapshot of one player, as handed to its actor.
#[derive(Debug)]
pub struct PlayerData {
    pub entity: u64,
    pub name: String,
    pub inventory: Inventory,
    pub timer: PlayerTimer,
}

impl Clone for PlayerData {
    fn clone(&self) -> (copy: PlayerData)
        ensures
            copy == *self,
    {
        PlayerData {
            entity: self.entity,
            name: self.name.clone(),
            inventory: self.inventory,
            timer: self.timer,
        }
    }
}

/// What a player may know of its opponent: the name, the stars and the
/// number of cards.
#[derive(Debug)]
pub struct OpponentData {
    pub name: String,
    pub star: usize,
    pub card: usize,
}

impl Clone for OpponentData {
    fn clone(&self) -> (copy: OpponentData)
        ensures
            copy == *self,
    {
        OpponentData { name: self.name.clone(), star: self.star, card: self.card }
    }
}

impl OpponentData {
    /// What the opponent of `player` may know of it.
    pub open spec fn of(player: PlayerData) -> OpponentData
        recommends
            player.inventory@.cards() <= usize::MAX,
    {
        OpponentData {
            name: player.name,
            star: player.inventory.star,
            card: player.inventory@.cards() as usize,
        }
    }

    /// The public part of a player. Its card count must fit a machine word.
    pub fn new(value: &PlayerData) -> (opponent: OpponentData)
        requires
            value.inventory@.cards() <= usize::MAX,
        ensures
            opponent == OpponentData::of(*value),
            opponent.name == value.name,
            opponent.star == value.inventory.star,
            opponent.card == value.inventory@.cards(),
    {
        OpponentData {
            name: value.name.clone(),
            star: value.inventory.star,
            card: value.inventory.num_cards(),
        }
    }
}

} // verus!
