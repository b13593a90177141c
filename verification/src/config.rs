//! The numbers that shape a game.

use vstd::prelude::*;

verus! {

/// How many players a game starts with.
pub const NUM_PLAYERS: usize = 16;

/// How many free players there must be before any are matched.
pub const MIN_MATCH_PLAYERS: usize = 2;

/// How many duels a player may take part in.
pub const MAX_ROUNDS: usize = 16;

/// How many rounds of chat precede the trade, and again the bet.
pub const NUM_CHAT_ROUNDS: usize = 4;

/// How many times an actor may repeat a step that was rejected.
pub const MAX_TRAIL_ROUNDS: usize = 3;

/// The numbers that a negotiation at one table goes by.
#[derive(Debug, Clone, Copy, PartialEq, Eq, Structural)]
pub struct Rules {
    /// Rounds of chat before the trade, and again before the bet.
    pub chat_rounds: usize,
    /// Repetitions allowed after a first rejected attempt.
    pub max_retries: usize,
    /// Whether the chat before the bet starts from an empty history.
    pub fresh_history: bool,
}

impl Rules {
    /// The counters that the numbers give rise to fit a machine word.
    pub open spec fn wf(self) -> bool {
        2 * self.chat_rounds <= usize::MAX && self.max_retries < usize::MAX
    }

    /// The number of chat turns in one chat stage: two per round.
    pub open spec fn turns(self) -> int {
        2 * self.chat_rounds
    }

    /// The number of attempts an actor has at a step that can be rejected.
    pub open spec fn attempts(self) -> int {
        self.max_retries + 1
    }

    /// Whether the numbers fit a machine word.
    pub fn is_valid(&self) -> (valid: bool)
        ensures
            valid == self.wf(),
    {
        self.chat_rounds <= usize::MAX / 2 && self.max_retries < usize::MAX
    }
}

impl Default for Rules {
    fn default() -> (rules: Rules)
        ensures
            rules == (Rules {
                chat_rounds: NUM_CHAT_ROUNDS,
                max_retries: MAX_TRAIL_ROUNDS,
                fresh_history: false,
            }),
            rules.wf(),
    {
        Rules { chat_rounds: NUM_CHAT_ROUNDS, max_retries: MAX_TRAIL_ROUNDS, fresh_history: false }
    }
}

} // verus!
