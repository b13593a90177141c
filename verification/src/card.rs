//! The three cards and their cyclic order.

use vstd::prelude::*;
use vstd::string::*;

verus! {

/// A playing card.
#[derive(Debug, Clone, Copy, PartialEq, Eq, Structural)]
pub enum Card {
    Rock,
    Paper,
    Scissors,
}

impl Card {
    /// Position in the cycle rock, paper, scissors.
    pub open spec fn rank(self) -> int {
        match self {
            Card::Rock => 0,
            Card::Paper => 1,
            Card::Scissors => 2,
        }
    }

    /// A card beats the card that precedes it in the cycle.
    pub open spec fn beats(self, other: Card) -> bool {
        self.rank() == (other.rank() + 1) % 3
    }

    /// The index of the winning side, if any: 0 for `self`, 1 for `rhs`.
    pub open spec fn winner(self, rhs: Card) -> Option<usize> {
        if self == rhs {
            None
        } else if self.beats(rhs) {
            Some(0usize)
        } else {
            Some(1usize)
        }
    }

    /// The printed name of the card.
    pub open spec fn label(self) -> Seq<char> {
        match self {
            Card::Rock => "Rock"@,
            Card::Paper => "Paper"@,
            Card::Scissors => "Scissors"@,
        }
    }

    /// Compares two drawn cards. `None` is a tie; otherwise the index of the
    /// winner, 0 for `self` and 1 for `rhs`.
    pub fn compare(self, rhs: Card) -> (result: Option<usize>)
        ensures
            result == self.winner(rhs),
            result is None <==> self == rhs,
            result == Some(0usize) <==> self.beats(rhs),
            result == Some(1usize) <==> rhs.beats(self),
    {
        match (self, rhs) {
            (Card::Rock, Card::Rock) => None,
            (Card::Rock, Card::Paper) => Some(1),
            (Card::Rock, Card::Scissors) => Some(0),
            (Card::Paper, Card::Rock) => Some(0),
            (Card::Paper, Card::Paper) => None,
            (Card::Paper, Card::Scissors) => Some(1),
            (Card::Scissors, Card::Rock) => Some(1),
            (Card::Scissors, Card::Paper) => Some(0),
            (Card::Scissors, Card::Scissors) => None,
        }
    }

    /// The name of the card as text.
    pub fn to_string(&self) -> (text: String)
        ensures
            text@ == self.label(),
    {
        match self {
            Card::Rock => String::from_str("Rock"),
            Card::Paper => String::from_str("Paper"),
            Card::Scissors => String::from_str("Scissors"),
        }
    }
}

/// Exactly one of three things holds of two cards: they are equal, the first
/// beats the second, or the second beats the first.
pub proof fn lemma_cards_trichotomy(a: Card, b: Card)
    ensures
        (a == b) || a.beats(b) || b.beats(a),
        !(a == b && a.beats(b)),
        !(a.beats(b) && b.beats(a)),
        a.winner(b) == Some(0usize) <==> b.winner(a) == Some(1usize),
{
}

} // verus!
