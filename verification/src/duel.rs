//! The negotiation at one table, as a machine that is driven from outside.
//!
//! Two players chat, offer a trade and agree on it or not, chat again, place
//! a bet and draw a card each. The machine decides every step; whoever drives
//! it asks the actors what the machine wants asked, in parallel where two
//! requests are pending, and hands their replies back.
//!
//! This file holds the vocabulary of the negotiation: its stages, requests
//! and replies, and what one offer does to the slot of its side. The model of
//! the machine and its transition function are in [`model`], the executable
//! machine in [`machine`], and what is proved of every step in [`laws`].

use vstd::prelude::*;
use vstd::string::*;

use crate::card::Card;
use crate::chat::{ChatKind, ChatRecord, Role};
use crate::config::Rules;
use crate::inventory::{Assets, DuelError, Inventory, Stake, StakeError, Trade, TradeError};
use crate::player::{OpponentData, PlayerData, PublicState};

pub mod laws;
pub mod machine;
pub mod model;

pub use self::laws::{
    lemma_finished_conserves, lemma_short_of_cards_ends_after_trade, lemma_step_keeps_invariant,
    lemma_trade_abort_needs_starless,
};
pub use self::model::{
    bet_slot_sound, records_of, trade_slot_sound, Negotiation, NegotiationView,
};

verus! {


/// The stage at which a negotiation gave up.
#[derive(Debug, Clone, Copy, PartialEq, Eq, Structural)]
pub enum StageAbort {
    Trade,
    Bet,
    Duel,
}

/// How a duel ended for one side.
#[derive(Debug, Clone, Copy, PartialEq, Eq, Structural)]
pub enum DuelResult {
    Tie,
    Win,
    Lose,
}

/// The two trades on the table, seen from one side.
#[derive(Debug, Clone, Copy, PartialEq, Eq, Structural)]
pub struct TradeState {
    pub this: Trade,
    pub that: Trade,
}

/// The two stakes on the table, seen from one side.
#[derive(Debug, Clone, Copy, PartialEq, Eq, Structural)]
pub struct StakeState {
    pub this: Stake,
    pub that: Stake,
}

/// How far one side has come in a stage that allows repeated attempts.
#[derive(Debug)]
pub enum Slot<T, E> {
    /// The side is asked for an offer; the number counts its attempts so far.
    Asking(usize),
    /// The side is told why its last offer was rejected.
    Correcting(usize, E),
    /// The offer was accepted; the inventory is what it leaves the side.
    Settled(T, Inventory),
    /// The side has used up its attempts.
    Failed,
}

impl<T: Copy, E: Copy> Clone for Slot<T, E> {
    fn clone(&self) -> (copy: Slot<T, E>)
        ensures
            copy == *self,
    {
        *self
    }
}

impl<T: Copy, E: Copy> Copy for Slot<T, E> {

}

/// Where a negotiation stands.
#[derive(Debug, Clone, Copy)]
pub enum Stage {
    /// Both actors are told the public state.
    Notify,
    /// The chat before the trade; the number is the turn.
    ChatTrade(usize),
    /// Each side offers a trade.
    Trade(Slot<Trade, TradeError>, Slot<Trade, TradeError>),
    /// Both sides say whether they accept the two trades.
    AcceptTrade(Trade, Trade),
    /// Both sides are told what the two said.
    FeedbackTrade(bool, bool),
    /// The chat before the bet; the number is the turn.
    ChatDuel(usize),
    /// Each side places a stake.
    Bet(Slot<Stake, StakeError>, Slot<Stake, StakeError>),
    /// Both sides draw a card or abstain; the number counts the attempts.
    AcceptDuel(Stake, Stake, usize),
    /// The sides whose card was rejected are told why.
    CorrectDuel(Stake, Stake, usize, Option<DuelError>, Option<DuelError>),
    /// Both sides are told how the duel ended.
    FeedbackDuel(DuelResult, DuelResult),
    /// The negotiation is over and the inventories stand.
    Finished,
    /// The negotiation gave up.
    Aborted(StageAbort),
}

/// What the machine wants an actor to be asked.
#[derive(Debug)]
pub enum Request {
    Notify(PublicState),
    FeedbackError(String),
    Chat(OpponentData, Vec<ChatRecord>, ChatKind),
    Trade(OpponentData, Vec<ChatRecord>),
    AcceptTrade(OpponentData, Vec<ChatRecord>, TradeState),
    FeedbackTrade([bool; 2]),
    Bet(OpponentData, Vec<ChatRecord>),
    AcceptDuel(OpponentData, Vec<ChatRecord>, StakeState),
    FeedbackDuel(DuelResult),
}

/// A request together with the player that it is put to.
#[derive(Debug)]
pub struct Call {
    pub player: PlayerData,
    pub request: Request,
}

/// What an actor answered.
#[derive(Debug)]
pub enum Reply {
    /// The answer to a request that asks for nothing back.
    Done,
    Records(Vec<ChatRecord>),
    Trade(Trade),
    Accept(bool),
    Stake(Stake),
    Card(Option<Card>),
}

/// The kind of reply that the machine waits for from one side.
#[derive(Debug, Clone, Copy, PartialEq, Eq, Structural)]
pub enum Expect {
    Nothing,
    Done,
    Records,
    Trade,
    Accept,
    Stake,
    Card,
}

impl<T, E> Slot<T, E> {
    /// The side still has to be asked or told something.
    pub open spec fn pending(self) -> bool {
        self is Asking || self is Correcting
    }

    /// The counter is within what the rules allow.
    pub open spec fn wf(self, rules: Rules) -> bool {
        match self {
            Slot::Asking(made) => made <= rules.max_retries,
            Slot::Correcting(made, _) => 1 <= made <= rules.max_retries + 1,
            _ => true,
        }
    }

    /// An upper bound on the steps this side still takes in its stage.
    pub open spec fn fuel(self, rules: Rules) -> int {
        match self {
            Slot::Asking(made) => 2 * (rules.attempts() - made),
            Slot::Correcting(made, _) => 2 * (rules.attempts() - made) + 1,
            _ => 0,
        }
    }

    /// The slot after the side was told of its error: it is asked again
    /// unless its attempts are used up.
    pub open spec fn corrected(self, rules: Rules) -> Slot<T, E> {
        match self {
            Slot::Correcting(made, _) => if made > rules.max_retries {
                Slot::Failed
            } else {
                Slot::Asking(made)
            },
            _ => self,
        }
    }

    /// What the machine waits for from this side; `offer` is the kind of
    /// reply that carries an offer.
    pub open spec fn expects(self, offer: Expect) -> Expect {
        match self {
            Slot::Asking(_) => offer,
            Slot::Correcting(_, _) => Expect::Done,
            _ => Expect::Nothing,
        }
    }
}

impl Call {
    /// A request to chat, to offer a trade or to place a stake shows the
    /// player nothing that an assistant told another player.
    pub open spec fn keeps_private(self) -> bool {
        match self.request {
            Request::Chat(_, seen, _) => shows_no_secret(seen@, self.player.entity),
            Request::Trade(_, seen) => shows_no_secret(seen@, self.player.entity),
            Request::Bet(_, seen) => shows_no_secret(seen@, self.player.entity),
            _ => true,
        }
    }
}

/// No record of the list is what an assistant told a player other than
/// `entity`.
pub open spec fn shows_no_secret(seen: Seq<ChatRecord>, entity: u64) -> bool {
    forall|index: int|
        0 <= index < seen.len() ==> !((#[trigger] seen[index]).role matches Role::Assistant(owner)
            && owner != entity)
}

impl Reply {
    /// The kind of this reply.
    pub open spec fn kind(self) -> Expect {
        match self {
            Reply::Done => Expect::Done,
            Reply::Records(_) => Expect::Records,
            Reply::Trade(_) => Expect::Trade,
            Reply::Accept(_) => Expect::Accept,
            Reply::Stake(_) => Expect::Stake,
            Reply::Card(_) => Expect::Card,
        }
    }
}

impl Request {
    /// The kind of reply that answers this request.
    pub open spec fn expects(self) -> Expect {
        match self {
            Request::Notify(_) => Expect::Done,
            Request::FeedbackError(_) => Expect::Done,
            Request::Chat(_, _, _) => Expect::Records,
            Request::Trade(_, _) => Expect::Trade,
            Request::AcceptTrade(_, _, _) => Expect::Accept,
            Request::FeedbackTrade(_) => Expect::Done,
            Request::Bet(_, _) => Expect::Stake,
            Request::AcceptDuel(_, _, _) => Expect::Card,
            Request::FeedbackDuel(_) => Expect::Done,
        }
    }
}

/// The kind of an optional reply; no reply is of the kind `Nothing`.
pub open spec fn kind_of(reply: Option<Reply>) -> Expect {
    match reply {
        Some(reply) => reply.kind(),
        None => Expect::Nothing,
    }
}

/// The trade that is taken out of `inventory` when its owner offers `trade`:
/// the offer capped to what the owner holds, less one star. An owner without
/// a star has nothing to cap against, so its offer stands as it is.
pub open spec fn capped(trade: Trade, inventory: Inventory) -> Trade {
    if inventory.star > 0 {
        trade.normalized(inventory)
    } else {
        trade
    }
}

/// The slot of a side that was asked for a trade and offered `trade`.
pub open spec fn trade_offered(
    slot: Slot<Trade, TradeError>,
    inventory: Inventory,
    trade: Trade,
) -> Slot<Trade, TradeError> {
    match slot {
        Slot::Asking(made) => match inventory.trade_shortage(capped(trade, inventory)) {
            None => Slot::Settled(
                capped(trade, inventory),
                inventory.less_trade(capped(trade, inventory)),
            ),
            Some(error) => Slot::Correcting((made + 1) as usize, error),
        },
        _ => slot,
    }
}

/// The slot of a side that was asked for a stake and placed `stake`.
pub open spec fn stake_placed(
    slot: Slot<Stake, StakeError>,
    inventory: Inventory,
    stake: Stake,
) -> Slot<Stake, StakeError> {
    match slot {
        Slot::Asking(made) => match inventory.stake_shortage(stake) {
            None => Slot::Settled(stake, inventory.less_stake(stake)),
            Some(error) => Slot::Correcting((made + 1) as usize, error),
        },
        _ => slot,
    }
}

/// The slot of one side of the trade stage after its reply, if it owed one.
pub open spec fn trade_slot_after(
    slot: Slot<Trade, TradeError>,
    rules: Rules,
    inventory: Inventory,
    reply: Option<Reply>,
) -> Slot<Trade, TradeError> {
    match reply {
        Some(Reply::Trade(trade)) => trade_offered(slot, inventory, trade),
        Some(Reply::Done) => slot.corrected(rules),
        _ => slot,
    }
}

/// The slot of one side of the bet stage after its reply, if it owed one.
pub open spec fn bet_slot_after(
    slot: Slot<Stake, StakeError>,
    rules: Rules,
    inventory: Inventory,
    reply: Option<Reply>,
) -> Slot<Stake, StakeError> {
    match reply {
        Some(Reply::Stake(stake)) => stake_placed(slot, inventory, stake),
        Some(Reply::Done) => slot.corrected(rules),
        _ => slot,
    }
}

/// The error, if any, of drawing `card` from `inventory`.
pub open spec fn draw_error(inventory: Inventory, card: Card) -> Option<DuelError> {
    if inventory.count_of(card) > 0 {
        None
    } else {
        Some(DuelError::of(card))
    }
}

/// The text that tells an actor of an error.
pub open spec fn error_text(message: Seq<char>) -> Seq<char> {
    "Error: "@ + message
}

/// The cards that leave the game when the two players draw.
pub open spec fn spent_on(drawn: Option<(Card, Card)>) -> Assets {
    match drawn {
        Some((first, second)) => Assets::one(first).plus(Assets::one(second)),
        None => Assets::zero(),
    }
}

/// What a finished negotiation may make of what two players came with:
/// stars, coins and cards only change hands, but for one card of each player
/// where the two have drawn.
pub open spec fn redistributes(
    before: (Inventory, Inventory),
    after: (Inventory, Inventory),
) -> bool {
    exists|drawn: Option<(Card, Card)>|
        #[trigger] after.0@.plus(after.1@).plus(spent_on(drawn)) == before.0@.plus(before.1@)
}

/// Whether `after` is what a finished negotiation may have made of `before`.
pub fn is_redistribution(before: &(Inventory, Inventory), after: &(Inventory, Inventory)) -> (fair:
    bool)
    ensures
        fair == redistributes(*before, *after),
{
    let stars = before.0.star as u128 + before.1.star as u128 == after.0.star as u128
        + after.1.star as u128;
    let coins = before.0.coin as u128 + before.1.coin as u128 == after.0.coin as u128
        + after.1.coin as u128;
    let rock_before = before.0.rock as u128 + before.1.rock as u128;
    let rock_after = after.0.rock as u128 + after.1.rock as u128;
    let paper_before = before.0.paper as u128 + before.1.paper as u128;
    let paper_after = after.0.paper as u128 + after.1.paper as u128;
    let scissors_before = before.0.scissors as u128 + before.1.scissors as u128;
    let scissors_after = after.0.scissors as u128 + after.1.scissors as u128;
    if !stars || !coins || rock_after > rock_before || paper_after > paper_before || scissors_after
        > scissors_before {
        proof {
            assert forall|drawn: Option<(Card, Card)>|
                #[trigger] after.0@.plus(after.1@).plus(spent_on(drawn)) != before.0@.plus(
                    before.1@,
                ) by {
                assert(spent_on(drawn).non_negative());
            }
        }
        return false;
    }
    let rock = rock_before - rock_after;
    let paper = paper_before - paper_after;
    let scissors = scissors_before - scissors_after;
    let spent = rock + paper + scissors;
    proof {
        let total = after.0@.plus(after.1@);
        if spent == 0 {
            assert(total.plus(spent_on(None)) == before.0@.plus(before.1@));
        } else if spent == 2 {
            let first = if rock > 0 {
                Card::Rock
            } else if paper > 0 {
                Card::Paper
            } else {
                Card::Scissors
            };
            let second = if scissors > 0 {
                Card::Scissors
            } else if paper > 0 {
                Card::Paper
            } else {
                Card::Rock
            };
            assert(total.plus(spent_on(Some((first, second)))) == before.0@.plus(before.1@));
        } else {
            assert forall|drawn: Option<(Card, Card)>|
                #[trigger] total.plus(spent_on(drawn)) != before.0@.plus(before.1@) by {
                assert(spent_on(drawn).cards() == 0 || spent_on(drawn).cards() == 2);
            }
        }
    }
    spent == 0 || spent == 2
}

/// Whether what two players hold together fits a machine word, for stars,
/// coins and cards each: the condition under which the two can negotiate.
pub fn fit_together(first: &Inventory, second: &Inventory) -> (fit: bool)
    ensures
        fit == first@.plus(second@).fits(),
{
    let stars = first.star as u128 + second.star as u128;
    let coins = first.coin as u128 + second.coin as u128;
    let cards = first.rock as u128 + first.paper as u128 + first.scissors as u128
        + second.rock as u128 + second.paper as u128 + second.scissors as u128;
    stars <= usize::MAX as u128 && coins <= usize::MAX as u128 && cards <= usize::MAX as u128
}

impl StageAbort {
    /// The message that names the stage that gave up.
    pub open spec fn message(self) -> Seq<char> {
        match self {
            StageAbort::Trade => "trade failed too many times"@,
            StageAbort::Bet => "bet failed too many times"@,
            StageAbort::Duel => "duel failed too many times"@,
        }
    }

    /// The message as text.
    pub fn to_string(&self) -> (text: String)
        ensures
            text@ == self.message(),
    {
        match self {
            StageAbort::Trade => String::from_str("trade failed too many times"),
            StageAbort::Bet => String::from_str("bet failed too many times"),
            StageAbort::Duel => String::from_str("duel failed too many times"),
        }
    }
}

impl Stage {
    /// The part of the negotiation that a stage belongs to, named by the
    /// abort that ends it: the trade up to its feedback, the bet with the
    /// chat before it, and the duel.
    pub open spec fn part(self) -> StageAbort {
        match self {
            Stage::Notify => StageAbort::Trade,
            Stage::ChatTrade(_) => StageAbort::Trade,
            Stage::Trade(_, _) => StageAbort::Trade,
            Stage::AcceptTrade(_, _) => StageAbort::Trade,
            Stage::FeedbackTrade(_, _) => StageAbort::Trade,
            Stage::ChatDuel(_) => StageAbort::Bet,
            Stage::Bet(_, _) => StageAbort::Bet,
            Stage::AcceptDuel(_, _, _) => StageAbort::Duel,
            Stage::CorrectDuel(_, _, _, _, _) => StageAbort::Duel,
            Stage::FeedbackDuel(_, _) => StageAbort::Duel,
            Stage::Finished => StageAbort::Duel,
            Stage::Aborted(abort) => abort,
        }
    }

    /// The abort to report when the negotiation is broken off at this stage
    /// from outside, as when an actor fails.
    pub fn abort_kind(&self) -> (abort: StageAbort)
        ensures
            abort == self.part(),
    {
        match self {
            Stage::Notify => StageAbort::Trade,
            Stage::ChatTrade(_) => StageAbort::Trade,
            Stage::Trade(_, _) => StageAbort::Trade,
            Stage::AcceptTrade(_, _) => StageAbort::Trade,
            Stage::FeedbackTrade(_, _) => StageAbort::Trade,
            Stage::ChatDuel(_) => StageAbort::Bet,
            Stage::Bet(_, _) => StageAbort::Bet,
            Stage::AcceptDuel(_, _, _) => StageAbort::Duel,
            Stage::CorrectDuel(_, _, _, _, _) => StageAbort::Duel,
            Stage::FeedbackDuel(_, _) => StageAbort::Duel,
            Stage::Finished => StageAbort::Duel,
            Stage::Aborted(abort) => *abort,
        }
    }
}

impl Reply {
    /// The kind of this reply.
    pub fn expect(&self) -> (kind: Expect)
        ensures
            kind == self.kind(),
    {
        match self {
            Reply::Done => Expect::Done,
            Reply::Records(_) => Expect::Records,
            Reply::Trade(_) => Expect::Trade,
            Reply::Accept(_) => Expect::Accept,
            Reply::Stake(_) => Expect::Stake,
            Reply::Card(_) => Expect::Card,
        }
    }
}

} // verus!
