//! The machine itself: what it asks for and how it takes the replies.

use vstd::prelude::*;
use vstd::string::*;

use crate::card::Card;
use crate::chat::{observe, ChatKind, ChatRecord};
use crate::config::Rules;
use crate::duel::laws::lemma_step_keeps_invariant;
use crate::duel::model::{Negotiation, NegotiationView};
use crate::duel::{
    bet_slot_after, error_text, records_of, trade_slot_after, Call, DuelResult, Expect, Reply,
    Request, Slot, Stage, StageAbort, StakeState, TradeState,
};
use crate::inventory::{Inventory, Stake, StakeError, Trade, TradeError};
use crate::player::{OpponentData, PlayerData, PublicState};

verus! {

/// A copy of a list of records.
fn copy_records(records: &Vec<ChatRecord>) -> (copy: Vec<ChatRecord>)
    ensures
        copy@ == records@,
{
    let mut copy: Vec<ChatRecord> = Vec::new();
    let mut index: usize = 0;
    while index < records.len()
        invariant
            index <= records.len(),
            copy@ == records@.take(index as int),
        decreases records.len() - index,
    {
        copy.push(records[index].clone());
        index += 1;
    }
    copy
}

/// The text that tells an actor of an error.
fn error_message(message: String) -> (text: String)
    ensures
        text@ == error_text(message@),
{
    let mut text = String::from_str("Error: ");
    text.append(message.as_str());
    text
}

fn trade_slot_step(
    slot: Slot<Trade, TradeError>,
    rules: &Rules,
    inventory: &Inventory,
    reply: Option<Reply>,
) -> (after: Slot<Trade, TradeError>)
    requires
        rules.wf(),
        slot.wf(*rules),
    ensures
        after == trade_slot_after(slot, *rules, *inventory, reply),
{
    match reply {
        Some(Reply::Trade(trade)) => match slot {
            Slot::Asking(made) => {
                let offer = if inventory.star > 0 {
                    trade.normalize(inventory)
                } else {
                    trade
                };
                match inventory.split_trade(&offer) {
                    Ok(rest) => Slot::Settled(offer, rest),
                    Err(error) => Slot::Correcting(made + 1, error),
                }
            },
            _ => slot,
        },
        Some(Reply::Done) => match slot {
            Slot::Correcting(made, _) => if made > rules.max_retries {
                Slot::Failed
            } else {
                Slot::Asking(made)
            },
            _ => slot,
        },
        _ => slot,
    }
}

fn bet_slot_step(
    slot: Slot<Stake, StakeError>,
    rules: &Rules,
    inventory: &Inventory,
    reply: Option<Reply>,
) -> (after: Slot<Stake, StakeError>)
    requires
        rules.wf(),
        slot.wf(*rules),
    ensures
        after == bet_slot_after(slot, *rules, *inventory, reply),
{
    match reply {
        Some(Reply::Stake(stake)) => match slot {
            Slot::Asking(made) => match inventory.split_stake(&stake) {
                Ok(rest) => Slot::Settled(stake, rest),
                Err(error) => Slot::Correcting(made + 1, error),
            },
            _ => slot,
        },
        Some(Reply::Done) => match slot {
            Slot::Correcting(made, _) => if made > rules.max_retries {
                Slot::Failed
            } else {
                Slot::Asking(made)
            },
            _ => slot,
        },
        _ => slot,
    }
}

impl Negotiation {
    /// A negotiation between two players, at its start. What the two hold
    /// together must fit a machine word, for stars, coins and cards each.
    pub fn new(rules: Rules, state: PublicState, first: PlayerData, second: PlayerData) -> (table:
        Negotiation)
        requires
            rules.wf(),
            first.inventory@.plus(second.inventory@).fits(),
        ensures
            table@ == (NegotiationView {
                rules,
                state,
                start: (first.inventory, second.inventory),
                first,
                second,
                history: Seq::empty(),
                drawn: None,
                stage: Stage::Notify,
            }),
            table@.wf(),
    {
        Negotiation {
            rules,
            state,
            start: (first.inventory, second.inventory),
            first,
            second,
            history: Vec::new(),
            drawn: None,
            stage: Stage::Notify,
        }
    }

    /// Whether the negotiation has ended.
    pub fn is_over(&self) -> (over: bool)
        ensures
            over == self@.over(),
    {
        match self.stage {
            Stage::Finished => true,
            Stage::Aborted(_) => true,
            _ => false,
        }
    }

    /// How the negotiation ended, once it has: with the inventories of the
    /// first and the second player, or with the stage that gave up. What the
    /// two hold at the end, with the cards they drew, is what they came with.
    pub fn outcome(&self) -> (result: Option<Result<[Inventory; 2], StageAbort>>)
        requires
            self@.wf(),
        ensures
            result is Some <==> self@.over(),
            result matches Some(Ok(pair)) ==> self@.outcome() == Some(
                Ok::<(Inventory, Inventory), StageAbort>((pair[0], pair[1])),
            ) && pair[0]@.plus(pair[1]@).plus(self@.spent()) == self@.total(),
            result matches Some(Err(abort)) ==> self@.outcome() == Some(
                Err::<(Inventory, Inventory), StageAbort>(abort),
            ),
    {
        match self.stage {
            Stage::Finished => Some(Ok([self.first.inventory, self.second.inventory])),
            Stage::Aborted(abort) => Some(Err(abort)),
            _ => None,
        }
    }

    /// The kinds of reply that the machine waits for, from the first and
    /// from the second side.
    pub fn waits_for(&self) -> (kinds: (Expect, Expect))
        ensures
            kinds == self@.expects(),
    {
        match self.stage {
            Stage::Notify => (Expect::Done, Expect::Done),
            Stage::ChatTrade(turn) => if turn % 2 == 0 {
                (Expect::Records, Expect::Nothing)
            } else {
                (Expect::Nothing, Expect::Records)
            },
            Stage::Trade(first, second) => (
                match first {
                    Slot::Asking(_) => Expect::Trade,
                    Slot::Correcting(_, _) => Expect::Done,
                    _ => Expect::Nothing,
                },
                match second {
                    Slot::Asking(_) => Expect::Trade,
                    Slot::Correcting(_, _) => Expect::Done,
                    _ => Expect::Nothing,
                },
            ),
            Stage::AcceptTrade(_, _) => (Expect::Accept, Expect::Accept),
            Stage::FeedbackTrade(_, _) => (Expect::Done, Expect::Done),
            Stage::ChatDuel(turn) => if turn % 2 == 0 {
                (Expect::Records, Expect::Nothing)
            } else {
                (Expect::Nothing, Expect::Records)
            },
            Stage::Bet(first, second) => (
                match first {
                    Slot::Asking(_) => Expect::Stake,
                    Slot::Correcting(_, _) => Expect::Done,
                    _ => Expect::Nothing,
                },
                match second {
                    Slot::Asking(_) => Expect::Stake,
                    Slot::Correcting(_, _) => Expect::Done,
                    _ => Expect::Nothing,
                },
            ),
            Stage::AcceptDuel(_, _, _) => (Expect::Card, Expect::Card),
            Stage::CorrectDuel(_, _, _, first, second) => (
                match first {
                    Some(_) => Expect::Done,
                    None => Expect::Nothing,
                },
                match second {
                    Some(_) => Expect::Done,
                    None => Expect::Nothing,
                },
            ),
            Stage::FeedbackDuel(_, _) => (Expect::Done, Expect::Done),
            Stage::Finished => (Expect::Nothing, Expect::Nothing),
            Stage::Aborted(_) => (Expect::Nothing, Expect::Nothing),
        }
    }

    /// Whether the two replies are what the machine waits for.
    pub fn accepts(&self, first: &Option<Reply>, second: &Option<Reply>) -> (fit: bool)
        ensures
            fit == self@.fits(*first, *second),
    {
        let kinds = self.waits_for();
        let one = match first {
            Some(reply) => reply.expect(),
            None => Expect::Nothing,
        };
        let two = match second {
            Some(reply) => reply.expect(),
            None => Expect::Nothing,
        };
        !self.is_over() && kinds.0 == one && kinds.1 == two
    }

    /// What the machine wants one side to be asked now, if anything.
    fn call_for(&self, side: usize) -> (call: Option<Call>)
        requires
            self@.wf(),
            side < 2,
        ensures
            self@.asks(side as int, call),
    {
        if self.is_over() {
            return None;
        }
        let me = if side == 0 {
            &self.first
        } else {
            &self.second
        };
        let other = if side == 0 {
            &self.second
        } else {
            &self.first
        };
        let request = match self.stage {
            Stage::Notify => Some(Request::Notify(self.state)),
            Stage::ChatTrade(turn) => if turn % 2 == side {
                Some(
                    Request::Chat(
                        OpponentData::new(other),
                        observe(me, &self.history),
                        ChatKind::Trade(turn),
                    ),
                )
            } else {
                None
            },
            Stage::Trade(first, second) => match (if side == 0 {
                first
            } else {
                second
            }) {
                Slot::Asking(_) => Some(
                    Request::Trade(OpponentData::new(other), observe(me, &self.history)),
                ),
                Slot::Correcting(_, error) => Some(
                    Request::FeedbackError(error_message(error.to_string())),
                ),
                _ => None,
            },
            Stage::AcceptTrade(first, second) => Some(
                Request::AcceptTrade(
                    OpponentData::new(other),
                    copy_records(&self.history),
                    if side == 0 {
                        TradeState { this: first, that: second }
                    } else {
                        TradeState { this: second, that: first }
                    },
                ),
            ),
            Stage::FeedbackTrade(first, second) => Some(
                Request::FeedbackTrade(
                    if side == 0 {
                        [first, second]
                    } else {
                        [second, first]
                    },
                ),
            ),
            Stage::ChatDuel(turn) => if turn % 2 == side {
                Some(
                    Request::Chat(
                        OpponentData::new(other),
                        observe(me, &self.history),
                        ChatKind::Duel(turn),
                    ),
                )
            } else {
                None
            },
            Stage::Bet(first, second) => match (if side == 0 {
                first
            } else {
                second
            }) {
                Slot::Asking(_) => Some(
                    Request::Bet(OpponentData::new(other), observe(me, &self.history)),
                ),
                Slot::Correcting(_, error) => Some(
                    Request::FeedbackError(error_message(error.to_string())),
                ),
                _ => None,
            },
            Stage::AcceptDuel(first, second, _) => Some(
                Request::AcceptDuel(
                    OpponentData::new(other),
                    copy_records(&self.history),
                    if side == 0 {
                        StakeState { this: first, that: second }
                    } else {
                        StakeState { this: second, that: first }
                    },
                ),
            ),
            Stage::CorrectDuel(_, _, _, first, second) => match (if side == 0 {
                first
            } else {
                second
            }) {
                Some(error) => Some(Request::FeedbackError(error_message(error.to_string()))),
                None => None,
            },
            Stage::FeedbackDuel(first, second) => Some(
                Request::FeedbackDuel(
                    if side == 0 {
                        first
                    } else {
                        second
                    },
                ),
            ),
            Stage::Finished => None,
            Stage::Aborted(_) => None,
        };
        match request {
            Some(request) => Some(Call { player: me.clone(), request }),
            None => None,
        }
    }

    /// Appends what was said in a turn of chat and moves to the next turn
    /// or stage.
    fn hear(&mut self, turn: usize, first: Option<Reply>, second: Option<Reply>, duel: bool)
        requires
            old(self)@.wf(),
            old(self)@.fits(first, second),
            old(self).stage == (if duel {
                Stage::ChatDuel(turn)
            } else {
                Stage::ChatTrade(turn)
            }),
        ensures
            final(self)@ == old(self)@.chatted(
                turn,
                records_of(first) + records_of(second),
                duel,
            ),
    {
        if let Some(Reply::Records(mut records)) = first {
            self.history.append(&mut records);
        }
        if let Some(Reply::Records(mut records)) = second {
            self.history.append(&mut records);
        }
        assert(self.history@ =~= old(self).history@ + (records_of(first) + records_of(second)));
        if turn + 1 < 2 * self.rules.chat_rounds {
            self.stage = if duel {
                Stage::ChatDuel(turn + 1)
            } else {
                Stage::ChatTrade(turn + 1)
            };
        } else if duel {
            self.stage = Stage::Bet(Slot::Asking(0), Slot::Asking(0));
        } else {
            self.stage = Stage::Trade(Slot::Asking(0), Slot::Asking(0));
        }
    }

    /// Moves on from the trade stage once neither side is pending.
    fn close_trade(&mut self, first: Slot<Trade, TradeError>, second: Slot<Trade, TradeError>)
        ensures
            final(self)@ == old(self)@.traded(first, second),
    {
        match (first, second) {
            (Slot::Settled(a, rest_a), Slot::Settled(b, rest_b)) => {
                self.first.inventory = rest_a;
                self.second.inventory = rest_b;
                self.stage = Stage::AcceptTrade(a, b);
            },
            (Slot::Asking(_), _) => {
                self.stage = Stage::Trade(first, second);
            },
            (Slot::Correcting(_, _), _) => {
                self.stage = Stage::Trade(first, second);
            },
            (_, Slot::Asking(_)) => {
                self.stage = Stage::Trade(first, second);
            },
            (_, Slot::Correcting(_, _)) => {
                self.stage = Stage::Trade(first, second);
            },
            _ => {
                self.stage = Stage::Aborted(StageAbort::Trade);
            },
        }
    }

    /// Moves on from the bet stage once neither side is pending.
    fn close_bet(&mut self, first: Slot<Stake, StakeError>, second: Slot<Stake, StakeError>)
        ensures
            final(self)@ == old(self)@.staked(first, second),
    {
        match (first, second) {
            (Slot::Settled(a, rest_a), Slot::Settled(b, rest_b)) => {
                self.first.inventory = rest_a;
                self.second.inventory = rest_b;
                self.stage = Stage::AcceptDuel(a, b, 0);
            },
            (Slot::Asking(_), _) => {
                self.stage = Stage::Bet(first, second);
            },
            (Slot::Correcting(_, _), _) => {
                self.stage = Stage::Bet(first, second);
            },
            (_, Slot::Asking(_)) => {
                self.stage = Stage::Bet(first, second);
            },
            (_, Slot::Correcting(_, _)) => {
                self.stage = Stage::Bet(first, second);
            },
            _ => {
                self.stage = Stage::Aborted(StageAbort::Bet);
            },
        }
    }

    /// Hands out the trades: swapped if both sides accept, back to their
    /// owners otherwise.
    fn answer(&mut self, a: Trade, b: Trade, first: bool, second: bool)
        requires
            old(self)@.wf(),
            old(self).stage == Stage::AcceptTrade(a, b),
        ensures
            final(self)@ == old(self)@.answered(a, b, first, second),
    {
        if first && second {
            self.first.inventory.apply_trade(&b);
            self.second.inventory.apply_trade(&a);
        } else {
            self.first.inventory.apply_trade(&a);
            self.second.inventory.apply_trade(&b);
        }
        self.stage = Stage::FeedbackTrade(first, second);
    }

    /// Ends the negotiation after the trade if a side has no card, and
    /// starts the chat before the bet otherwise.
    fn after_trade(&mut self)
        ensures
            final(self)@ == old(self)@.trade_closed(),
    {
        if !self.first.inventory.can_duel() || !self.second.inventory.can_duel() {
            self.stage = Stage::Finished;
        } else {
            if self.rules.fresh_history {
                self.history = Vec::new();
            }
            if self.rules.chat_rounds > 0 {
                self.stage = Stage::ChatDuel(0);
            } else {
                self.stage = Stage::Bet(Slot::Asking(0), Slot::Asking(0));
            }
        }
    }

    /// Takes the two cards, or what the sides said instead, and settles the
    /// duel, returns the stakes, or has the offenders corrected.
    fn draw(&mut self, a: Stake, b: Stake, made: usize, first: Option<Card>, second: Option<Card>)
        requires
            old(self)@.wf(),
            old(self).stage == Stage::AcceptDuel(a, b, made),
        ensures
            final(self)@ == old(self)@.drawn(a, b, made, first, second),
    {
        match (first, second) {
            (Some(x), Some(y)) => {
                let one = self.first.inventory.split_duel(x);
                let two = self.second.inventory.split_duel(y);
                match (one, two) {
                    (Ok(rest_x), Ok(rest_y)) => {
                        self.drawn = Some((x, y));
                        self.first.inventory = rest_x;
                        self.second.inventory = rest_y;
                        match x.compare(y) {
                            None => {
                                self.first.inventory.apply_stake(&a);
                                self.second.inventory.apply_stake(&b);
                                self.stage = Stage::FeedbackDuel(DuelResult::Tie, DuelResult::Tie);
                            },
                            Some(index) => {
                                let pot = a + b;
                                if index == 0 {
                                    self.first.inventory.apply_stake(&pot);
                                    self.stage = Stage::FeedbackDuel(
                                        DuelResult::Win,
                                        DuelResult::Lose,
                                    );
                                } else {
                                    self.second.inventory.apply_stake(&pot);
                                    self.stage = Stage::FeedbackDuel(
                                        DuelResult::Lose,
                                        DuelResult::Win,
                                    );
                                }
                            },
                        }
                    },
                    (one, two) => {
                        let e = match one {
                            Ok(_) => None,
                            Err(error) => Some(error),
                        };
                        let f = match two {
                            Ok(_) => None,
                            Err(error) => Some(error),
                        };
                        self.stage = Stage::CorrectDuel(a, b, made + 1, e, f);
                    },
                }
            },
            _ => {
                self.first.inventory.apply_stake(&a);
                self.second.inventory.apply_stake(&b);
                self.stage = Stage::Finished;
            },
        }
    }

    /// Takes the replies of the two actors and moves on. Replies that the
    /// machine does not wait for are refused and change nothing.
    pub fn advance(&mut self, first: Option<Reply>, second: Option<Reply>) -> (accepted: bool)
        requires
            old(self)@.wf(),
        ensures
            accepted == old(self)@.fits(first, second),
            final(self)@ == old(self)@.next(first, second),
            final(self)@.wf(),
            final(self)@.same_table(old(self)@),
            accepted ==> 0 <= final(self)@.fuel() < old(self)@.fuel(),
    {
        proof {
            lemma_step_keeps_invariant(self@, first, second);
        }
        if !self.accepts(&first, &second) {
            return false;
        }
        match self.stage {
            Stage::Notify => {
                if self.rules.chat_rounds > 0 {
                    self.stage = Stage::ChatTrade(0);
                } else {
                    self.stage = Stage::Trade(Slot::Asking(0), Slot::Asking(0));
                }
            },
            Stage::ChatTrade(turn) => {
                self.hear(turn, first, second, false);
            },
            Stage::Trade(a, b) => {
                let x = trade_slot_step(a, &self.rules, &self.first.inventory, first);
                let y = trade_slot_step(b, &self.rules, &self.second.inventory, second);
                self.close_trade(x, y);
            },
            Stage::AcceptTrade(a, b) => {
                if let (Some(Reply::Accept(x)), Some(Reply::Accept(y))) = (first, second) {
                    self.answer(a, b, x, y);
                }
            },
            Stage::FeedbackTrade(_, _) => {
                self.after_trade();
            },
            Stage::ChatDuel(turn) => {
                self.hear(turn, first, second, true);
            },
            Stage::Bet(a, b) => {
                let x = bet_slot_step(a, &self.rules, &self.first.inventory, first);
                let y = bet_slot_step(b, &self.rules, &self.second.inventory, second);
                self.close_bet(x, y);
            },
            Stage::AcceptDuel(a, b, made) => {
                if let (Some(Reply::Card(x)), Some(Reply::Card(y))) = (first, second) {
                    self.draw(a, b, made, x, y);
                }
            },
            Stage::CorrectDuel(a, b, made, _, _) => {
                if made > self.rules.max_retries {
                    self.stage = Stage::Aborted(StageAbort::Duel);
                } else {
                    self.stage = Stage::AcceptDuel(a, b, made);
                }
            },
            Stage::FeedbackDuel(_, _) => {
                self.stage = Stage::Finished;
            },
            Stage::Finished => {},
            Stage::Aborted(_) => {},
        }
        true
    }

    /// What the machine wants the two actors to be asked now. Two requests
    /// may be put in parallel. A chat request never shows a player what an
    /// assistant told the other.
    pub fn requests(&self) -> (calls: (Option<Call>, Option<Call>))
        requires
            self@.wf(),
        ensures
            self@.asks(0, calls.0),
            self@.asks(1, calls.1),
            !self@.over() ==> calls.0 is Some || calls.1 is Some,
            calls.0 matches Some(call) ==> call.keeps_private(),
            calls.1 matches Some(call) ==> call.keeps_private(),
    {
        let calls = (self.call_for(0), self.call_for(1));
        proof {
            broadcast use vstd::seq_lib::group_filter_ensures;

        }
        calls
    }
}

} // verus!
