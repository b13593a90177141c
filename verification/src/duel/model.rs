//! The model of a negotiation: its invariant, the requests it has for the
//! two sides, and the state that follows on their replies.

use vstd::prelude::*;

use crate::card::Card;
use crate::chat::{visible, ChatKind, ChatRecord};
use crate::config::Rules;
use crate::duel::{
    bet_slot_after, draw_error, error_text, kind_of, spent_on, trade_slot_after, Call, DuelResult,
    Expect, Reply, Request, Slot, Stage, StageAbort, StakeState, TradeState,
};
use crate::inventory::{Assets, Inventory, Stake, StakeError, Trade, TradeError};
use crate::player::{OpponentData, PlayerData, PublicState};

verus! {

/// A negotiation between two players.
#[derive(Debug)]
pub struct Negotiation {
    /// The numbers the negotiation goes by.
    pub rules: Rules,
    /// What both actors are told at the start.
    pub state: PublicState,
    /// The inventories that the two players came with.
    pub start: (Inventory, Inventory),
    /// The first player, with what it holds now.
    pub first: PlayerData,
    /// The second player, with what it holds now.
    pub second: PlayerData,
    /// What has been said so far.
    pub history: Vec<ChatRecord>,
    /// The cards that the two players drew, once they have.
    pub drawn: Option<(Card, Card)>,
    /// Where the negotiation stands.
    pub stage: Stage,
}

/// The mathematical model of a [`Negotiation`].
pub struct NegotiationView {
    pub rules: Rules,
    pub state: PublicState,
    pub start: (Inventory, Inventory),
    pub first: PlayerData,
    pub second: PlayerData,
    pub history: Seq<ChatRecord>,
    pub drawn: Option<(Card, Card)>,
    pub stage: Stage,
}

impl View for Negotiation {
    type V = NegotiationView;

    open spec fn view(&self) -> NegotiationView {
        NegotiationView {
            rules: self.rules,
            state: self.state,
            start: self.start,
            first: self.first,
            second: self.second,
            history: self.history@,
            drawn: self.drawn,
            stage: self.stage,
        }
    }
}

/// The records that a reply carries.
pub open spec fn records_of(reply: Option<Reply>) -> Seq<ChatRecord> {
    match reply {
        Some(Reply::Records(records)) => records@,
        _ => Seq::empty(),
    }
}

/// A settled slot of the trade stage holds an offer that its owner can
/// afford, and what the offer leaves: at least a star, if the owner has one.
pub open spec fn trade_slot_sound(slot: Slot<Trade, TradeError>, inventory: Inventory) -> bool {
    slot matches Slot::Settled(trade, rest) ==> {
        &&& trade@.le(inventory@)
        &&& rest == inventory.less_trade(trade)
        &&& inventory.star > 0 ==> rest.star > 0
    }
}

/// A settled slot of the bet stage holds a stake that its owner can afford,
/// and what the stake leaves.
pub open spec fn bet_slot_sound(slot: Slot<Stake, StakeError>, inventory: Inventory) -> bool {
    slot matches Slot::Settled(stake, rest) ==> stake@.le(inventory@) && rest
        == inventory.less_stake(stake)
}

impl NegotiationView {
    /// All that the two players came with.
    pub open spec fn total(self) -> Assets {
        self.start.0@.plus(self.start.1@)
    }

    /// What lies on the table, taken out of the inventories and not yet
    /// handed to anyone.
    pub open spec fn escrow(self) -> Assets {
        match self.stage {
            Stage::AcceptTrade(first, second) => first@.plus(second@),
            Stage::AcceptDuel(first, second, _) => first@.plus(second@),
            Stage::CorrectDuel(first, second, _, _, _) => first@.plus(second@),
            _ => Assets::zero(),
        }
    }

    /// The cards that were drawn: a drawn card leaves the game.
    pub open spec fn spent(self) -> Assets {
        spent_on(self.drawn)
    }

    /// All that the two players hold, with what lies on the table and the
    /// cards that were drawn.
    pub open spec fn holdings(self) -> Assets {
        self.first.inventory@.plus(self.second.inventory@).plus(self.escrow()).plus(self.spent())
    }

    /// The counters of the stage are within what the rules allow, and its
    /// slots are sound.
    pub open spec fn stage_wf(self) -> bool {
        match self.stage {
            Stage::ChatTrade(turn) => turn < self.rules.turns(),
            Stage::ChatDuel(turn) => turn < self.rules.turns(),
            Stage::Trade(first, second) => {
                &&& first.wf(self.rules)
                &&& second.wf(self.rules)
                &&& first.pending() || second.pending()
                &&& trade_slot_sound(first, self.first.inventory)
                &&& trade_slot_sound(second, self.second.inventory)
            },
            Stage::Bet(first, second) => {
                &&& first.wf(self.rules)
                &&& second.wf(self.rules)
                &&& first.pending() || second.pending()
                &&& bet_slot_sound(first, self.first.inventory)
                &&& bet_slot_sound(second, self.second.inventory)
            },
            Stage::AcceptDuel(_, _, made) => made <= self.rules.max_retries,
            Stage::CorrectDuel(_, _, made, first, second) => {
                &&& 1 <= made <= self.rules.max_retries + 1
                &&& first is Some || second is Some
            },
            _ => true,
        }
    }

    /// What the trade does to the stars of a player that came with one: its
    /// offer is capped and so never rejected, and it keeps a star until it
    /// places its stake. Until the trades are taken out, the inventories are
    /// what the players came with.
    pub open spec fn trade_wf(self) -> bool {
        let untouched = self.first.inventory == self.start.0 && self.second.inventory
            == self.start.1;
        let keeps_star = (self.start.0.star > 0 ==> self.first.inventory.star > 0) && (
        self.start.1.star > 0 ==> self.second.inventory.star > 0);
        match self.stage {
            Stage::Notify => untouched,
            Stage::ChatTrade(_) => untouched,
            Stage::Trade(first, second) => {
                &&& untouched
                &&& self.start.0.star > 0 ==> first is Asking || first is Settled
                &&& self.start.1.star > 0 ==> second is Asking || second is Settled
            },
            Stage::AcceptTrade(_, _) => keeps_star,
            Stage::FeedbackTrade(_, _) => keeps_star,
            Stage::ChatDuel(_) => keeps_star,
            Stage::Bet(_, _) => keeps_star,
            Stage::Aborted(StageAbort::Trade) => self.start.0.star == 0 || self.start.1.star == 0,
            _ => true,
        }
    }

    /// The invariant of a negotiation: every counter is in range and, until
    /// the negotiation gives up, nothing is lost or made.
    pub open spec fn wf(self) -> bool {
        &&& self.rules.wf()
        &&& self.total().fits()
        &&& self.stage is Aborted || self.holdings() == self.total()
        &&& self.drawn is Some ==> self.stage is FeedbackDuel || self.stage is Finished
        &&& self.stage_wf()
        &&& self.trade_wf()
    }

    /// The negotiation has not gone beyond the trade: it is at a stage up to
    /// the feedback on the trade, or it has come to an end.
    pub open spec fn up_to_trade(self) -> bool {
        ||| self.stage is Notify
        ||| self.stage is ChatTrade
        ||| self.stage is Trade
        ||| self.stage is AcceptTrade
        ||| self.stage is FeedbackTrade
        ||| self.stage is Finished
    }

    /// The two players came with a star each and with fewer than two cards
    /// together, so that no duel can be fought between them.
    pub open spec fn short_of_cards(self) -> bool {
        &&& self.start.0.star > 0
        &&& self.start.1.star > 0
        &&& self.total().cards() < 2
    }

    /// The negotiation has ended.
    pub open spec fn over(self) -> bool {
        self.stage is Finished || self.stage is Aborted
    }

    /// How the negotiation ended: with the two inventories, or with the stage
    /// that gave up.
    pub open spec fn outcome(self) -> Option<Result<(Inventory, Inventory), StageAbort>> {
        match self.stage {
            Stage::Finished => Some(Ok((self.first.inventory, self.second.inventory))),
            Stage::Aborted(abort) => Some(Err(abort)),
            _ => None,
        }
    }

    /// An upper bound on the steps from the draw to the end.
    pub open spec fn draw_fuel(self) -> int {
        2 * self.rules.attempts() + 1
    }

    /// An upper bound on the steps from the bet to the end.
    pub open spec fn bet_fuel(self) -> int {
        4 * self.rules.attempts() + self.draw_fuel()
    }

    /// An upper bound on the steps from the answers to the trade to the end.
    pub open spec fn accept_fuel(self) -> int {
        2 + self.rules.turns() + self.bet_fuel()
    }

    /// An upper bound on the steps from the trade to the end.
    pub open spec fn trade_fuel(self) -> int {
        4 * self.rules.attempts() + self.accept_fuel()
    }

    /// An upper bound on the number of steps that are left.
    pub open spec fn fuel(self) -> int {
        match self.stage {
            Stage::Notify => 1 + self.rules.turns() + self.trade_fuel(),
            Stage::ChatTrade(turn) => self.rules.turns() - turn + self.trade_fuel(),
            Stage::Trade(first, second) => first.fuel(self.rules) + second.fuel(self.rules)
                + self.accept_fuel(),
            Stage::AcceptTrade(_, _) => self.accept_fuel(),
            Stage::FeedbackTrade(_, _) => self.accept_fuel() - 1,
            Stage::ChatDuel(turn) => self.rules.turns() - turn + self.bet_fuel(),
            Stage::Bet(first, second) => first.fuel(self.rules) + second.fuel(self.rules)
                + self.draw_fuel(),
            Stage::AcceptDuel(_, _, made) => 2 * (self.rules.attempts() - made) + 1,
            Stage::CorrectDuel(_, _, made, _, _) => 2 * (self.rules.attempts() - made) + 2,
            Stage::FeedbackDuel(_, _) => 1,
            Stage::Finished => 0,
            Stage::Aborted(_) => 0,
        }
    }

    /// The kind of reply that the machine waits for from each side.
    pub open spec fn expects(self) -> (Expect, Expect) {
        match self.stage {
            Stage::Notify => (Expect::Done, Expect::Done),
            Stage::ChatTrade(turn) => if turn % 2 == 0 {
                (Expect::Records, Expect::Nothing)
            } else {
                (Expect::Nothing, Expect::Records)
            },
            Stage::Trade(first, second) => (
                first.expects(Expect::Trade),
                second.expects(Expect::Trade),
            ),
            Stage::AcceptTrade(_, _) => (Expect::Accept, Expect::Accept),
            Stage::FeedbackTrade(_, _) => (Expect::Done, Expect::Done),
            Stage::ChatDuel(turn) => if turn % 2 == 0 {
                (Expect::Records, Expect::Nothing)
            } else {
                (Expect::Nothing, Expect::Records)
            },
            Stage::Bet(first, second) => (
                first.expects(Expect::Stake),
                second.expects(Expect::Stake),
            ),
            Stage::AcceptDuel(_, _, _) => (Expect::Card, Expect::Card),
            Stage::CorrectDuel(_, _, _, first, second) => (
                if first is Some {
                    Expect::Done
                } else {
                    Expect::Nothing
                },
                if second is Some {
                    Expect::Done
                } else {
                    Expect::Nothing
                },
            ),
            Stage::FeedbackDuel(_, _) => (Expect::Done, Expect::Done),
            Stage::Finished => (Expect::Nothing, Expect::Nothing),
            Stage::Aborted(_) => (Expect::Nothing, Expect::Nothing),
        }
    }

    /// The two replies are what the machine waits for.
    pub open spec fn fits(self, first: Option<Reply>, second: Option<Reply>) -> bool {
        !self.over() && self.expects() == (kind_of(first), kind_of(second))
    }

    /// The two are states of one negotiation: the rules, the public state,
    /// the players and what they came with are the same.
    pub open spec fn same_table(self, other: NegotiationView) -> bool {
        &&& self.rules == other.rules
        &&& self.state == other.state
        &&& self.start == other.start
        &&& self.first.entity == other.first.entity
        &&& self.first.name == other.first.name
        &&& self.first.timer == other.first.timer
        &&& self.second.entity == other.second.entity
        &&& self.second.name == other.second.name
        &&& self.second.timer == other.second.timer
    }

    /// The same negotiation at another stage.
    pub open spec fn at(self, stage: Stage) -> NegotiationView {
        NegotiationView { stage, ..self }
    }

    /// The same negotiation with other inventories.
    pub open spec fn holding(self, first: Inventory, second: Inventory) -> NegotiationView {
        NegotiationView {
            first: PlayerData { inventory: first, ..self.first },
            second: PlayerData { inventory: second, ..self.second },
            ..self
        }
    }

    /// The chat before the trade begins, or the trade if there is no chat.
    pub open spec fn begin_trade_chat(self) -> NegotiationView {
        if self.rules.chat_rounds > 0 {
            self.at(Stage::ChatTrade(0))
        } else {
            self.at(Stage::Trade(Slot::Asking(0), Slot::Asking(0)))
        }
    }

    /// The chat before the bet begins, or the bet if there is no chat. Where
    /// the rules ask for it, the history starts anew.
    pub open spec fn begin_duel_chat(self) -> NegotiationView {
        let cleared = NegotiationView {
            history: if self.rules.fresh_history {
                Seq::empty()
            } else {
                self.history
            },
            ..self
        };
        if self.rules.chat_rounds > 0 {
            cleared.at(Stage::ChatDuel(0))
        } else {
            cleared.at(Stage::Bet(Slot::Asking(0), Slot::Asking(0)))
        }
    }

    /// The state after one turn of chat: what was said is appended to the
    /// history, and the next turn or the next stage follows.
    pub open spec fn chatted(
        self,
        turn: usize,
        said: Seq<ChatRecord>,
        duel: bool,
    ) -> NegotiationView {
        let heard = NegotiationView { history: self.history + said, ..self };
        if turn + 1 < self.rules.turns() {
            heard.at(
                if duel {
                    Stage::ChatDuel((turn + 1) as usize)
                } else {
                    Stage::ChatTrade((turn + 1) as usize)
                },
            )
        } else if duel {
            heard.at(Stage::Bet(Slot::Asking(0), Slot::Asking(0)))
        } else {
            heard.at(Stage::Trade(Slot::Asking(0), Slot::Asking(0)))
        }
    }

    /// The state after a step of the trade stage. When both sides have
    /// settled, the trades leave the inventories and lie on the table; when
    /// neither is pending and one has failed, the negotiation gives up.
    pub open spec fn traded(
        self,
        first: Slot<Trade, TradeError>,
        second: Slot<Trade, TradeError>,
    ) -> NegotiationView {
        match (first, second) {
            (Slot::Settled(a, rest_a), Slot::Settled(b, rest_b)) => self.holding(rest_a, rest_b).at(
                Stage::AcceptTrade(a, b),
            ),
            _ => if first.pending() || second.pending() {
                self.at(Stage::Trade(first, second))
            } else {
                self.at(Stage::Aborted(StageAbort::Trade))
            },
        }
    }

    /// The state after both sides have answered the trade: they swap if both
    /// accept, and each takes its own offer back otherwise.
    pub open spec fn answered(
        self,
        a: Trade,
        b: Trade,
        first: bool,
        second: bool,
    ) -> NegotiationView {
        if first && second {
            self.holding(
                self.first.inventory.with_trade(b),
                self.second.inventory.with_trade(a),
            ).at(Stage::FeedbackTrade(first, second))
        } else {
            self.holding(
                self.first.inventory.with_trade(a),
                self.second.inventory.with_trade(b),
            ).at(Stage::FeedbackTrade(first, second))
        }
    }

    /// The state after the sides were told of the trade: the negotiation ends
    /// here if either has no card to duel with.
    pub open spec fn trade_closed(self) -> NegotiationView {
        if !self.first.inventory.can_duel() || !self.second.inventory.can_duel() {
            self.at(Stage::Finished)
        } else {
            self.begin_duel_chat()
        }
    }

    /// The state after a step of the bet stage.
    pub open spec fn staked(
        self,
        first: Slot<Stake, StakeError>,
        second: Slot<Stake, StakeError>,
    ) -> NegotiationView {
        match (first, second) {
            (Slot::Settled(a, rest_a), Slot::Settled(b, rest_b)) => self.holding(rest_a, rest_b).at(
                Stage::AcceptDuel(a, b, 0),
            ),
            _ => if first.pending() || second.pending() {
                self.at(Stage::Bet(first, second))
            } else {
                self.at(Stage::Aborted(StageAbort::Bet))
            },
        }
    }

    /// The state after two cards were drawn and taken out of the
    /// inventories: a tie returns the stakes, otherwise the winner takes
    /// both.
    pub open spec fn settled(
        self,
        a: Stake,
        b: Stake,
        first: Card,
        second: Card,
    ) -> NegotiationView {
        match first.winner(second) {
            None => self.holding(
                self.first.inventory.with_stake(a),
                self.second.inventory.with_stake(b),
            ).at(Stage::FeedbackDuel(DuelResult::Tie, DuelResult::Tie)),
            Some(index) => if index == 0 {
                self.holding(self.first.inventory.with_stake(a.sum(b)), self.second.inventory).at(
                    Stage::FeedbackDuel(DuelResult::Win, DuelResult::Lose),
                )
            } else {
                self.holding(self.first.inventory, self.second.inventory.with_stake(a.sum(b))).at(
                    Stage::FeedbackDuel(DuelResult::Lose, DuelResult::Win),
                )
            },
        }
    }

    /// The state after both sides have answered the call to duel. If either
    /// abstains the stakes go back and the negotiation ends. If both draw a
    /// card they hold, the duel is settled. Otherwise whoever drew a card it
    /// does not hold is told so.
    pub open spec fn drawn(
        self,
        a: Stake,
        b: Stake,
        made: usize,
        first: Option<Card>,
        second: Option<Card>,
    ) -> NegotiationView {
        match (first, second) {
            (Some(x), Some(y)) => match (
                draw_error(self.first.inventory, x),
                draw_error(self.second.inventory, y),
            ) {
                (None, None) => NegotiationView { drawn: Some((x, y)), ..self }.holding(
                    self.first.inventory.less_card(x),
                    self.second.inventory.less_card(y),
                ).settled(a, b, x, y),
                (e, f) => self.at(Stage::CorrectDuel(a, b, (made + 1) as usize, e, f)),
            },
            _ => self.holding(
                self.first.inventory.with_stake(a),
                self.second.inventory.with_stake(b),
            ).at(Stage::Finished),
        }
    }

    /// The state after the sides were told of their rejected cards: they are
    /// asked again unless the attempts are used up.
    pub open spec fn redrawn(self, a: Stake, b: Stake, made: usize) -> NegotiationView {
        if made > self.rules.max_retries {
            self.at(Stage::Aborted(StageAbort::Duel))
        } else {
            self.at(Stage::AcceptDuel(a, b, made))
        }
    }

    /// The state after the two replies. Replies that the machine does not
    /// wait for change nothing.
    pub open spec fn next(self, first: Option<Reply>, second: Option<Reply>) -> NegotiationView {
        if !self.fits(first, second) {
            self
        } else {
            match self.stage {
                Stage::Notify => self.begin_trade_chat(),
                Stage::ChatTrade(turn) => self.chatted(
                    turn,
                    records_of(first) + records_of(second),
                    false,
                ),
                Stage::Trade(a, b) => self.traded(
                    trade_slot_after(a, self.rules, self.first.inventory, first),
                    trade_slot_after(b, self.rules, self.second.inventory, second),
                ),
                Stage::AcceptTrade(a, b) => match (first, second) {
                    (Some(Reply::Accept(x)), Some(Reply::Accept(y))) => self.answered(a, b, x, y),
                    _ => self,
                },
                Stage::FeedbackTrade(_, _) => self.trade_closed(),
                Stage::ChatDuel(turn) => self.chatted(
                    turn,
                    records_of(first) + records_of(second),
                    true,
                ),
                Stage::Bet(a, b) => self.staked(
                    bet_slot_after(a, self.rules, self.first.inventory, first),
                    bet_slot_after(b, self.rules, self.second.inventory, second),
                ),
                Stage::AcceptDuel(a, b, made) => match (first, second) {
                    (Some(Reply::Card(x)), Some(Reply::Card(y))) => self.drawn(a, b, made, x, y),
                    _ => self,
                },
                Stage::CorrectDuel(a, b, made, _, _) => self.redrawn(a, b, made),
                Stage::FeedbackDuel(_, _) => self.at(Stage::Finished),
                Stage::Finished => self,
                Stage::Aborted(_) => self,
            }
        }
    }
}

impl NegotiationView {
    /// The player on one side: the first for side 0, the second otherwise.
    pub open spec fn player(self, side: int) -> PlayerData {
        if side == 0 {
            self.first
        } else {
            self.second
        }
    }

    /// The kind of reply that the machine waits for from one side.
    pub open spec fn expects_from(self, side: int) -> Expect {
        if side == 0 {
            self.expects().0
        } else {
            self.expects().1
        }
    }

    /// The request asks `side` to chat: it shows the opponent, the part of
    /// the history that the side may read, and the kind of the turn.
    pub open spec fn is_chat(self, side: int, request: Request, kind: ChatKind) -> bool {
        request matches Request::Chat(opponent, seen, asked) && opponent == OpponentData::of(
            self.player(1 - side),
        ) && seen@ == self.history.filter(visible(self.player(side).entity)) && asked == kind
    }

    /// The request tells `side` of an error with the given message.
    pub open spec fn is_error(self, request: Request, message: Seq<char>) -> bool {
        request matches Request::FeedbackError(text) && text@ == error_text(message)
    }

    /// Whether `request` is what the machine wants `side` to be asked now.
    pub open spec fn wants(self, side: int, request: Request) -> bool {
        let me = self.player(side);
        let other = OpponentData::of(self.player(1 - side));
        let visible_part = self.history.filter(visible(me.entity));
        match self.stage {
            Stage::Notify => request == Request::Notify(self.state),
            Stage::ChatTrade(turn) => self.is_chat(side, request, ChatKind::Trade(turn)),
            Stage::Trade(first, second) => match (if side == 0 {
                first
            } else {
                second
            }) {
                Slot::Asking(_) => request matches Request::Trade(opponent, seen) && opponent
                    == other && seen@ == visible_part,
                Slot::Correcting(_, error) => self.is_error(request, error.message()),
                _ => false,
            },
            Stage::AcceptTrade(first, second) => request matches Request::AcceptTrade(
                opponent,
                seen,
                state,
            ) && opponent == other && seen@ == self.history && state == (if side == 0 {
                TradeState { this: first, that: second }
            } else {
                TradeState { this: second, that: first }
            }),
            Stage::FeedbackTrade(first, second) => request matches Request::FeedbackTrade(flags)
                && flags@ == (if side == 0 {
                seq![first, second]
            } else {
                seq![second, first]
            }),
            Stage::ChatDuel(turn) => self.is_chat(side, request, ChatKind::Duel(turn)),
            Stage::Bet(first, second) => match (if side == 0 {
                first
            } else {
                second
            }) {
                Slot::Asking(_) => request matches Request::Bet(opponent, seen) && opponent == other
                    && seen@ == visible_part,
                Slot::Correcting(_, error) => self.is_error(request, error.message()),
                _ => false,
            },
            Stage::AcceptDuel(first, second, _) => request matches Request::AcceptDuel(
                opponent,
                seen,
                state,
            ) && opponent == other && seen@ == self.history && state == (if side == 0 {
                StakeState { this: first, that: second }
            } else {
                StakeState { this: second, that: first }
            }),
            Stage::CorrectDuel(_, _, _, first, second) => match (if side == 0 {
                first
            } else {
                second
            }) {
                Some(error) => self.is_error(request, error.message()),
                None => false,
            },
            Stage::FeedbackDuel(first, second) => request == Request::FeedbackDuel(
                if side == 0 {
                    first
                } else {
                    second
                },
            ),
            Stage::Finished => false,
            Stage::Aborted(_) => false,
        }
    }

    /// Whether `call` is what the machine has for `side` now: nothing where
    /// it waits for nothing from that side, and otherwise the request it
    /// wants, put to the player as it stands.
    pub open spec fn asks(self, side: int, call: Option<Call>) -> bool {
        match call {
            Some(call) => {
                &&& self.expects_from(side) != Expect::Nothing
                &&& call.player == self.player(side)
                &&& self.wants(side, call.request)
                &&& call.request.expects() == self.expects_from(side)
            },
            None => self.over() || self.expects_from(side) == Expect::Nothing,
        }
    }
}

} // verus!
