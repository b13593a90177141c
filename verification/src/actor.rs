//! The actor behind a player, and a negotiation run to its end.

use vstd::prelude::*;

use crate::card::Card;
use crate::chance::pick_card;
use crate::chat::{ChatKind, ChatRecord};
use crate::config::Rules;
use crate::duel::{
    lemma_short_of_cards_ends_after_trade, redistributes, spent_on, Call, DuelResult, Negotiation,
    Reply, Request, StageAbort, StakeState, TradeState,
};
use crate::inventory::{Assets, Inventory, Stake, Trade};
use crate::player::{OpponentData, PlayerData, PublicState};

verus! {

/// The policy of a player: what it says, offers, accepts, stakes and draws.
/// `player` is always the side that acts, `opponent` what it may know of the
/// other side.
pub trait Actor {
    /// Tells the actor how many players there are and which cards are in the
    /// game.
    fn notify(&mut self, player: &PlayerData, state: &PublicState);

    /// Tells the actor that its last offer, stake or card was rejected, and
    /// why.
    fn feedback_error(&mut self, player: &PlayerData, text: String);

    /// Lets the actor speak; what it says is appended to the history.
    fn chat(
        &mut self,
        player: &PlayerData,
        opponent: &OpponentData,
        history: &Vec<ChatRecord>,
        kind: ChatKind,
    ) -> Vec<ChatRecord>;

    /// Asks the actor what it offers in trade. It may name more than it
    /// holds.
    fn trade(
        &mut self,
        player: &PlayerData,
        opponent: &OpponentData,
        history: &Vec<ChatRecord>,
    ) -> Trade;

    /// Asks the actor whether it accepts the two trades.
    fn accept_trade(
        &mut self,
        player: &PlayerData,
        opponent: &OpponentData,
        history: &Vec<ChatRecord>,
        state: TradeState,
    ) -> bool;

    /// Tells the actor what it and its opponent said to the trade.
    fn feedback_trade(&mut self, player: &PlayerData, state: [bool; 2]);

    /// Asks the actor what it stakes.
    fn bet(
        &mut self,
        player: &PlayerData,
        opponent: &OpponentData,
        history: &Vec<ChatRecord>,
    ) -> Stake;

    /// Asks the actor for the card it draws; `None` abstains from the duel.
    fn accept_duel(
        &mut self,
        player: &PlayerData,
        opponent: &OpponentData,
        history: &Vec<ChatRecord>,
        state: StakeState,
    ) -> Option<Card>;

    /// Tells the actor how the duel ended for it.
    fn feedback_duel(&mut self, player: &PlayerData, result: DuelResult);
}

/// The cards of an inventory laid out one by one: the rocks, then the papers,
/// then the scissors.
pub open spec fn deck_of(inventory: Inventory) -> Seq<Card> {
    Seq::new(inventory.rock as nat, |i: int| Card::Rock) + Seq::new(
        inventory.paper as nat,
        |i: int| Card::Paper,
    ) + Seq::new(inventory.scissors as nat, |i: int| Card::Scissors)
}

/// Lays out the cards of an inventory one by one.
pub fn deck(inventory: &Inventory) -> (cards: Vec<Card>)
    ensures
        cards@ == deck_of(*inventory),
        forall|card: Card| cards@.contains(card) ==> inventory.count_of(card) > 0,
{
    let mut cards: Vec<Card> = Vec::new();
    let mut count: usize = 0;
    while count < inventory.rock
        invariant
            count <= inventory.rock,
            cards@ == Seq::new(count as nat, |i: int| Card::Rock),
        decreases inventory.rock - count,
    {
        cards.push(Card::Rock);
        count += 1;
    }
    count = 0;
    while count < inventory.paper
        invariant
            count <= inventory.paper,
            cards@ == Seq::new(inventory.rock as nat, |i: int| Card::Rock) + Seq::new(
                count as nat,
                |i: int| Card::Paper,
            ),
        decreases inventory.paper - count,
    {
        cards.push(Card::Paper);
        count += 1;
    }
    count = 0;
    while count < inventory.scissors
        invariant
            count <= inventory.scissors,
            cards@ == Seq::new(inventory.rock as nat, |i: int| Card::Rock) + Seq::new(
                inventory.paper as nat,
                |i: int| Card::Paper,
            ) + Seq::new(count as nat, |i: int| Card::Scissors),
        decreases inventory.scissors - count,
    {
        cards.push(Card::Scissors);
        count += 1;
    }
    assert forall|card: Card| cards@.contains(card) implies inventory.count_of(card) > 0 by {
        let i = choose|i: int| 0 <= i < cards@.len() && cards@[i] == card;
        assert(cards@[i] == card);
    }
    cards
}

/// The trade that offers one card of the given kind, or nothing.
pub open spec fn single_card(card: Option<Card>) -> Trade {
    match card {
        Some(Card::Rock) => Trade { star: 0, coin: 0, rock: 1, paper: 0, scissors: 0 },
        Some(Card::Paper) => Trade { star: 0, coin: 0, rock: 0, paper: 1, scissors: 0 },
        Some(Card::Scissors) => Trade { star: 0, coin: 0, rock: 0, paper: 0, scissors: 1 },
        None => Trade { star: 0, coin: 0, rock: 0, paper: 0, scissors: 0 },
    }
}

/// The trade that offers one card of the given kind, or nothing.
pub fn trade_of(card: Option<Card>) -> (trade: Trade)
    ensures
        trade == single_card(card),
        card matches Some(kind) ==> trade@ == Assets::one(kind),
        card is None ==> trade@ == Assets::zero(),
{
    match card {
        Some(Card::Rock) => Trade { star: 0, coin: 0, rock: 1, paper: 0, scissors: 0 },
        Some(Card::Paper) => Trade { star: 0, coin: 0, rock: 0, paper: 1, scissors: 0 },
        Some(Card::Scissors) => Trade { star: 0, coin: 0, rock: 0, paper: 0, scissors: 1 },
        None => Trade { star: 0, coin: 0, rock: 0, paper: 0, scissors: 0 },
    }
}

/// An actor that says nothing, accepts every trade, stakes one star and
/// offers and draws a card picked at random from those it holds.
#[derive(Debug, Default, Clone, Copy)]
pub struct DummyActor;

impl Actor for DummyActor {
    fn notify(&mut self, player: &PlayerData, state: &PublicState) {
    }

    fn feedback_error(&mut self, player: &PlayerData, text: String) {
    }

    fn chat(
        &mut self,
        player: &PlayerData,
        opponent: &OpponentData,
        history: &Vec<ChatRecord>,
        kind: ChatKind,
    ) -> (said: Vec<ChatRecord>)
        ensures
            said@.len() == 0,
    {
        Vec::new()
    }

    fn trade(
        &mut self,
        player: &PlayerData,
        opponent: &OpponentData,
        history: &Vec<ChatRecord>,
    ) -> (trade: Trade)
        ensures
            trade@.le(player.inventory@),
            player.inventory@.cards() == 0 <==> trade@ == Assets::zero(),
            exists|card: Option<Card>| trade == single_card(card),
    {
        let cards = deck(&player.inventory);
        let card = pick_card(&cards);
        assert(player.inventory@.cards() == 0 <==> cards@.len() == 0);
        trade_of(card)
    }

    fn accept_trade(
        &mut self,
        player: &PlayerData,
        opponent: &OpponentData,
        history: &Vec<ChatRecord>,
        state: TradeState,
    ) -> (accepted: bool)
        ensures
            accepted,
    {
        true
    }

    fn feedback_trade(&mut self, player: &PlayerData, state: [bool; 2]) {
    }

    fn bet(
        &mut self,
        player: &PlayerData,
        opponent: &OpponentData,
        history: &Vec<ChatRecord>,
    ) -> (stake: Stake)
        ensures
            stake == (Stake { star: 1, coin: 0 }),
    {
        Stake::default()
    }

    fn accept_duel(
        &mut self,
        player: &PlayerData,
        opponent: &OpponentData,
        history: &Vec<ChatRecord>,
        state: StakeState,
    ) -> (card: Option<Card>)
        ensures
            card is None <==> player.inventory@.cards() == 0,
            card matches Some(kind) ==> player.inventory.count_of(kind) > 0,
    {
        let cards = deck(&player.inventory);
        assert(player.inventory@.cards() == 0 <==> cards@.len() == 0);
        pick_card(&cards)
    }

    fn feedback_duel(&mut self, player: &PlayerData, result: DuelResult) {
    }
}

/// Puts one request to an actor and wraps what it answers.
pub fn perform<A: Actor>(actor: &mut A, call: Call) -> (reply: Reply)
    ensures
        reply.kind() == call.request.expects(),
{
    let Call { player, request } = call;
    match request {
        Request::Notify(state) => {
            actor.notify(&player, &state);
            Reply::Done
        },
        Request::FeedbackError(text) => {
            actor.feedback_error(&player, text);
            Reply::Done
        },
        Request::Chat(opponent, history, kind) => Reply::Records(
            actor.chat(&player, &opponent, &history, kind),
        ),
        Request::Trade(opponent, history) => Reply::Trade(
            actor.trade(&player, &opponent, &history),
        ),
        Request::AcceptTrade(opponent, history, state) => Reply::Accept(
            actor.accept_trade(&player, &opponent, &history, state),
        ),
        Request::FeedbackTrade(state) => {
            actor.feedback_trade(&player, state);
            Reply::Done
        },
        Request::Bet(opponent, history) => Reply::Stake(actor.bet(&player, &opponent, &history)),
        Request::AcceptDuel(opponent, history, state) => Reply::Card(
            actor.accept_duel(&player, &opponent, &history, state),
        ),
        Request::FeedbackDuel(result) => {
            actor.feedback_duel(&player, result);
            Reply::Done
        },
    }
}

/// Runs the negotiation between two players to its end, asking the first
/// actor before the second where both are asked at once. Returns what the
/// first and the second player hold at the end, or the stage that gave up.
/// What the two hold together must fit a machine word, for stars, coins and
/// cards each.
///
/// Whether the negotiation comes to an end lies with the actors, but for
/// this: two players that each hold a star and together hold fewer than two
/// cards always come to an end, with nothing lost. Their offers are capped
/// and so never rejected, and after the trade one of them has no card to
/// duel with.
pub fn duel<A: Actor, B: Actor>(
    rules: &Rules,
    state: PublicState,
    first: &mut A,
    second: &mut B,
    players: [PlayerData; 2],
) -> (result: Result<[Inventory; 2], StageAbort>)
    requires
        rules.wf(),
        players[0].inventory@.plus(players[1].inventory@).fits(),
    ensures
        result matches Ok(pair) ==> redistributes(
            (players[0].inventory, players[1].inventory),
            (pair[0], pair[1]),
        ),
        result matches Ok(pair) ==> pair[0].star + pair[1].star == players[0].inventory.star
            + players[1].inventory.star,
        result matches Ok(pair) ==> pair[0].coin + pair[1].coin == players[0].inventory.coin
            + players[1].inventory.coin,
        result == Err::<[Inventory; 2], StageAbort>(StageAbort::Trade)
            ==> players[0].inventory.star == 0 || players[1].inventory.star == 0,
        players[0].inventory.star > 0 && players[1].inventory.star > 0
            && players[0].inventory@.cards() + players[1].inventory@.cards() < 2
            ==> (result matches Ok(pair) && pair[0]@.plus(pair[1]@)
            == players[0].inventory@.plus(players[1].inventory@)),
{
    let mut table = Negotiation::new(*rules, state, players[0].clone(), players[1].clone());
    loop
        invariant
            table@.wf(),
            table@.start == (players[0].inventory, players[1].inventory),
            table@.short_of_cards() ==> table@.up_to_trade() && table@.drawn is None,
        decreases table@.fuel(),
    {
        match table.outcome() {
            Some(result) => {
                proof {
                    if let Ok(pair) = result {
                        let before = (players[0].inventory, players[1].inventory);
                        let after = (pair[0], pair[1]);
                        assert(table@.spent() == spent_on(table@.drawn));
                        assert(after.0@.plus(after.1@).plus(spent_on(table@.drawn))
                            == before.0@.plus(before.1@));
                    }
                }
                return result;
            },
            None => {},
        }
        let (one, two) = table.requests();
        let answer_one = match one {
            Some(call) => Some(perform(first, call)),
            None => None,
        };
        let answer_two = match two {
            Some(call) => Some(perform(second, call)),
            None => None,
        };
        proof {
            if table@.short_of_cards() {
                lemma_short_of_cards_ends_after_trade(table@, answer_one, answer_two);
            }
        }
        let accepted = table.advance(answer_one, answer_two);
        assert(accepted);
    }
}

} // verus!
