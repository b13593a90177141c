//! What is proved of every step of a negotiation.

use vstd::prelude::*;

use crate::card::Card;
use crate::config::Rules;
use crate::duel::model::{bet_slot_sound, trade_slot_sound, NegotiationView};
use crate::duel::{
    bet_slot_after, capped, draw_error, kind_of, trade_slot_after, Expect, Reply, Slot, Stage,
    StageAbort,
};
use crate::inventory::{Assets, Inventory, Stake, StakeError, Trade, TradeError};

verus! {

proof fn lemma_trade_slot(
    slot: Slot<Trade, TradeError>,
    rules: Rules,
    inventory: Inventory,
    reply: Option<Reply>,
)
    requires
        rules.wf(),
        slot.wf(rules),
        trade_slot_sound(slot, inventory),
        inventory.star > 0 ==> slot is Asking || slot is Settled,
        slot.expects(Expect::Trade) == kind_of(reply),
    ensures
        trade_slot_after(slot, rules, inventory, reply).wf(rules),
        trade_slot_sound(trade_slot_after(slot, rules, inventory, reply), inventory),
        0 <= trade_slot_after(slot, rules, inventory, reply).fuel(rules) <= slot.fuel(rules),
        slot.pending() ==> trade_slot_after(slot, rules, inventory, reply).fuel(rules) < slot.fuel(
            rules,
        ),
        inventory.star > 0 ==> trade_slot_after(slot, rules, inventory, reply) is Asking
            || trade_slot_after(slot, rules, inventory, reply) is Settled,
{
    if let Some(Reply::Trade(trade)) = reply {
        let offer = capped(trade, inventory);
        if inventory.star > 0 {
            assert(inventory.trade_shortage(offer) is None);
        }
    }
}

proof fn lemma_trade_close(
    before: NegotiationView,
    x: Slot<Trade, TradeError>,
    y: Slot<Trade, TradeError>,
)
    requires
        before.wf(),
        before.stage is Trade,
        x.wf(before.rules),
        y.wf(before.rules),
        trade_slot_sound(x, before.first.inventory),
        trade_slot_sound(y, before.second.inventory),
        before.start.0.star > 0 ==> x is Asking || x is Settled,
        before.start.1.star > 0 ==> y is Asking || y is Settled,
        0 <= x.fuel(before.rules) + y.fuel(before.rules) < before.fuel() - before.accept_fuel(),
    ensures
        before.traded(x, y).wf(),
        0 <= before.traded(x, y).fuel() < before.fuel(),
{
    let after = before.traded(x, y);
    match (x, y) {
        (Slot::Settled(t, rest_t), Slot::Settled(u, rest_u)) => {
            assert(rest_t@ == before.first.inventory@.minus(t@));
            assert(rest_u@ == before.second.inventory@.minus(u@));
            assert(after.escrow() == t@.plus(u@));
            assert(after.holdings() == before.holdings());
            assert(after.trade_wf());
        },
        _ => {
            assert(after.trade_wf());
        },
    }
}

proof fn lemma_trade_step(before: NegotiationView, first: Option<Reply>, second: Option<Reply>)
    requires
        before.wf(),
        before.fits(first, second),
        before.stage is Trade,
    ensures
        before.next(first, second).wf(),
        0 <= before.next(first, second).fuel() < before.fuel(),
{
    let rules = before.rules;
    if let Stage::Trade(a, b) = before.stage {
        let x = trade_slot_after(a, rules, before.first.inventory, first);
        let y = trade_slot_after(b, rules, before.second.inventory, second);
        lemma_trade_slot(a, rules, before.first.inventory, first);
        lemma_trade_slot(b, rules, before.second.inventory, second);
        lemma_trade_close(before, x, y);
    }
}

proof fn lemma_bet_slot(
    slot: Slot<Stake, StakeError>,
    rules: Rules,
    inventory: Inventory,
    reply: Option<Reply>,
)
    requires
        rules.wf(),
        slot.wf(rules),
        bet_slot_sound(slot, inventory),
        slot.expects(Expect::Stake) == kind_of(reply),
    ensures
        bet_slot_after(slot, rules, inventory, reply).wf(rules),
        bet_slot_sound(bet_slot_after(slot, rules, inventory, reply), inventory),
        0 <= bet_slot_after(slot, rules, inventory, reply).fuel(rules) <= slot.fuel(rules),
        slot.pending() ==> bet_slot_after(slot, rules, inventory, reply).fuel(rules) < slot.fuel(
            rules,
        ),
{
}

proof fn lemma_bet_close(
    before: NegotiationView,
    x: Slot<Stake, StakeError>,
    y: Slot<Stake, StakeError>,
)
    requires
        before.wf(),
        before.stage is Bet,
        x.wf(before.rules),
        y.wf(before.rules),
        bet_slot_sound(x, before.first.inventory),
        bet_slot_sound(y, before.second.inventory),
        0 <= x.fuel(before.rules) + y.fuel(before.rules) < before.fuel() - before.draw_fuel(),
    ensures
        before.staked(x, y).wf(),
        0 <= before.staked(x, y).fuel() < before.fuel(),
{
    let after = before.staked(x, y);
    match (x, y) {
        (Slot::Settled(t, rest_t), Slot::Settled(u, rest_u)) => {
            assert(rest_t@ == before.first.inventory@.minus(t@));
            assert(rest_u@ == before.second.inventory@.minus(u@));
            assert(after.escrow() == t@.plus(u@));
            assert(after.holdings() == before.holdings());
        },
        _ => {},
    }
}

proof fn lemma_bet_step(before: NegotiationView, first: Option<Reply>, second: Option<Reply>)
    requires
        before.wf(),
        before.fits(first, second),
        before.stage is Bet,
    ensures
        before.next(first, second).wf(),
        0 <= before.next(first, second).fuel() < before.fuel(),
{
    let rules = before.rules;
    if let Stage::Bet(a, b) = before.stage {
        let x = bet_slot_after(a, rules, before.first.inventory, first);
        let y = bet_slot_after(b, rules, before.second.inventory, second);
        lemma_bet_slot(a, rules, before.first.inventory, first);
        lemma_bet_slot(b, rules, before.second.inventory, second);
        lemma_bet_close(before, x, y);
    }
}

proof fn lemma_answer_step(before: NegotiationView, a: Trade, b: Trade, first: bool, second: bool)
    requires
        before.wf(),
        before.stage == Stage::AcceptTrade(a, b),
    ensures
        before.answered(a, b, first, second).wf(),
        0 <= before.answered(a, b, first, second).fuel() < before.fuel(),
{
    let p = before.first.inventory;
    let q = before.second.inventory;
    assert(p@.plus(q@).plus(a@.plus(b@)) == before.total());
    assert(p.with_trade(b)@ == p@.plus(b@));
    assert(q.with_trade(a)@ == q@.plus(a@));
    assert(p.with_trade(a)@ == p@.plus(a@));
    assert(q.with_trade(b)@ == q@.plus(b@));
}

proof fn lemma_settle_step(before: NegotiationView, a: Stake, b: Stake, x: Card, y: Card)
    requires
        before.rules.wf(),
        before.total().fits(),
        before.drawn == Some((x, y)),
        before.first.inventory@.plus(before.second.inventory@).plus(a@.plus(b@)).plus(
            before.spent(),
        ) == before.total(),
    ensures
        before.settled(a, b, x, y).wf(),
        before.settled(a, b, x, y).holdings() == before.total(),
        before.settled(a, b, x, y).fuel() == 1,
{
    let p = before.first.inventory;
    let q = before.second.inventory;
    assert(a.sum(b)@ == a@.plus(b@));
    assert(p.with_stake(a)@ == p@.plus(a@));
    assert(q.with_stake(b)@ == q@.plus(b@));
    assert(p.with_stake(a.sum(b))@ == p@.plus(a@.plus(b@)));
    assert(q.with_stake(a.sum(b))@ == q@.plus(a@.plus(b@)));
}

proof fn lemma_draw_step(
    before: NegotiationView,
    a: Stake,
    b: Stake,
    made: usize,
    first: Option<Card>,
    second: Option<Card>,
)
    requires
        before.wf(),
        before.stage == Stage::AcceptDuel(a, b, made),
    ensures
        before.drawn(a, b, made, first, second).wf(),
        0 <= before.drawn(a, b, made, first, second).fuel() < before.fuel(),
{
    let p = before.first.inventory;
    let q = before.second.inventory;
    assert(p@.plus(q@).plus(a@.plus(b@)) == before.total());
    assert(p.with_stake(a)@ == p@.plus(a@));
    assert(q.with_stake(b)@ == q@.plus(b@));
    match (first, second) {
        (Some(x), Some(y)) => {
            if draw_error(p, x) is None && draw_error(q, y) is None {
                let drew = NegotiationView { drawn: Some((x, y)), ..before }.holding(
                    p.less_card(x),
                    q.less_card(y),
                );
                assert(p.less_card(x)@ == p@.minus(Assets::one(x)));
                assert(q.less_card(y)@ == q@.minus(Assets::one(y)));
                lemma_settle_step(drew, a, b, x, y);
            }
        },
        _ => {},
    }
}

/// A negotiation that has come to an end has only moved stars, coins and
/// cards between the two players, but for the cards that they drew: stars
/// and coins are what the two came with, and so are the cards where none was
/// drawn.
pub proof fn lemma_finished_conserves(table: NegotiationView)
    requires
        table.wf(),
        table.stage is Finished,
    ensures
        table.first.inventory@.plus(table.second.inventory@).plus(table.spent()) == table.total(),
        table.first.inventory.star + table.second.inventory.star == table.start.0.star
            + table.start.1.star,
        table.first.inventory.coin + table.second.inventory.coin == table.start.0.coin
            + table.start.1.coin,
        table.drawn is None ==> table.first.inventory@.plus(table.second.inventory@)
            == table.total(),
        table.drawn is Some ==> table.first.inventory@.cards() + table.second.inventory@.cards()
            + 2 == table.total().cards(),
{
}

/// A negotiation gives up at the trade only if a player came without a
/// star: the offer of any other player is capped to what it holds and taken.
pub proof fn lemma_trade_abort_needs_starless(table: NegotiationView)
    requires
        table.wf(),
        table.stage == Stage::Aborted(StageAbort::Trade),
    ensures
        table.start.0.star == 0 || table.start.1.star == 0,
{
}

/// Two players that came with a star each and with fewer than two cards
/// together always come to an end, whatever their actors answer: neither
/// offer is rejected at the trade, and after the trade a side has no card,
/// so the negotiation ends there with the inventories that the trade left.
pub proof fn lemma_short_of_cards_ends_after_trade(
    before: NegotiationView,
    first: Option<Reply>,
    second: Option<Reply>,
)
    requires
        before.wf(),
        before.short_of_cards(),
        before.up_to_trade(),
        before.drawn is None,
    ensures
        before.next(first, second).up_to_trade(),
        before.next(first, second).short_of_cards(),
        before.next(first, second).drawn is None,
{
    lemma_step_keeps_invariant(before, first, second);
    let after = before.next(first, second);
    if before.fits(first, second) {
        match before.stage {
            Stage::FeedbackTrade(_, _) => {
                assert(before.spent() == Assets::zero());
                assert(before.first.inventory@.cards() + before.second.inventory@.cards()
                    == before.total().cards());
                assert(!before.first.inventory.can_duel() || !before.second.inventory.can_duel());
            },
            Stage::Trade(_, _) => {
                assert(after.stage != Stage::Aborted(StageAbort::Trade));
            },
            _ => {},
        }
    }
}

/// Every step keeps the invariant of the negotiation: until it gives up, the
/// two players, the table and the drawn cards together are exactly what the
/// players came with. A step that the machine waited for brings the end
/// nearer; any other changes nothing.
pub proof fn lemma_step_keeps_invariant(
    before: NegotiationView,
    first: Option<Reply>,
    second: Option<Reply>,
)
    requires
        before.wf(),
    ensures
        before.next(first, second).wf(),
        before.fits(first, second) ==> 0 <= before.next(first, second).fuel() < before.fuel(),
        !before.fits(first, second) ==> before.next(first, second) == before,
        before.next(first, second).same_table(before),
{
    let after = before.next(first, second);
    if before.fits(first, second) {
        match before.stage {
            Stage::Notify => {
                assert(after.wf());
            },
            Stage::ChatTrade(turn) => {
                assert(after.wf());
            },
            Stage::FeedbackTrade(_, _) => {
                assert(after.wf());
            },
            Stage::ChatDuel(turn) => {
                assert(after.wf());
            },
            Stage::CorrectDuel(a, b, made, _, _) => {
                assert(after.wf());
            },
            Stage::FeedbackDuel(_, _) => {
                assert(after.wf());
            },
            Stage::Trade(_, _) => {
                lemma_trade_step(before, first, second);
            },
            Stage::AcceptTrade(a, b) => {
                if let (Some(Reply::Accept(x)), Some(Reply::Accept(y))) = (first, second) {
                    lemma_answer_step(before, a, b, x, y);
                }
            },
            Stage::Bet(_, _) => {
                lemma_bet_step(before, first, second);
            },
            Stage::AcceptDuel(a, b, made) => {
                if let (Some(Reply::Card(x)), Some(Reply::Card(y))) = (first, second) {
                    lemma_draw_step(before, a, b, made, x, y);
                }
            },
            _ => {},
        }
    }
}

} // verus!
