//! Chance: picking one of several and shuffling, by the `fastrand` generator.
//!
//! What comes back differs from call to call, so the contracts state only
//! what holds of every outcome.

use vstd::prelude::*;

use crate::card::Card;

verus! {

/// Calls `fastrand::choice` on the deck: it returns nothing for an empty
/// deck and otherwise the card at an index chosen at random.
#[verifier::external_body]
pub(crate) fn pick_card(deck: &Vec<Card>) -> (card: Option<Card>)
    ensures
        deck.len() == 0 ==> card is None,
        deck.len() > 0 ==> card is Some && deck@.contains(card->0),
{
    fastrand::choice(deck).copied()
}

/// Calls `fastrand::shuffle`, which swaps items of the slice among
/// themselves: the same items come back in some order.
#[verifier::external_body]
pub(crate) fn shuffle(items: &mut Vec<u64>)
    ensures
        final(items)@.to_multiset() == old(items)@.to_multiset(),
{
    fastrand::shuffle(items)
}

} // verus!
