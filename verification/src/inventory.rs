//! What a player owns, what it offers in a trade and what it stakes in a duel.
//!
//! Splits take resources out of an inventory and are checked: they return the
//! remainder or name the first resource that falls short. Merges put
//! resources in and never fail.

use vstd::prelude::*;

use vstd::string::*;

use crate::card::Card;
use crate::text::{decimal, decimal_text};

verus! {

/// Amounts of the five resources as mathematical integers: the model of
/// [`Inventory`], [`Trade`] and [`Stake`].
pub struct Assets {
    pub star: int,
    pub coin: int,
    pub rock: int,
    pub paper: int,
    pub scissors: int,
}

impl Assets {
    /// Nothing of anything.
    pub open spec fn zero() -> Assets {
        Assets { star: 0, coin: 0, rock: 0, paper: 0, scissors: 0 }
    }

    /// One card of the given kind and nothing else.
    pub open spec fn one(card: Card) -> Assets {
        match card {
            Card::Rock => Assets { rock: 1, ..Assets::zero() },
            Card::Paper => Assets { paper: 1, ..Assets::zero() },
            Card::Scissors => Assets { scissors: 1, ..Assets::zero() },
        }
    }

    /// Component-wise sum.
    pub open spec fn plus(self, other: Assets) -> Assets {
        Assets {
            star: self.star + other.star,
            coin: self.coin + other.coin,
            rock: self.rock + other.rock,
            paper: self.paper + other.paper,
            scissors: self.scissors + other.scissors,
        }
    }

    /// Component-wise difference.
    pub open spec fn minus(self, other: Assets) -> Assets {
        Assets {
            star: self.star - other.star,
            coin: self.coin - other.coin,
            rock: self.rock - other.rock,
            paper: self.paper - other.paper,
            scissors: self.scissors - other.scissors,
        }
    }

    /// Every component of `self` is at most that of `other`.
    pub open spec fn le(self, other: Assets) -> bool {
        &&& self.star <= other.star
        &&& self.coin <= other.coin
        &&& self.rock <= other.rock
        &&& self.paper <= other.paper
        &&& self.scissors <= other.scissors
    }

    /// The number of cards of all three kinds.
    pub open spec fn cards(self) -> int {
        self.rock + self.paper + self.scissors
    }

    /// No component is negative.
    pub open spec fn non_negative(self) -> bool {
        Assets::zero().le(self)
    }

    /// Stars, coins and the card count each fit a machine word.
    pub open spec fn fits(self) -> bool {
        &&& self.non_negative()
        &&& self.star <= usize::MAX
        &&& self.coin <= usize::MAX
        &&& self.cards() <= usize::MAX
    }
}

/// The resources of one player.
#[derive(Debug, Clone, Copy, PartialEq, Eq, Structural)]
pub struct Inventory {
    pub star: usize,
    pub coin: usize,
    pub rock: usize,
    pub paper: usize,
    pub scissors: usize,
}

/// What one side hands over in a trade.
#[derive(Debug, Clone, Copy, PartialEq, Eq, Structural)]
pub struct Trade {
    pub star: usize,
    pub coin: usize,
    pub rock: usize,
    pub paper: usize,
    pub scissors: usize,
}

/// What one side puts at risk in a duel.
#[derive(Debug, Clone, Copy, PartialEq, Eq, Structural)]
pub struct Stake {
    pub star: usize,
    pub coin: usize,
}

/// Why a trade cannot be taken out of an inventory: the resource, how much
/// of it there is, and how much was asked for.
#[derive(Debug, Clone, Copy, PartialEq, Eq, Structural)]
pub enum TradeError {
    Star(usize, usize),
    Coin(usize, usize),
    Rock(usize, usize),
    Paper(usize, usize),
    Scissors(usize, usize),
}

/// Why a stake cannot be taken out of an inventory.
#[derive(Debug, Clone, Copy, PartialEq, Eq, Structural)]
pub enum StakeError {
    Star(usize, usize),
    Coin(usize, usize),
}

/// Which card could not be drawn because none of its kind is held.
#[derive(Debug, Clone, Copy, PartialEq, Eq, Structural)]
pub enum DuelError {
    Rock,
    Paper,
    Scissors,
}

impl View for Inventory {
    type V = Assets;

    open spec fn view(&self) -> Assets {
        Assets {
            star: self.star as int,
            coin: self.coin as int,
            rock: self.rock as int,
            paper: self.paper as int,
            scissors: self.scissors as int,
        }
    }
}

impl View for Trade {
    type V = Assets;

    open spec fn view(&self) -> Assets {
        Assets {
            star: self.star as int,
            coin: self.coin as int,
            rock: self.rock as int,
            paper: self.paper as int,
            scissors: self.scissors as int,
        }
    }
}

impl View for Stake {
    type V = Assets;

    open spec fn view(&self) -> Assets {
        Assets { star: self.star as int, coin: self.coin as int, ..Assets::zero() }
    }
}

impl Default for Inventory {
    /// The inventory every player starts with.
    fn default() -> (inventory: Inventory)
        ensures
            inventory == (Inventory { star: 3, coin: 10, rock: 4, paper: 4, scissors: 4 }),
    {
        Inventory { star: 3, coin: 10, rock: 4, paper: 4, scissors: 4 }
    }
}

impl Default for Trade {
    /// The empty trade.
    fn default() -> (trade: Trade)
        ensures
            trade@ == Assets::zero(),
    {
        Trade { star: 0, coin: 0, rock: 0, paper: 0, scissors: 0 }
    }
}

impl Default for Stake {
    /// One star and no coin.
    fn default() -> (stake: Stake)
        ensures
            stake == (Stake { star: 1, coin: 0 }),
    {
        Stake { star: 1, coin: 0 }
    }
}

impl Trade {
    /// The trade capped to what `inventory` holds, leaving it one star.
    pub open spec fn normalized(self, inventory: Inventory) -> Trade
        recommends
            inventory.star > 0,
    {
        Trade {
            star: if self.star <= inventory.star - 1 {
                self.star
            } else {
                (inventory.star - 1) as usize
            },
            coin: if self.coin <= inventory.coin { self.coin } else { inventory.coin },
            rock: if self.rock <= inventory.rock { self.rock } else { inventory.rock },
            paper: if self.paper <= inventory.paper { self.paper } else { inventory.paper },
            scissors: if self.scissors <= inventory.scissors {
                self.scissors
            } else {
                inventory.scissors
            },
        }
    }

    /// Caps every amount to what the owner holds and leaves the owner at
    /// least one star. The owner must hold a star.
    pub fn normalize(self, inventory: &Inventory) -> (trade: Trade)
        requires
            inventory.star > 0,
        ensures
            trade == self.normalized(*inventory),
            trade@.le(self@),
            trade@.le(inventory@),
            trade.star < inventory.star,
    {
        let spare: usize = inventory.star - 1;
        Trade {
            star: if self.star <= spare { self.star } else { spare },
            coin: if self.coin <= inventory.coin { self.coin } else { inventory.coin },
            rock: if self.rock <= inventory.rock { self.rock } else { inventory.rock },
            paper: if self.paper <= inventory.paper { self.paper } else { inventory.paper },
            scissors: if self.scissors <= inventory.scissors {
                self.scissors
            } else {
                inventory.scissors
            },
        }
    }
}

impl Stake {
    /// The stake with at least one star.
    pub open spec fn normalized(self) -> Stake {
        Stake { star: if self.star >= 1 { self.star } else { 1 }, coin: self.coin }
    }

    /// The sum of two stakes whose amounts together fit a machine word.
    pub open spec fn sum(self, rhs: Stake) -> Stake
        recommends
            self@.plus(rhs@).fits(),
    {
        Stake { star: (self.star + rhs.star) as usize, coin: (self.coin + rhs.coin) as usize }
    }

    /// Raises the stake to one star if it names none.
    pub fn normalize(self) -> (stake: Stake)
        ensures
            stake == self.normalized(),
            stake.star >= 1,
            stake.coin == self.coin,
    {
        Stake { star: if self.star >= 1 { self.star } else { 1 }, coin: self.coin }
    }
}

impl core::ops::Add<Stake> for Stake {
    type Output = Stake;

    /// Adds star to star and coin to coin.
    fn add(self, rhs: Stake) -> (sum: Stake) {
        Stake { star: self.star + rhs.star, coin: self.coin + rhs.coin }
    }
}

impl vstd::std_specs::ops::AddSpecImpl<Stake> for Stake {
    open spec fn obeys_add_spec() -> bool {
        true
    }

    open spec fn add_req(self, rhs: Stake) -> bool {
        self.star + rhs.star <= usize::MAX && self.coin + rhs.coin <= usize::MAX
    }

    open spec fn add_spec(self, rhs: Stake) -> Stake {
        self.sum(rhs)
    }
}

impl Inventory {
    /// The owner is still in the game.
    pub open spec fn spec_is_alive(&self) -> bool {
        self.star > 0
    }

    /// The owner has at least three stars and no card left.
    pub open spec fn spec_is_safe(&self) -> bool {
        self.star >= 3 && self@.cards() == 0
    }

    /// The owner holds a card to draw.
    pub open spec fn spec_can_duel(&self) -> bool {
        self@.cards() > 0
    }

    /// The first resource, in the order star, coin, rock, paper, scissors,
    /// of which `trade` asks more than is held.
    pub open spec fn trade_shortage(&self, trade: Trade) -> Option<TradeError> {
        if self.star < trade.star {
            Some(TradeError::Star(self.star, trade.star))
        } else if self.coin < trade.coin {
            Some(TradeError::Coin(self.coin, trade.coin))
        } else if self.rock < trade.rock {
            Some(TradeError::Rock(self.rock, trade.rock))
        } else if self.paper < trade.paper {
            Some(TradeError::Paper(self.paper, trade.paper))
        } else if self.scissors < trade.scissors {
            Some(TradeError::Scissors(self.scissors, trade.scissors))
        } else {
            None
        }
    }

    /// The first resource, in the order star, coin, of which `stake` asks
    /// more than is held.
    pub open spec fn stake_shortage(&self, stake: Stake) -> Option<StakeError> {
        if self.star < stake.star {
            Some(StakeError::Star(self.star, stake.star))
        } else if self.coin < stake.coin {
            Some(StakeError::Coin(self.coin, stake.coin))
        } else {
            None
        }
    }

    /// The inventory after `trade` has been taken out of it.
    pub open spec fn less_trade(&self, trade: Trade) -> Inventory
        recommends
            trade@.le(self@),
    {
        Inventory {
            star: (self.star - trade.star) as usize,
            coin: (self.coin - trade.coin) as usize,
            rock: (self.rock - trade.rock) as usize,
            paper: (self.paper - trade.paper) as usize,
            scissors: (self.scissors - trade.scissors) as usize,
        }
    }

    /// The inventory after `trade` has been put into it.
    pub open spec fn with_trade(&self, trade: Trade) -> Inventory
        recommends
            self@.plus(trade@).fits(),
    {
        Inventory {
            star: (self.star + trade.star) as usize,
            coin: (self.coin + trade.coin) as usize,
            rock: (self.rock + trade.rock) as usize,
            paper: (self.paper + trade.paper) as usize,
            scissors: (self.scissors + trade.scissors) as usize,
        }
    }

    /// The inventory after `stake` has been taken out of it.
    pub open spec fn less_stake(&self, stake: Stake) -> Inventory
        recommends
            stake@.le(self@),
    {
        Inventory {
            star: (self.star - stake.star) as usize,
            coin: (self.coin - stake.coin) as usize,
            ..*self
        }
    }

    /// The inventory after `stake` has been put into it.
    pub open spec fn with_stake(&self, stake: Stake) -> Inventory
        recommends
            self@.plus(stake@).fits(),
    {
        Inventory {
            star: (self.star + stake.star) as usize,
            coin: (self.coin + stake.coin) as usize,
            ..*self
        }
    }

    /// The inventory after one card of the kind of `card` has been taken out
    /// of it.
    pub open spec fn less_card(&self, card: Card) -> Inventory
        recommends
            self.count_of(card) > 0,
    {
        match card {
            Card::Rock => Inventory { rock: (self.rock - 1) as usize, ..*self },
            Card::Paper => Inventory { paper: (self.paper - 1) as usize, ..*self },
            Card::Scissors => Inventory { scissors: (self.scissors - 1) as usize, ..*self },
        }
    }

    /// How many cards of the kind of `card` are held.
    pub open spec fn count_of(&self, card: Card) -> int {
        match card {
            Card::Rock => self.rock as int,
            Card::Paper => self.paper as int,
            Card::Scissors => self.scissors as int,
        }
    }

    /// The number of cards held. The count must fit a machine word.
    pub fn num_cards(&self) -> (count: usize)
        requires
            self@.cards() <= usize::MAX,
        ensures
            count == self@.cards(),
    {
        self.rock + self.paper + self.scissors
    }

    /// Whether the owner has a star left.
    #[verifier::when_used_as_spec(spec_is_alive)]
    pub fn is_alive(&self) -> (alive: bool)
        ensures
            alive == (self.star > 0),
    {
        self.star > 0
    }

    /// Whether the owner has retired: three stars or more and no card.
    #[verifier::when_used_as_spec(spec_is_safe)]
    pub fn is_safe(&self) -> (safe: bool)
        ensures
            safe == (self.star >= 3 && self@.cards() == 0),
    {
        self.star >= 3 && self.rock == 0 && self.paper == 0 && self.scissors == 0
    }

    /// Whether the owner holds a card.
    #[verifier::when_used_as_spec(spec_can_duel)]
    pub fn can_duel(&self) -> (able: bool)
        ensures
            able == (self@.cards() > 0),
    {
        self.rock > 0 || self.paper > 0 || self.scissors > 0
    }

    /// Takes `trade` out of the inventory. Fails, naming the first resource
    /// that falls short, unless every amount asked for is held.
    pub fn split_trade(&self, trade: &Trade) -> (result: Result<Inventory, TradeError>)
        ensures
            result is Ok <==> trade@.le(self@),
            result is Ok <==> self.trade_shortage(*trade) is None,
            result matches Ok(rest) ==> rest == self.less_trade(*trade) && rest@ == self@.minus(
                trade@,
            ),
            result matches Err(error) ==> self.trade_shortage(*trade) == Some(error),
    {
        if self.star < trade.star {
            Err(TradeError::Star(self.star, trade.star))
        } else if self.coin < trade.coin {
            Err(TradeError::Coin(self.coin, trade.coin))
        } else if self.rock < trade.rock {
            Err(TradeError::Rock(self.rock, trade.rock))
        } else if self.paper < trade.paper {
            Err(TradeError::Paper(self.paper, trade.paper))
        } else if self.scissors < trade.scissors {
            Err(TradeError::Scissors(self.scissors, trade.scissors))
        } else {
            Ok(
                Inventory {
                    star: self.star - trade.star,
                    coin: self.coin - trade.coin,
                    rock: self.rock - trade.rock,
                    paper: self.paper - trade.paper,
                    scissors: self.scissors - trade.scissors,
                },
            )
        }
    }

    /// Puts a received trade into the inventory. The sums must fit a
    /// machine word.
    pub fn apply_trade(&mut self, trade: &Trade)
        requires
            old(self).star + trade.star <= usize::MAX,
            old(self).coin + trade.coin <= usize::MAX,
            old(self).rock + trade.rock <= usize::MAX,
            old(self).paper + trade.paper <= usize::MAX,
            old(self).scissors + trade.scissors <= usize::MAX,
        ensures
            *final(self) == old(self).with_trade(*trade),
            final(self)@ == old(self)@.plus(trade@),
    {
        self.star += trade.star;
        self.coin += trade.coin;
        self.rock += trade.rock;
        self.paper += trade.paper;
        self.scissors += trade.scissors;
    }

    /// Takes `stake` out of the inventory. Fails, naming the first resource
    /// that falls short, unless the stars and coins asked for are held.
    pub fn split_stake(&self, stake: &Stake) -> (result: Result<Inventory, StakeError>)
        ensures
            result is Ok <==> stake@.le(self@),
            result is Ok <==> self.stake_shortage(*stake) is None,
            result matches Ok(rest) ==> rest == self.less_stake(*stake) && rest@ == self@.minus(
                stake@,
            ),
            result matches Err(error) ==> self.stake_shortage(*stake) == Some(error),
    {
        if self.star < stake.star {
            Err(StakeError::Star(self.star, stake.star))
        } else if self.coin < stake.coin {
            Err(StakeError::Coin(self.coin, stake.coin))
        } else {
            Ok(
                Inventory {
                    star: self.star - stake.star,
                    coin: self.coin - stake.coin,
                    rock: self.rock,
                    paper: self.paper,
                    scissors: self.scissors,
                },
            )
        }
    }

    /// Puts a stake into the inventory. The sums must fit a machine word.
    pub fn apply_stake(&mut self, stake: &Stake)
        requires
            old(self).star + stake.star <= usize::MAX,
            old(self).coin + stake.coin <= usize::MAX,
        ensures
            *final(self) == old(self).with_stake(*stake),
            final(self)@ == old(self)@.plus(stake@),
    {
        self.star += stake.star;
        self.coin += stake.coin;
    }

    /// Takes one card of the kind of `card` out of the inventory. Fails,
    /// naming the kind, if none is held.
    pub fn split_duel(&self, card: Card) -> (result: Result<Inventory, DuelError>)
        ensures
            result is Ok <==> self.count_of(card) > 0,
            result matches Ok(rest) ==> rest == self.less_card(card) && rest@ == self@.minus(
                Assets::one(card),
            ),
            result matches Err(error) ==> error == DuelError::of(card),
    {
        match card {
            Card::Rock => {
                if self.rock == 0 {
                    Err(DuelError::Rock)
                } else {
                    Ok(Inventory { rock: self.rock - 1, ..*self })
                }
            },
            Card::Paper => {
                if self.paper == 0 {
                    Err(DuelError::Paper)
                } else {
                    Ok(Inventory { paper: self.paper - 1, ..*self })
                }
            },
            Card::Scissors => {
                if self.scissors == 0 {
                    Err(DuelError::Scissors)
                } else {
                    Ok(Inventory { scissors: self.scissors - 1, ..*self })
                }
            },
        }
    }
}

impl DuelError {
    /// The error for a card of which none is held.
    pub open spec fn of(card: Card) -> DuelError {
        match card {
            Card::Rock => DuelError::Rock,
            Card::Paper => DuelError::Paper,
            Card::Scissors => DuelError::Scissors,
        }
    }
}

/// Normalizing a trade a second time against the same inventory changes
/// nothing.
pub proof fn lemma_normalize_idempotent(trade: Trade, inventory: Inventory)
    requires
        inventory.star > 0,
    ensures
        trade.normalized(inventory).normalized(inventory) == trade.normalized(inventory),
{
}

/// A trade within the owner's means that leaves it a star is its own
/// normal form.
pub proof fn lemma_normalize_fixes_affordable(trade: Trade, inventory: Inventory)
    requires
        inventory.star > 0,
        trade@.le(inventory@),
        trade.star < inventory.star,
    ensures
        trade.normalized(inventory) == trade,
{
}

/// A normalized trade can always be taken out of the inventory it was
/// normalized against, and the owner keeps at least one star.
pub proof fn lemma_normalized_trade_keeps_star(trade: Trade, inventory: Inventory)
    requires
        inventory.star >= 1,
    ensures
        trade.normalized(inventory)@.le(inventory@),
        inventory.trade_shortage(trade.normalized(inventory)) is None,
        inventory@.minus(trade.normalized(inventory)@).star >= 1,
{
}

/// Adding stakes is commutative.
pub proof fn lemma_stake_sum_commutative(a: Stake, b: Stake)
    ensures
        a.sum(b) == b.sum(a),
        a@.plus(b@) == b@.plus(a@),
{
}

/// Adding stakes is associative, as long as the total fits a machine word.
pub proof fn lemma_stake_sum_associative(a: Stake, b: Stake, c: Stake)
    requires
        a.star + b.star + c.star <= usize::MAX,
        a.coin + b.coin + c.coin <= usize::MAX,
    ensures
        a.sum(b).sum(c) == a.sum(b.sum(c)),
        a.sum(b).sum(c)@ == a@.plus(b@).plus(c@),
        a@.plus(b@).plus(c@) == a@.plus(b@.plus(c@)),
{
}

/// The text "cannot take out `want` `noun` since you only have `have`",
/// followed by `unit`.
pub open spec fn shortage_text(noun: Seq<char>, have: usize, want: usize, unit: Seq<char>) -> Seq<
    char,
> {
    "cannot take out "@ + decimal(want as nat) + " "@ + noun + " since you only have "@ + decimal(
        have as nat,
    ) + unit
}

fn shortage_message(noun: &str, have: usize, want: usize, unit: &str) -> (text: String)
    ensures
        text@ == shortage_text(noun@, have, want, unit@),
{
    let mut text = String::from_str("cannot take out ");
    let wanted = decimal_text(want);
    text.append(wanted.as_str());
    text.append(" ");
    text.append(noun);
    text.append(" since you only have ");
    let held = decimal_text(have);
    text.append(held.as_str());
    text.append(unit);
    text
}

impl TradeError {
    /// The message that tells the owner what fell short.
    pub open spec fn message(self) -> Seq<char> {
        match self {
            TradeError::Star(have, want) => shortage_text("star(s)"@, have, want, ""@),
            TradeError::Coin(have, want) => shortage_text("coin(s)"@, have, want, ""@),
            TradeError::Rock(have, want) => shortage_text("rock card(s)"@, have, want, ""@),
            TradeError::Paper(have, want) => shortage_text("paper card(s)"@, have, want, ""@),
            TradeError::Scissors(have, want) => shortage_text(
                "scissors card(s)"@,
                have,
                want,
                ""@,
            ),
        }
    }

    /// The message as text.
    pub fn to_string(&self) -> (text: String)
        ensures
            text@ == self.message(),
    {
        match *self {
            TradeError::Star(have, want) => shortage_message("star(s)", have, want, ""),
            TradeError::Coin(have, want) => shortage_message("coin(s)", have, want, ""),
            TradeError::Rock(have, want) => shortage_message("rock card(s)", have, want, ""),
            TradeError::Paper(have, want) => shortage_message("paper card(s)", have, want, ""),
            TradeError::Scissors(have, want) => shortage_message(
                "scissors card(s)",
                have,
                want,
                "",
            ),
        }
    }
}

impl StakeError {
    /// The message that tells the owner what fell short.
    pub open spec fn message(self) -> Seq<char> {
        match self {
            StakeError::Star(have, want) => shortage_text("star(s)"@, have, want, " star(s)"@),
            StakeError::Coin(have, want) => shortage_text("coin(s)"@, have, want, " coin(s)"@),
        }
    }

    /// The message as text.
    pub fn to_string(&self) -> (text: String)
        ensures
            text@ == self.message(),
    {
        match *self {
            StakeError::Star(have, want) => shortage_message("star(s)", have, want, " star(s)"),
            StakeError::Coin(have, want) => shortage_message("coin(s)", have, want, " coin(s)"),
        }
    }
}

impl DuelError {
    /// The message that tells the owner which card it lacks.
    pub open spec fn message(self) -> Seq<char> {
        match self {
            DuelError::Rock => "cannot draw rock since you do not have such card"@,
            DuelError::Paper => "cannot draw paper since you do not have such card"@,
            DuelError::Scissors => "cannot draw scissors since you do not have such card"@,
        }
    }

    /// The message as text.
    pub fn to_string(&self) -> (text: String)
        ensures
            text@ == self.message(),
    {
        match self {
            DuelError::Rock => String::from_str("cannot draw rock since you do not have such card"),
            DuelError::Paper => String::from_str(
                "cannot draw paper since you do not have such card",
            ),
            DuelError::Scissors => String::from_str(
                "cannot draw scissors since you do not have such card",
            ),
        }
    }
}

} // verus!
