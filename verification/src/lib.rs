//! A card game of rock, paper and scissors played for stars and coins.
//!
//! Every player holds an [`inventory::Inventory`] and is spoken for by an
//! [`actor::Actor`]. From tick to tick the [`arena::Arena`] seats free
//! players two by two at tables. At a table the two negotiate
//! ([`duel::Negotiation`]): they chat, offer a trade and accept it or not,
//! chat again, place a bet and draw a card each. The winner takes the
//! stakes. A player without stars is out of the game; one with three stars
//! and no card has retired.
//!
//! - [`card`], [`inventory`], [`player`], [`chat`]: the data of the game.
//! - [`config`]: the numbers that shape a game.
//! - [`duel`]: the negotiation at one table.
//! - [`actor`]: the policy of a player, and a negotiation run to its end.
//! - [`arena`]: the players and tables of a game, and the tick.
//! - [`llm`]: prompts and decisions of an actor backed by a text-completion
//!   service.
//! - [`text`], [`chance`]: text helpers, and random choice.

pub mod actor;
pub mod arena;
pub mod card;
pub mod chance;
pub mod chat;
pub mod config;
pub mod duel;
pub mod inventory;
pub mod llm;
pub mod player;
pub mod text;
