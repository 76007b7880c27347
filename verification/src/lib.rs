//! A memory-matching card game engine.
//!
//! Players turn over two cards at a time. Two cards with the same pair value
//! are a match: they stay turned up and the player scores. Two others are
//! turned face down again and the turn passes on. The round is over when no
//! card is left face down.
//!
//! The engine, [`App`], owns the whole round: the configuration, the deck,
//! the players, whose turn it is and the phase of the game. A host feeds it
//! intents (choose a theme, a board size, a number of players; start; select
//! a card; restart) and reads the state back after each one. When a pair is
//! resolved the engine hands the host a [`Resolution`]; the host lets the
//! pair show for [`RESOLUTION_DELAY_MS`] and hands it back to be settled.
//!
//! - [`card`], [`player`], [`config`]: the values a round is made of.
//! - [`round`]: the round as a mathematical object, [`Round`], with one
//!   transition for each intent. Every method of [`App`] is proved to compute
//!   the transition of the same purpose.
//! - [`sound`]: every transition keeps the round sound.
//! - [`laws`]: the rules of the game as they show across several intents.
//! - [`app`]: the engine.
//! - [`screen`]: what the two screens show, as plain values for the host to
//!   draw.
//! - [`shuffle`]: the random order in which the table is laid.

pub mod app;
pub mod card;
pub mod config;
pub mod laws;
pub mod player;
pub mod round;
pub mod screen;
pub mod shuffle;
pub mod sound;

pub use app::App;
pub use card::{Card, CardState};
pub use config::{Config, ConfigurationError, GameTheme};
pub use player::{Player, PlayerState};
pub use round::{GameStates, Resolution, Round, RESOLUTION_DELAY_MS};
pub use screen::{
    render_cards, Board, Cell, ConfigPanel, InitialScreen, InitialView, PlayersChoice, SizeChoice,
    ThemeChoice,
};
pub use shuffle::{order_for, random_order};
