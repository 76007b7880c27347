//! The configuration of a game, and what makes one unusable.

use vstd::prelude::*;

verus! {

/// What the faces of the cards show. It changes how the board looks, not how
/// the game is played.
#[derive(Clone, Copy, Debug, PartialEq, Eq, Structural)]
pub enum GameTheme {
    Numbers,
    Icons,
}

/// The settings a round is played with: the theme, the number of players and
/// the number of cards on the board.
#[derive(Clone, Copy, Debug, PartialEq, Eq, Structural)]
pub struct Config {
    pub theme: GameTheme,
    pub players: u8,
    pub size: usize,
}

/// Why a configuration cannot be played.
#[derive(Clone, Copy, Debug, PartialEq, Eq, Structural)]
pub enum ConfigurationError {
    /// The board has no cards.
    EmptyBoard,
    /// The board has an odd number of cards, so one of them has no pair.
    OddBoard,
    /// Nobody plays.
    NoPlayers,
}

/// What is wrong with a board of `size` cards, if anything.
pub open spec fn board_fault(size: usize) -> Option<ConfigurationError> {
    if size == 0 {
        Some(ConfigurationError::EmptyBoard)
    } else if size % 2 != 0 {
        Some(ConfigurationError::OddBoard)
    } else {
        None
    }
}

/// What is wrong with a game of `players` players, if anything.
pub open spec fn roster_fault(players: u8) -> Option<ConfigurationError> {
    if players == 0 {
        Some(ConfigurationError::NoPlayers)
    } else {
        None
    }
}

/// Checks the size of a board: it must hold a positive, even number of cards.
pub fn check_board(size: usize) -> (r: Result<(), ConfigurationError>)
    ensures
        r == (match board_fault(size) {
            Some(e) => Err::<(), ConfigurationError>(e),
            None => Ok(()),
        }),
{
    if size == 0 {
        Err(ConfigurationError::EmptyBoard)
    } else if size % 2 != 0 {
        Err(ConfigurationError::OddBoard)
    } else {
        Ok(())
    }
}

/// Checks the number of players: there must be at least one.
pub fn check_roster(players: u8) -> (r: Result<(), ConfigurationError>)
    ensures
        r == (match roster_fault(players) {
            Some(e) => Err::<(), ConfigurationError>(e),
            None => Ok(()),
        }),
{
    if players == 0 {
        Err(ConfigurationError::NoPlayers)
    } else {
        Ok(())
    }
}

impl Config {
    /// What is wrong with this configuration, if anything. The board is
    /// looked at first, then the number of players.
    pub open spec fn fault(self) -> Option<ConfigurationError> {
        match board_fault(self.size) {
            Some(e) => Some(e),
            None => roster_fault(self.players),
        }
    }

    /// This configuration can be played: an even, positive number of cards
    /// and at least one player.
    pub open spec fn valid(self) -> bool {
        self.fault() is None
    }

    /// Accepts this configuration or says what is wrong with it.
    pub fn check(&self) -> (r: Result<(), ConfigurationError>)
        ensures
            r == (match self.fault() {
                Some(e) => Err::<(), ConfigurationError>(e),
                None => Ok(()),
            }),
    {
        match check_board(self.size) {
            Err(e) => Err(e),
            Ok(()) => check_roster(self.players),
        }
    }
}

impl Default for Config {
    /// One player, sixteen cards, numbers on the faces.
    fn default() -> (config: Config)
        ensures
            config == (Config { theme: GameTheme::Numbers, players: 1, size: 16 }),
            config.valid(),
    {
        Config { theme: GameTheme::Numbers, players: 1, size: 16 }
    }
}

} // verus!
