//! The round as a mathematical object: its state, what a sound state looks
//! like, and what each intent makes of it.
//!
//! Nothing here runs. [`crate::App`] is the executable engine, and each of its
//! methods is proved to compute the transition of the same purpose below.

use crate::card::{fresh_deck, is_deck, none_hidden, Card, CardState};
use crate::config::{board_fault, roster_fault, Config, GameTheme};
use crate::player::{fresh_roster, is_roster, Player, PlayerState};
use vstd::prelude::*;

verus! {

/// The phase of a round: being set up, being played, or finished.
#[derive(Clone, Copy, Debug, PartialEq, Eq, Structural)]
pub enum GameStates {
    Initial,
    Playing,
    Over,
}

/// A pair that was turned over, and what is left to do about it.
///
/// The engine hands one out when a second card is selected. The two cards
/// then show `Fine` or `Wrong` for a moment; when that moment has passed, the
/// host hands the resolution back through [`crate::App::settle`], which turns
/// the cards to `Shown` or back to `Hidden`.
#[derive(Clone, Copy, Debug, PartialEq, Eq, Structural)]
pub struct Resolution {
    /// The card that was selected last.
    pub first: usize,
    /// The card that was waiting for it.
    pub second: usize,
    /// Whether the two carry the same pair value.
    pub matched: bool,
    /// The seat of the player who turned them over.
    pub player: usize,
    /// The deck the two cards belong to.
    pub epoch: u64,
}

/// How long a resolved pair shows `Fine` or `Wrong` before it is settled, in
/// milliseconds.
pub const RESOLUTION_DELAY_MS: u32 = 500;

/// The state of a round.
#[verifier::ext_equal]
pub struct Round {
    pub phase: GameStates,
    pub config: Config,
    pub cards: Seq<Card>,
    pub players: Seq<Player>,
    /// The seat of the player whose turn it is.
    pub turn: int,
    /// Counts the decks that were dealt, so that a resolution can tell
    /// whether its cards are still on the board.
    pub epoch: int,
}

/// The number of the deck that is dealt after deck `epoch`. The count starts
/// over after `u64::MAX`.
pub open spec fn next_epoch(epoch: int) -> int {
    if epoch >= u64::MAX {
        0
    } else {
        epoch + 1
    }
}

impl Round {
    /// The round with a new deck and new players, in the given phase.
    pub open spec fn fresh(config: Config, phase: GameStates, epoch: int) -> Round {
        Round {
            phase,
            config,
            cards: fresh_deck(config.size as int),
            players: fresh_roster(config.players as int),
            turn: 0,
            epoch,
        }
    }

    /// A new game: the round for `config`, being set up, with the first deck.
    pub open spec fn new_game(config: Config) -> Round {
        Round::fresh(config, GameStates::Initial, 0)
    }

    // ------------------------------------------------------------------
    // Sound states
    // ------------------------------------------------------------------
    /// Card `i` is on the board and selected.
    pub open spec fn selected(self, i: int) -> bool {
        0 <= i < self.cards.len() && self.cards[i].state == CardState::Selected
    }

    /// The board and the players fit the configuration, it is somebody's
    /// turn, and a round that is being set up is untouched.
    pub open spec fn shaped(self) -> bool {
        &&& self.config.valid()
        &&& is_deck(self.cards, self.config.size as int)
        &&& is_roster(self.players, self.config.players as int)
        &&& 0 <= self.turn < self.players.len()
        &&& 0 <= self.epoch <= u64::MAX
        &&& self.phase == GameStates::Initial ==> self == Round::fresh(
            self.config,
            GameStates::Initial,
            self.epoch,
        )
    }

    /// At most one card other than `card` is selected.
    pub open spec fn at_most_one_waiting(self, card: int) -> bool {
        forall|i: int, j: int|
            self.is_partner(card, i) && self.is_partner(card, j) ==> i == j
    }

    /// The state is one that the engine can be in between two intents: it is
    /// shaped, at most one card is selected, and a board without a hidden card
    /// means that the round is over.
    pub open spec fn wf(self) -> bool {
        &&& self.shaped()
        &&& forall|i: int, j: int| self.selected(i) && self.selected(j) ==> i == j
        &&& none_hidden(self.cards) ==> self.phase == GameStates::Over
    }

    // ------------------------------------------------------------------
    // Setting up
    // ------------------------------------------------------------------
    /// Another theme, while the round is being set up.
    pub open spec fn set_theme(self, theme: GameTheme) -> Round {
        if self.phase == GameStates::Initial {
            Round { config: Config { theme, ..self.config }, ..self }
        } else {
            self
        }
    }

    /// A board of another size, dealt anew, while the round is being set up.
    /// A size that is no board changes nothing.
    pub open spec fn set_board_size(self, size: usize) -> Round {
        if self.phase == GameStates::Initial && board_fault(size) is None {
            Round {
                config: Config { size, ..self.config },
                cards: fresh_deck(size as int),
                epoch: next_epoch(self.epoch),
                ..self
            }
        } else {
            self
        }
    }

    /// Another number of players, seated anew, while the round is being set
    /// up. A count of zero changes nothing.
    pub open spec fn set_player_count(self, players: u8) -> Round {
        if self.phase == GameStates::Initial && roster_fault(players) is None {
            Round {
                config: Config { players, ..self.config },
                players: fresh_roster(players as int),
                ..self
            }
        } else {
            self
        }
    }

    /// From setting up to playing. The first player is put into play and has
    /// the first turn.
    pub open spec fn start_game(self) -> Round {
        if self.phase == GameStates::Initial {
            Round {
                phase: GameStates::Playing,
                players: self.players.update(
                    0,
                    Player { state: PlayerState::Playing, ..self.players[0] },
                ),
                turn: 0,
                ..self
            }
        } else {
            self
        }
    }

    /// A new deck and new players for the same configuration, in phase
    /// `target`, which is `Initial` or `Playing`. A restart into `Over` changes
    /// nothing.
    pub open spec fn restart(self, target: GameStates) -> Round {
        if target == GameStates::Over {
            self
        } else {
            Round::fresh(self.config, target, next_epoch(self.epoch))
        }
    }

    // ------------------------------------------------------------------
    // Playing
    // ------------------------------------------------------------------
    /// Card `card` can be selected: the round is being played, the card is on
    /// the board, and it lies face down.
    pub open spec fn selectable(self, card: int) -> bool {
        &&& self.phase == GameStates::Playing
        &&& 0 <= card < self.cards.len()
        &&& self.cards[card].state == CardState::Hidden
    }

    /// The round with card `card` showing `state`.
    pub open spec fn with_card(self, card: int, state: CardState) -> Round {
        Round { cards: self.cards.update(card, self.cards[card].showing(state)), ..self }
    }

    /// The round with `player` in seat `seat`.
    pub open spec fn with_player(self, seat: int, player: Player) -> Round {
        Round { players: self.players.update(seat, player), ..self }
    }

    /// Card `other` is selected and is not `card`.
    pub open spec fn is_partner(self, card: int, other: int) -> bool {
        self.selected(other) && other != card
    }

    /// The selected card that waits for `card`, where there is one.
    pub open spec fn partner(self, card: int) -> int {
        choose|other: int| self.is_partner(card, other)
    }

    /// Card `card` is selected and another selected card waits for it.
    pub open spec fn pairs_up(self, card: int) -> bool {
        self.selected(card) && exists|other: int| self.is_partner(card, other)
    }

    /// Card `card` and the card that waits for it carry the same pair value.
    pub open spec fn matches(self, card: int) -> bool {
        self.cards[card].value == self.cards[self.partner(card)].value
    }

    /// What is left to do about `card` and the card that waits for it.
    pub open spec fn resolution(self, card: int) -> Resolution {
        Resolution {
            first: card as usize,
            second: self.partner(card) as usize,
            matched: self.matches(card),
            player: self.turn as usize,
            epoch: self.epoch as u64,
        }
    }

    /// Round resolution for `card` and the card that waits for it.
    ///
    /// A match turns both to `Fine`, gives the player whose turn it is a point
    /// and a move and raises the celebration; the turn stays. A miss turns
    /// both to `Wrong`, gives the player a move, and the turn passes on.
    pub open spec fn resolve(self, card: int) -> Round {
        let other = self.partner(card);
        let player = self.players[self.turn];
        if self.matches(card) {
            self.with_card(card, CardState::Fine).with_card(other, CardState::Fine).with_player(
                self.turn,
                player.after_match(),
            )
        } else {
            Round {
                turn: (self.turn + 1) % (self.players.len() as int),
                ..self.with_card(card, CardState::Wrong).with_card(
                    other,
                    CardState::Wrong,
                ).with_player(self.turn, player.after_miss())
            }
        }
    }

    /// A round that is being played is over once no card lies face down.
    pub open spec fn close_if_done(self) -> Round {
        if self.phase == GameStates::Playing && none_hidden(self.cards) {
            Round { phase: GameStates::Over, ..self }
        } else {
            self
        }
    }

    /// Evaluates the board around `card`: if `card` is selected and another
    /// selected card waits for it, the pair is resolved; then the round is
    /// closed if no card is left face down.
    pub open spec fn evaluate(self, card: int) -> Round {
        if self.pairs_up(card) {
            self.resolve(card).close_if_done()
        } else {
            self.close_if_done()
        }
    }

    /// What evaluating the board around `card` hands to the host.
    pub open spec fn verdict(self, card: int) -> Option<Resolution> {
        if self.pairs_up(card) {
            Some(self.resolution(card))
        } else {
            None
        }
    }

    /// A card that can be selected is selected, and the board is evaluated
    /// around it. Any other card changes nothing.
    pub open spec fn select_card(self, card: int) -> Round {
        if self.selectable(card) {
            self.with_card(card, CardState::Selected).evaluate(card)
        } else {
            self
        }
    }

    /// What selecting `card` hands to the host.
    pub open spec fn select_verdict(self, card: int) -> Option<Resolution> {
        if self.selectable(card) {
            self.with_card(card, CardState::Selected).verdict(card)
        } else {
            None
        }
    }

    // ------------------------------------------------------------------
    // Settling
    // ------------------------------------------------------------------
    /// `Fine -> Shown` for card `card`; nothing for a card that is not on the
    /// board or does not show `Fine`.
    pub open spec fn show_card(self, card: int) -> Round {
        if 0 <= card < self.cards.len() && self.cards[card].state == CardState::Fine {
            self.with_card(card, CardState::Shown)
        } else {
            self
        }
    }

    /// `Wrong -> Hidden` for card `card`; nothing for a card that is not on
    /// the board or does not show `Wrong`.
    pub open spec fn hide_card(self, card: int) -> Round {
        if 0 <= card < self.cards.len() && self.cards[card].state == CardState::Wrong {
            self.with_card(card, CardState::Hidden)
        } else {
            self
        }
    }

    /// The celebration of the player in seat `seat` ends; nothing where the
    /// seat is empty.
    pub open spec fn calm(self, seat: int) -> Round {
        if 0 <= seat < self.players.len() {
            self.with_player(seat, Player { flash: false, ..self.players[seat] })
        } else {
            self
        }
    }

    /// The moment of a resolved pair has passed. A matched pair is shown for
    /// good and the celebration ends; a missed pair is hidden again. A
    /// resolution for a deck that is no longer on the board changes nothing.
    pub open spec fn settle(self, r: Resolution) -> Round {
        if r.epoch != self.epoch {
            self
        } else if r.matched {
            self.show_card(r.first as int).show_card(r.second as int).calm(r.player as int)
        } else {
            self.hide_card(r.first as int).hide_card(r.second as int)
        }
    }
}

} // verus!
