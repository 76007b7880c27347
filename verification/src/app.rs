//! The engine: the round as a value that the host owns, with one method for
//! each intent.

use crate::card::{all_hidden, deal, fresh_deck, lemma_fresh_deck, none_hidden, Card, CardState};
use crate::config::{
    board_fault, check_board, check_roster, roster_fault, Config, ConfigurationError, GameTheme,
};
use crate::sound::{
    lemma_evaluate_sound, lemma_fresh_sound, lemma_restart_sound, lemma_select_sound, lemma_set_board_size_sound,
    lemma_set_player_count_sound, lemma_set_theme_sound, lemma_start_game_sound,
    lemma_step_sound,
};
use crate::player::{lemma_fresh_roster, seat, Player, PlayerState};
use crate::round::{next_epoch, GameStates, Resolution, Round};
use vstd::prelude::*;

verus! {

/// A round of the game.
///
/// The fields are private: a round is made by [`App::new`] and changes only
/// through the methods below, each of which takes a sound round to a sound
/// round.
#[derive(Clone, Debug, PartialEq, Eq)]
pub struct App {
    state: GameStates,
    config: Config,
    players: Vec<Player>,
    cards: Vec<Card>,
    player_in_turn: usize,
    epoch: u64,
}

impl View for App {
    type V = Round;

    closed spec fn view(&self) -> Round {
        Round {
            phase: self.state,
            config: self.config,
            cards: self.cards@,
            players: self.players@,
            turn: self.player_in_turn as int,
            epoch: self.epoch as int,
        }
    }
}

impl App {
    /// The round is in a state that the engine can be in between two intents.
    pub open spec fn wf(&self) -> bool {
        self@.wf()
    }

    /// A new round for `config`, being set up: the deck is dealt face down,
    /// the players are seated with nothing to their names, and the first
    /// player has the turn. A configuration that cannot be played is
    /// refused.
    pub fn new(config: Config) -> (made: Result<App, ConfigurationError>)
        ensures
            match made {
                Ok(app) => config.valid() && app@ == Round::new_game(config) && app.wf(),
                Err(e) => config.fault() == Some(e),
            },
    {
        match config.check() {
            Err(e) => Err(e),
            Ok(()) => {
                let app = App {
                    state: GameStates::Initial,
                    config,
                    players: seat(config.players),
                    cards: deal(config.size),
                    player_in_turn: 0,
                    epoch: 0,
                };
                proof {
                    lemma_fresh_sound(config, GameStates::Initial, 0);
                }
                Ok(app)
            },
        }
    }

    /// The phase of the round.
    pub fn state(&self) -> (phase: GameStates)
        ensures
            phase == self@.phase,
    {
        self.state
    }

    /// The configuration the round is played with.
    pub fn config(&self) -> (config: Config)
        ensures
            config == self@.config,
    {
        self.config
    }

    /// The cards on the board, in the order in which they were dealt.
    pub fn cards(&self) -> (cards: &Vec<Card>)
        ensures
            cards@ == self@.cards,
    {
        &self.cards
    }

    /// The players, by seat.
    pub fn players(&self) -> (players: &Vec<Player>)
        ensures
            players@ == self@.players,
    {
        &self.players
    }

    /// The seat of the player whose turn it is.
    pub fn player_in_turn(&self) -> (seat: usize)
        ensures
            seat == self@.turn,
    {
        self.player_in_turn
    }

    /// The number of the deck that is on the board. A resolution carries the
    /// number of the deck it was made for.
    pub fn epoch(&self) -> (epoch: u64)
        ensures
            epoch == self@.epoch,
    {
        self.epoch
    }

    /// The number of the next deck.
    fn following_epoch(&self) -> (epoch: u64)
        ensures
            epoch == next_epoch(self@.epoch),
    {
        if self.epoch == u64::MAX {
            0
        } else {
            self.epoch + 1
        }
    }

    /// Chooses the theme. Outside the setup this changes nothing.
    pub fn set_theme(&mut self, theme: GameTheme)
        requires
            old(self).wf(),
        ensures
            final(self).wf(),
            final(self)@ == old(self)@.set_theme(theme),
    {
        proof {
            lemma_set_theme_sound(self@, theme);
        }
        if self.state == GameStates::Initial {
            self.config.theme = theme;
        }
    }

    /// Chooses the size of the board and deals it anew, face down.
    ///
    /// A size of zero or an odd size is refused, whatever the phase, and
    /// nothing changes. A size that could be played is accepted; outside the
    /// setup it changes nothing either.
    pub fn change_size(&mut self, size: usize) -> (done: Result<(), ConfigurationError>)
        requires
            old(self).wf(),
        ensures
            final(self).wf(),
            final(self)@ == old(self)@.set_board_size(size),
            done == (match board_fault(size) {
                Some(e) => Err::<(), ConfigurationError>(e),
                None => Ok(()),
            }),
            done is Err ==> final(self)@ == old(self)@,
    {
        proof {
            lemma_set_board_size_sound(self@, size);
        }
        match check_board(size) {
            Err(e) => Err(e),
            Ok(()) => {
                if self.state == GameStates::Initial {
                    self.epoch = self.following_epoch();
                    self.config.size = size;
                    self.cards = deal(size);
                }
                Ok(())
            },
        }
    }

    /// Chooses the number of players and seats them anew.
    ///
    /// A count of zero is refused, whatever the phase, and nothing changes.
    /// Any other count is accepted; outside the setup it changes nothing
    /// either.
    pub fn change_players(&mut self, players: u8) -> (done: Result<(), ConfigurationError>)
        requires
            old(self).wf(),
        ensures
            final(self).wf(),
            final(self)@ == old(self)@.set_player_count(players),
            done == (match roster_fault(players) {
                Some(e) => Err::<(), ConfigurationError>(e),
                None => Ok(()),
            }),
            done is Err ==> final(self)@ == old(self)@,
    {
        proof {
            lemma_set_player_count_sound(self@, players);
        }
        match check_roster(players) {
            Err(e) => Err(e),
            Ok(()) => {
                if self.state == GameStates::Initial {
                    self.config.players = players;
                    self.players = seat(players);
                }
                Ok(())
            },
        }
    }

    /// Begins to play: the setup is over, the first player is put into play
    /// and has the turn. Outside the setup this changes nothing.
    pub fn go_play(&mut self)
        requires
            old(self).wf(),
        ensures
            final(self).wf(),
            final(self)@ == old(self)@.start_game(),
    {
        proof {
            lemma_start_game_sound(self@);
        }
        if self.state == GameStates::Initial {
            let first = Player { state: PlayerState::Playing, ..self.players[0] };
            self.players.set(0, first);
            self.player_in_turn = 0;
            self.state = GameStates::Playing;
        }
    }

    /// Starts over with the same configuration: a new deck, face down, new
    /// players with nothing to their names, the first player's turn, and the
    /// phase `target`, which is `Initial` for a new game or `Playing` to play
    /// again at once. The phase the round was in does not matter.
    /// Resolutions that were handed out before no longer apply.
    ///
    /// `Over` is no phase to start in: such a restart changes nothing.
    pub fn restart(&mut self, target: GameStates)
        requires
            old(self).wf(),
        ensures
            final(self).wf(),
            final(self)@ == old(self)@.restart(target),
            target != GameStates::Over ==> {
                &&& final(self)@.phase == target
                &&& final(self)@.config == old(self)@.config
                &&& final(self)@.cards == fresh_deck(old(self)@.config.size as int)
                &&& all_hidden(final(self)@.cards)
                &&& final(self)@.players.len() == old(self)@.config.players
                &&& forall|i: int|
                    0 <= i < final(self)@.players.len() ==> (#[trigger] final(self)@.players[i]).score
                        == 0 && final(self)@.players[i].moves == 0
                &&& final(self)@.turn == 0
            },
    {
        proof {
            lemma_restart_sound(self@, target);
            lemma_fresh_deck(self@.config.size as int);
            lemma_fresh_roster(self@.config.players as int);
        }
        if target != GameStates::Over {
            self.epoch = self.following_epoch();
            self.cards = deal(self.config.size);
            self.players = seat(self.config.players);
            self.player_in_turn = 0;
            self.state = target;
        }
    }

    /// The card other than `card` that is selected, where there is one: the
    /// first such card on the board.
    fn waiting_for(&self, card: usize) -> (found: Option<usize>)
        ensures
            match found {
                Some(other) => self@.is_partner(card as int, other as int) && forall|k: int|
                    0 <= k < other ==> !self@.is_partner(card as int, k),
                None => forall|other: int| !self@.is_partner(card as int, other),
            },
    {
        let mut i: usize = 0;
        while i < self.cards.len()
            invariant
                i <= self.cards.len(),
                forall|other: int| 0 <= other < i ==> !self@.is_partner(card as int, other),
            decreases self.cards.len() - i,
        {
            if i != card && self.cards[i].state == CardState::Selected {
                return Some(i);
            }
            i = i + 1;
        }
        None
    }

    /// Whether a card lies face down.
    fn any_hidden(&self) -> (found: bool)
        ensures
            found == !none_hidden(self@.cards),
    {
        let mut i: usize = 0;
        while i < self.cards.len()
            invariant
                i <= self.cards.len(),
                forall|j: int| 0 <= j < i ==> (#[trigger] self.cards@[j]).state != CardState::Hidden,
            decreases self.cards.len() - i,
        {
            if self.cards[i].state == CardState::Hidden {
                return true;
            }
            i = i + 1;
        }
        false
    }

    /// Turns card `card` to show `state`.
    fn turn_card(&mut self, card: usize, state: CardState)
        requires
            card < old(self)@.cards.len(),
        ensures
            final(self)@ == old(self)@.with_card(card as int, state),
    {
        let turned = Card { state, ..self.cards[card] };
        self.cards.set(card, turned);
    }

    /// Evaluates the board around `card`.
    ///
    /// If `card` is selected and another selected card waits for it, the two
    /// are resolved. Equal pair values: both show `Fine`, the player whose
    /// turn it is gets a point and a move, the celebration is raised, and the
    /// turn stays. Different pair values: both show `Wrong`, the player gets
    /// a move, and the turn passes to the next seat. Either way the
    /// resolution is handed back, to be settled once the host has let the
    /// pair show for [`crate::RESOLUTION_DELAY_MS`].
    ///
    /// Then, if the round is being played and no card is left face down, the
    /// round is over.
    pub fn game_play(&mut self, card: usize) -> (verdict: Option<Resolution>)
        requires
            old(self)@.shaped(),
            old(self)@.at_most_one_waiting(card as int),
        ensures
            final(self).wf(),
            final(self)@ == old(self)@.evaluate(card as int),
            verdict == old(self)@.verdict(card as int),
            none_hidden(final(self)@.cards) ==> final(self)@.phase == GameStates::Over,
    {
        proof {
            lemma_evaluate_sound(self@, card as int);
        }
        let mut verdict: Option<Resolution> = None;
        if card < self.cards.len() && self.cards[card].state == CardState::Selected {
            if let Some(other) = self.waiting_for(card) {
                assert(self@.partner(card as int) == other);
                let matched = self.cards[card].value == self.cards[other].value;
                let seat = self.player_in_turn;
                let mut player = self.players[seat];
                verdict =
                Some(
                    Resolution { first: card, second: other, matched, player: seat, epoch: self.epoch },
                );
                if matched {
                    self.turn_card(card, CardState::Fine);
                    self.turn_card(other, CardState::Fine);
                    player.record_match();
                    self.players.set(seat, player);
                } else {
                    self.turn_card(card, CardState::Wrong);
                    self.turn_card(other, CardState::Wrong);
                    player.record_miss();
                    self.players.set(seat, player);
                    self.player_in_turn = (seat + 1) % self.players.len();
                }
            }
        }
        if self.state == GameStates::Playing && !self.any_hidden() {
            self.state = GameStates::Over;
        }
        verdict
    }

    /// Selects a card.
    ///
    /// While the round is being played, a card that is on the board and lies
    /// face down is selected, and the board is evaluated around it as
    /// [`App::game_play`] says: with a second card selected the pair is
    /// resolved at once, and the round is over when no card is left face
    /// down. Any other selection (another phase, no such card, a card that
    /// does not lie face down) changes nothing.
    pub fn card_selection(&mut self, card: usize) -> (verdict: Option<Resolution>)
        requires
            old(self).wf(),
        ensures
            final(self).wf(),
            final(self)@ == old(self)@.select_card(card as int),
            verdict == old(self)@.select_verdict(card as int),
            !old(self)@.selectable(card as int) ==> final(self)@ == old(self)@ && verdict is None,
            none_hidden(final(self)@.cards) ==> final(self)@.phase == GameStates::Over,
    {
        proof {
            lemma_select_sound(self@, card as int);
        }
        if self.state != GameStates::Playing || card >= self.cards.len() {
            return None;
        }
        if self.cards[card].state != CardState::Hidden {
            return None;
        }
        self.turn_card(card, CardState::Selected);
        assert forall|i: int, j: int|
            self@.is_partner(card as int, i) && self@.is_partner(card as int, j) implies i == j by {
            assert(old(self)@.selected(i) && old(self)@.selected(j));
        }
        self.game_play(card)
    }

    /// A card that shows `Fine` is shown for good. A card that is not on the
    /// board or shows anything else is left alone.
    pub fn set_card_shown(&mut self, card: usize)
        requires
            old(self).wf(),
        ensures
            final(self).wf(),
            final(self)@ == old(self)@.show_card(card as int),
    {
        proof {
            lemma_step_sound(self@, card as int);
        }
        if card < self.cards.len() && self.cards[card].state == CardState::Fine {
            self.turn_card(card, CardState::Shown);
        }
    }

    /// A card that shows `Wrong` is turned face down again. A card that is
    /// not on the board or shows anything else is left alone.
    pub fn set_card_hidden(&mut self, card: usize)
        requires
            old(self).wf(),
        ensures
            final(self).wf(),
            final(self)@ == old(self)@.hide_card(card as int),
    {
        proof {
            lemma_step_sound(self@, card as int);
        }
        if card < self.cards.len() && self.cards[card].state == CardState::Wrong {
            self.turn_card(card, CardState::Hidden);
        }
    }

    /// Ends the celebration of the player in seat `seat`, if there is such a
    /// seat.
    fn calm(&mut self, seat: usize)
        requires
            old(self).wf(),
        ensures
            final(self).wf(),
            final(self)@ == old(self)@.calm(seat as int),
    {
        proof {
            lemma_step_sound(self@, seat as int);
        }
        if seat < self.players.len() {
            let calmed = Player { flash: false, ..self.players[seat] };
            self.players.set(seat, calmed);
        }
    }

    /// Settles a resolution once its pair has shown long enough.
    ///
    /// A matched pair is shown for good and the celebration of the player
    /// who found it ends. A missed pair is turned face down again and can be
    /// selected anew. A resolution made for an earlier deck changes
    /// nothing.
    pub fn settle(&mut self, resolution: Resolution)
        requires
            old(self).wf(),
        ensures
            final(self).wf(),
            final(self)@ == old(self)@.settle(resolution),
            resolution.epoch != old(self)@.epoch ==> final(self)@ == old(self)@,
    {
        if resolution.epoch != self.epoch {
            return;
        }
        if resolution.matched {
            self.set_card_shown(resolution.first);
            self.set_card_shown(resolution.second);
            self.calm(resolution.player);
        } else {
            self.set_card_hidden(resolution.first);
            self.set_card_hidden(resolution.second);
        }
    }
}

} // verus!
