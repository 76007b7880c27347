//! What the two screens of the game show, as plain values.
//!
//! The host draws: it turns these values into whatever its toolkit wants and
//! sends the clicks back to [`App`] as intents. What is on a screen, and what
//! is highlighted, is decided here.

use crate::app::App;
use crate::card::{Card, CardState};
use crate::config::{Config, GameTheme};
use crate::round::GameStates;
use vstd::prelude::*;

verus! {

/// A theme on offer, and whether it is the one in use.
#[derive(Clone, Copy, Debug, PartialEq, Eq, Structural)]
pub struct ThemeChoice {
    pub theme: GameTheme,
    pub selected: bool,
}

/// A number of players on offer, and whether it is the one in use.
#[derive(Clone, Copy, Debug, PartialEq, Eq, Structural)]
pub struct PlayersChoice {
    pub players: u8,
    pub selected: bool,
}

/// A board size on offer, and whether it is the one in use.
#[derive(Clone, Copy, Debug, PartialEq, Eq, Structural)]
pub struct SizeChoice {
    pub size: usize,
    pub selected: bool,
}

/// The three rows of choices of the setup screen, each in the order in which
/// it is shown.
#[derive(Clone, Debug, PartialEq, Eq)]
pub struct ConfigPanel {
    pub themes: Vec<ThemeChoice>,
    pub players: Vec<PlayersChoice>,
    pub sizes: Vec<SizeChoice>,
}

/// The setup screen: whether it is on show, and its choices.
#[derive(Clone, Debug, PartialEq, Eq)]
pub struct InitialView {
    pub visible: bool,
    pub panel: ConfigPanel,
}

/// One cell of the board: a card, and the marks it is drawn with.
#[derive(Clone, Copy, Debug, PartialEq, Eq, Structural)]
pub struct Cell {
    /// The card's id, to be sent back when the cell is clicked.
    pub card: usize,
    /// The pair value, which the face of the card shows.
    pub value: usize,
    /// The card is turned up for now: it is selected, or was just missed.
    pub selected: bool,
    /// The card was just missed.
    pub wrong: bool,
    /// The card was just found.
    pub fine: bool,
    /// The card was found and stays turned up.
    pub shown: bool,
}

/// The game screen: whether it is on show, which of the two grids it is laid
/// out on, and its cells in the order of the deck.
#[derive(Clone, Debug, PartialEq, Eq)]
pub struct Board {
    pub visible: bool,
    /// The board has the sixteen cards of the four-by-four grid.
    pub four: bool,
    /// The board has the thirty-six cards of the six-by-six grid.
    pub six: bool,
    pub cells: Vec<Cell>,
}

/// The themes on offer: numbers, then icons.
pub open spec fn theme_choices(config: Config) -> Seq<ThemeChoice> {
    seq![
        ThemeChoice { theme: GameTheme::Numbers, selected: config.theme == GameTheme::Numbers },
        ThemeChoice { theme: GameTheme::Icons, selected: config.theme == GameTheme::Icons },
    ]
}

/// The numbers of players on offer: one to four.
pub open spec fn players_choices(config: Config) -> Seq<PlayersChoice> {
    Seq::new(4, |i: int| PlayersChoice { players: (i + 1) as u8, selected: config.players == i + 1 })
}

/// The board sizes on offer: sixteen cards, then thirty-six.
pub open spec fn size_choices(config: Config) -> Seq<SizeChoice> {
    seq![
        SizeChoice { size: 16, selected: config.size == 16 },
        SizeChoice { size: 36, selected: config.size == 36 },
    ]
}

/// The cell that `card` is drawn in.
pub open spec fn cell_of(card: Card) -> Cell {
    Cell {
        card: card.id,
        value: card.value,
        selected: card.state == CardState::Selected || card.state == CardState::Wrong,
        wrong: card.state == CardState::Wrong,
        fine: card.state == CardState::Fine,
        shown: card.state == CardState::Shown,
    }
}

/// The cells of a board, card by card.
pub open spec fn cells_of(cards: Seq<Card>) -> Seq<Cell> {
    Seq::new(cards.len(), |i: int| cell_of(cards[i]))
}

impl Cell {
    /// The cell that `card` is drawn in.
    pub fn of(card: &Card) -> (cell: Cell)
        ensures
            cell == cell_of(*card),
    {
        Cell {
            card: card.id,
            value: card.value,
            selected: card.state == CardState::Selected || card.state == CardState::Wrong,
            wrong: card.state == CardState::Wrong,
            fine: card.state == CardState::Fine,
            shown: card.state == CardState::Shown,
        }
    }
}

/// The setup screen.
#[derive(Clone, Copy, Debug, Default, PartialEq, Eq)]
pub struct InitialScreen;

impl InitialScreen {
    /// The setup screen for `app`: on show while the round is being set up,
    /// with the choices that [`InitialScreen::render_config`] lists.
    pub fn render(&self, app: &App) -> (view: InitialView)
        ensures
            view.visible == (app@.phase == GameStates::Initial),
            view.panel.themes@ == theme_choices(app@.config),
            view.panel.players@ == players_choices(app@.config),
            view.panel.sizes@ == size_choices(app@.config),
    {
        InitialView {
            visible: app.state() == GameStates::Initial,
            panel: self.render_config(app),
        }
    }

    /// The choices of the setup screen for `app`: the two themes, one to
    /// four players, and the two board sizes, each marked as selected where
    /// it is what the configuration holds.
    pub fn render_config(&self, app: &App) -> (panel: ConfigPanel)
        ensures
            panel.themes@ == theme_choices(app@.config),
            panel.players@ == players_choices(app@.config),
            panel.sizes@ == size_choices(app@.config),
    {
        let config = app.config();
        let mut themes: Vec<ThemeChoice> = Vec::new();
        themes.push(
            ThemeChoice { theme: GameTheme::Numbers, selected: config.theme == GameTheme::Numbers },
        );
        themes.push(
            ThemeChoice { theme: GameTheme::Icons, selected: config.theme == GameTheme::Icons },
        );
        let mut players: Vec<PlayersChoice> = Vec::new();
        let mut count: u8 = 1;
        while count <= 4
            invariant
                1 <= count <= 5,
                players@.len() == count - 1,
                forall|i: int|
                    0 <= i < players@.len() ==> players@[i] == players_choices(config)[i],
            decreases 5 - count,
        {
            players.push(PlayersChoice { players: count, selected: config.players == count });
            count = count + 1;
        }
        let mut sizes: Vec<SizeChoice> = Vec::new();
        sizes.push(SizeChoice { size: 16, selected: config.size == 16 });
        sizes.push(SizeChoice { size: 36, selected: config.size == 36 });
        assert(themes@ =~= theme_choices(config));
        assert(players@ =~= players_choices(config));
        assert(sizes@ =~= size_choices(config));
        ConfigPanel { themes, players, sizes }
    }
}

/// The game screen for `app`: on show while the round is being played, laid
/// out on the grid that fits the size of the board, with one cell for each
/// card in the order of the deck.
pub fn render_cards(app: &App) -> (board: Board)
    ensures
        board.visible == (app@.phase == GameStates::Playing),
        board.four == (app@.config.size == 16),
        board.six == (app@.config.size == 36),
        board.cells@ == cells_of(app@.cards),
{
    let cards = app.cards();
    let mut cells: Vec<Cell> = Vec::new();
    let mut i: usize = 0;
    while i < cards.len()
        invariant
            i <= cards.len(),
            cells@.len() == i,
            forall|j: int| 0 <= j < i ==> cells@[j] == cell_of(cards@[j]),
        decreases cards.len() - i,
    {
        cells.push(Cell::of(&cards[i]));
        i = i + 1;
    }
    assert(cells@ =~= cells_of(cards@));
    let config = app.config();
    Board {
        visible: app.state() == GameStates::Playing,
        four: config.size == 16,
        six: config.size == 36,
        cells,
    }
}

} // verus!
