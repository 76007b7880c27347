use memory_game::card::deal;
use memory_game::config::{check_board, check_roster};
use memory_game::player::seat;
use memory_game::{
    App, CardState, Config, ConfigurationError, GameStates, GameTheme, PlayerState,
};

fn config(players: u8, size: usize) -> Config {
    Config { theme: GameTheme::Numbers, players, size }
}

#[test]
fn default_configuration_is_one_player_sixteen_numbers() {
    let c = Config::default();
    assert_eq!(c, Config { theme: GameTheme::Numbers, players: 1, size: 16 });
    assert_eq!(c.check(), Ok(()));
}

#[test]
fn a_new_round_is_being_set_up() {
    let app = App::new(Config::default()).unwrap();
    assert_eq!(app.state(), GameStates::Initial);
    assert_eq!(app.player_in_turn(), 0);
    assert_eq!(app.epoch(), 0);
    assert_eq!(app.cards().len(), 16);
    assert!(app.cards().iter().all(|c| c.state == CardState::Hidden));
    assert_eq!(app.players().len(), 1);
    assert_eq!(app.players()[0].score, 0);
    assert_eq!(app.players()[0].moves, 0);
    assert_eq!(app.players()[0].state, PlayerState::Iddle);
    assert!(!app.players()[0].flash);
}

#[test]
fn an_empty_board_is_refused() {
    assert_eq!(App::new(config(1, 0)).unwrap_err(), ConfigurationError::EmptyBoard);
    assert_eq!(check_board(0), Err(ConfigurationError::EmptyBoard));
}

#[test]
fn an_odd_board_is_refused() {
    assert_eq!(App::new(config(1, 1)).unwrap_err(), ConfigurationError::OddBoard);
    assert_eq!(App::new(config(2, 17)).unwrap_err(), ConfigurationError::OddBoard);
    assert_eq!(check_board(usize::MAX), Err(ConfigurationError::OddBoard));
}

#[test]
fn a_game_without_players_is_refused() {
    assert_eq!(App::new(config(0, 16)).unwrap_err(), ConfigurationError::NoPlayers);
    assert_eq!(check_roster(0), Err(ConfigurationError::NoPlayers));
}

#[test]
fn the_board_is_looked_at_before_the_players() {
    assert_eq!(App::new(config(0, 0)).unwrap_err(), ConfigurationError::EmptyBoard);
    assert_eq!(App::new(config(0, 5)).unwrap_err(), ConfigurationError::OddBoard);
    assert_eq!(config(0, 5).check(), Err(ConfigurationError::OddBoard));
}

#[test]
fn the_smallest_board_and_the_largest_roster_are_accepted() {
    let app = App::new(config(255, 2)).unwrap();
    assert_eq!(app.cards().len(), 2);
    assert_eq!(app.players().len(), 255);
    assert_eq!(app.players()[254].id, 254);
    assert_eq!(check_board(2), Ok(()));
    assert_eq!(check_roster(1), Ok(()));
    assert_eq!(check_roster(255), Ok(()));
}

#[test]
fn the_theme_changes_during_setup_only() {
    let mut app = App::new(Config::default()).unwrap();
    app.set_theme(GameTheme::Icons);
    assert_eq!(app.config().theme, GameTheme::Icons);
    assert_eq!(app.cards(), &deal(16));
    app.go_play();
    let before = app.clone();
    app.set_theme(GameTheme::Numbers);
    assert_eq!(app, before);
}

#[test]
fn a_new_size_deals_the_board_anew() {
    let mut app = App::new(Config::default()).unwrap();
    assert_eq!(app.change_size(36), Ok(()));
    assert_eq!(app.config(), config(1, 36));
    assert_eq!(app.cards(), &deal(36));
    assert_eq!(app.players(), &seat(1));
    assert_eq!(app.state(), GameStates::Initial);
    assert_eq!(app.epoch(), 1);
    assert_eq!(app.change_size(4), Ok(()));
    assert_eq!(app.cards(), &deal(4));
    assert_eq!(app.epoch(), 2);
}

#[test]
fn a_size_that_is_no_board_is_refused_and_changes_nothing() {
    let mut app = App::new(Config::default()).unwrap();
    let before = app.clone();
    assert_eq!(app.change_size(0), Err(ConfigurationError::EmptyBoard));
    assert_eq!(app, before);
    assert_eq!(app.change_size(7), Err(ConfigurationError::OddBoard));
    assert_eq!(app, before);
    app.go_play();
    let playing = app.clone();
    assert_eq!(app.change_size(7), Err(ConfigurationError::OddBoard));
    assert_eq!(app, playing);
}

#[test]
fn a_new_size_outside_the_setup_changes_nothing() {
    let mut app = App::new(Config::default()).unwrap();
    app.go_play();
    let before = app.clone();
    assert_eq!(app.change_size(36), Ok(()));
    assert_eq!(app, before);
}

#[test]
fn a_new_number_of_players_seats_them_anew() {
    let mut app = App::new(Config::default()).unwrap();
    assert_eq!(app.change_players(4), Ok(()));
    assert_eq!(app.config(), config(4, 16));
    assert_eq!(app.players(), &seat(4));
    assert_eq!(app.cards(), &deal(16));
    assert_eq!(app.player_in_turn(), 0);
    assert_eq!(app.epoch(), 0);
}

#[test]
fn no_players_is_refused_and_changes_nothing() {
    let mut app = App::new(config(2, 4)).unwrap();
    let before = app.clone();
    assert_eq!(app.change_players(0), Err(ConfigurationError::NoPlayers));
    assert_eq!(app, before);
}

#[test]
fn a_new_number_of_players_outside_the_setup_changes_nothing() {
    let mut app = App::new(config(2, 4)).unwrap();
    app.go_play();
    let before = app.clone();
    assert_eq!(app.change_players(3), Ok(()));
    assert_eq!(app, before);
}

#[test]
fn starting_puts_the_first_player_into_play() {
    let mut app = App::new(config(3, 4)).unwrap();
    app.go_play();
    assert_eq!(app.state(), GameStates::Playing);
    assert_eq!(app.player_in_turn(), 0);
    assert_eq!(app.players()[0].state, PlayerState::Playing);
    assert_eq!(app.players()[1].state, PlayerState::Iddle);
    assert_eq!(app.players()[2].state, PlayerState::Iddle);
    assert_eq!(app.cards(), &deal(4));
    assert_eq!(app.epoch(), 0);
}

#[test]
fn starting_twice_changes_nothing_more() {
    let mut app = App::new(config(1, 4)).unwrap();
    app.go_play();
    app.card_selection(0);
    let before = app.clone();
    app.go_play();
    assert_eq!(app, before);
}
