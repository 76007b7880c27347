use memory_game::{
    render_cards, App, Cell, Config, GameStates, GameTheme, InitialScreen, PlayersChoice,
    SizeChoice, ThemeChoice,
};

#[test]
fn the_setup_screen_shows_during_setup_only() {
    let mut app = App::new(Config::default()).unwrap();
    assert!(InitialScreen.render(&app).visible);
    assert!(!render_cards(&app).visible);
    app.go_play();
    assert!(!InitialScreen.render(&app).visible);
    assert!(render_cards(&app).visible);
    app.restart(GameStates::Initial);
    assert!(InitialScreen.render(&app).visible);
}

#[test]
fn neither_screen_shows_a_finished_round() {
    let mut app = App::new(Config { theme: GameTheme::Icons, players: 1, size: 2 }).unwrap();
    app.go_play();
    app.card_selection(0);
    app.card_selection(1);
    assert_eq!(app.state(), GameStates::Over);
    assert!(!InitialScreen.render(&app).visible);
    assert!(!render_cards(&app).visible);
}

#[test]
fn the_setup_screen_marks_what_the_configuration_holds() {
    let app = App::new(Config::default()).unwrap();
    let panel = InitialScreen.render_config(&app);
    assert_eq!(
        panel.themes,
        vec![
            ThemeChoice { theme: GameTheme::Numbers, selected: true },
            ThemeChoice { theme: GameTheme::Icons, selected: false },
        ]
    );
    assert_eq!(
        panel.players,
        vec![
            PlayersChoice { players: 1, selected: true },
            PlayersChoice { players: 2, selected: false },
            PlayersChoice { players: 3, selected: false },
            PlayersChoice { players: 4, selected: false },
        ]
    );
    assert_eq!(
        panel.sizes,
        vec![SizeChoice { size: 16, selected: true }, SizeChoice { size: 36, selected: false }]
    );
    assert_eq!(InitialScreen.render(&app).panel, panel);
}

#[test]
fn the_setup_screen_follows_the_choices() {
    let mut app = App::new(Config::default()).unwrap();
    app.set_theme(GameTheme::Icons);
    app.change_players(3).unwrap();
    app.change_size(36).unwrap();
    let panel = InitialScreen.render_config(&app);
    let themes: Vec<bool> = panel.themes.iter().map(|c| c.selected).collect();
    let players: Vec<bool> = panel.players.iter().map(|c| c.selected).collect();
    let sizes: Vec<bool> = panel.sizes.iter().map(|c| c.selected).collect();
    assert_eq!(themes, vec![false, true]);
    assert_eq!(players, vec![false, false, true, false]);
    assert_eq!(sizes, vec![false, true]);
}

#[test]
fn a_configuration_that_is_not_on_offer_marks_nothing() {
    let app = App::new(Config { theme: GameTheme::Numbers, players: 9, size: 4 }).unwrap();
    let panel = InitialScreen.render_config(&app);
    assert!(panel.players.iter().all(|c| !c.selected));
    assert!(panel.sizes.iter().all(|c| !c.selected));
    let board = render_cards(&app);
    assert!(!board.four);
    assert!(!board.six);
    assert_eq!(board.cells.len(), 4);
}

#[test]
fn the_board_is_laid_out_by_its_size() {
    let mut app = App::new(Config::default()).unwrap();
    let board = render_cards(&app);
    assert!(board.four && !board.six);
    assert_eq!(board.cells.len(), 16);
    app.change_size(36).unwrap();
    let board = render_cards(&app);
    assert!(!board.four && board.six);
    assert_eq!(board.cells.len(), 36);
}

#[test]
fn a_cell_is_marked_by_what_its_card_shows() {
    let mut app = App::new(Config::default()).unwrap();
    app.go_play();
    app.card_selection(0);
    let hit = app.card_selection(8).unwrap();
    app.settle(hit);
    app.card_selection(1);
    app.card_selection(9);
    app.card_selection(2);
    app.card_selection(3);
    app.card_selection(4);
    let cells = render_cards(&app).cells;
    let plain = |card: usize, value: usize| Cell {
        card,
        value,
        selected: false,
        wrong: false,
        fine: false,
        shown: false,
    };
    // found and settled
    assert_eq!(cells[0], Cell { shown: true, ..plain(0, 0) });
    assert_eq!(cells[8], Cell { shown: true, ..plain(8, 0) });
    // just found
    assert_eq!(cells[1], Cell { fine: true, ..plain(1, 1) });
    assert_eq!(cells[9], Cell { fine: true, ..plain(9, 1) });
    // just missed
    assert_eq!(cells[2], Cell { selected: true, wrong: true, ..plain(2, 2) });
    assert_eq!(cells[3], Cell { selected: true, wrong: true, ..plain(3, 3) });
    // selected
    assert_eq!(cells[4], Cell { selected: true, ..plain(4, 4) });
    // face down
    assert_eq!(cells[5], plain(5, 5));
    assert_eq!(cells[15], plain(15, 7));
}
