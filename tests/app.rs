use pdm::app::{App, CurrentScreen, Key, Outcome};
use pdm::components::file_explorer::{FileExplorer, Selection};
use pdm::network::{check_address, Network};

#[test]
fn down_then_quit_moves_sidebar() {
    let mut app = App::new();
    assert!(matches!(app.handle_key(Key::Down, false), Outcome::Continue));
    assert_eq!(app.sidebar_index, 1);
    assert_eq!(app.current_screen, CurrentScreen::BitcoinConfig);
    assert!(matches!(app.handle_key(Key::Char('q'), false), Outcome::Quit));
    assert_eq!(app.sidebar_index, 1);
}

#[test]
fn toggle_menu_follows_sidebar() {
    let mut app = App::new();
    app.sidebar_index = 2;
    app.toggle_menu();
    assert_eq!(app.current_screen, CurrentScreen::P2PoolConfig);
    app.sidebar_index = 7;
    app.toggle_menu();
    assert_eq!(app.current_screen, CurrentScreen::P2PoolConfig);
}

fn listed() -> FileExplorer {
    let mut e = FileExplorer::new("/tmp/x".to_string());
    e.set_listing(
        Some("/tmp/x/..".to_string()),
        vec!["/tmp/x/d".to_string()],
        vec!["/tmp/x/f.conf".to_string()],
    );
    e
}

#[test]
fn explorer_cursor_wraps() {
    let mut e = listed();
    assert_eq!(e.files.len(), 3);
    e.previous();
    assert_eq!(e.selected_index, 2);
    e.next();
    assert_eq!(e.selected_index, 0);
    e.next();
    assert_eq!(e.selected_index, 1);
}

#[test]
fn explorer_selection_kinds() {
    let mut e = listed();
    assert!(matches!(e.select(true), Selection::Parent));
    e.next();
    assert!(matches!(e.select(true), Selection::Directory(ref d) if d == "/tmp/x/d"));
    e.next();
    assert!(matches!(e.select(false), Selection::File(ref f) if f == "/tmp/x/f.conf"));
    let empty = FileExplorer::new(".".to_string());
    assert!(matches!(empty.select(false), Selection::Nothing));
}

#[test]
fn choosing_a_file_sets_daemon_path() {
    let mut app = App::new();
    app.explorer = listed();
    app.handle_key(Key::Down, false);
    assert_eq!(app.current_screen, CurrentScreen::BitcoinConfig);
    app.handle_key(Key::Enter, false);
    assert_eq!(app.current_screen, CurrentScreen::FileExplorer);
    app.handle_key(Key::Up, false);
    assert!(matches!(app.handle_key(Key::Enter, false), Outcome::Continue));
    assert_eq!(app.bitcoin_conf_path.as_deref(), Some("/tmp/x/f.conf"));
    assert_eq!(app.current_screen, CurrentScreen::BitcoinConfig);
}

#[test]
fn network_names() {
    assert_eq!(Network::from_core_arg("main"), Some(Network::Bitcoin));
    assert_eq!(Network::from_core_arg("testnet4"), Some(Network::Testnet4));
    assert_eq!(Network::from_core_arg("Main"), None);
    assert_eq!(Network::Regtest.label(), "regtest");
}

#[test]
fn address_checks() {
    let tb = "tb1qw508d6qejxtdg4y5r3zarvary0c5xw7kxpjzsx";
    assert!(check_address(tb, Network::Signet));
    assert!(check_address(tb, Network::Testnet));
    assert!(!check_address(tb, Network::Bitcoin));
    assert!(!check_address("invalid", Network::Signet));
}
