//! The state of the terminal application and how a key press changes it.
use vstd::prelude::*;
use crate::components::file_explorer::{FileExplorer, Selection};
use crate::config::ConfigEntry as BitcoinEntry;
use crate::p2poolv2_config_parser::ConfigEntry as P2PoolEntry;

verus! {

#[derive(Debug, PartialEq, Eq, Clone, Copy, Structural)]
pub enum CurrentScreen {
    Home,
    BitcoinConfig,
    P2PoolConfig,
    FileExplorer,
    Exiting,
}

/// Actions that components (explorer, editors) can trigger.
#[derive(Debug, Clone)]
pub enum AppAction {
    NoAction,
    Quit,
    ToggleMenu,
    Navigate(CurrentScreen),
    /// Opens the file explorer for a screen.
    OpenExplorer(CurrentScreen),
    /// The explorer's choice of a file.
    FileSelected(String),
    /// Closes the explorer without a choice.
    CloseModal,
}

/// A key that the application reacts to.
#[derive(Debug, Clone, Copy, PartialEq, Eq, Structural)]
pub enum Key {
    Up,
    Down,
    Enter,
    Esc,
    Char(char),
    Other,
}

/// What the loop around the application must do after a key.
#[derive(Debug, Clone)]
pub enum Outcome {
    Continue,
    Quit,
    /// Show the parent of the explorer's directory.
    EnterParent,
    /// Show this directory in the explorer.
    EnterDirectory(String),
}

pub struct App {
    pub current_screen: CurrentScreen,
    pub sidebar_index: usize,
    pub explorer_trigger: Option<CurrentScreen>,
    pub bitcoin_conf_path: Option<String>,
    pub p2pool_conf_path: Option<String>,
    pub explorer: FileExplorer,
    pub p2pool_data: Vec<P2PoolEntry>,
    pub bitcoin_data: Vec<BitcoinEntry>,
}

/// The screen that a sidebar position shows, or `None` for a position without one.
pub open spec fn screen_at(i: usize) -> Option<CurrentScreen> {
    if i == 0 {
        Some(CurrentScreen::Home)
    } else if i == 1 {
        Some(CurrentScreen::BitcoinConfig)
    } else if i == 2 {
        Some(CurrentScreen::P2PoolConfig)
    } else {
        None
    }
}

impl App {
    /// The home screen, nothing chosen or loaded, the explorer on the working directory.
    pub fn new() -> (r: App)
        ensures
            r.current_screen == CurrentScreen::Home,
            r.sidebar_index == 0,
            r.explorer_trigger is None,
            r.bitcoin_conf_path is None,
            r.p2pool_conf_path is None,
            r.explorer.files@.len() == 0,
            r.explorer.wf(),
            r.p2pool_data@.len() == 0,
            r.bitcoin_data@.len() == 0,
    {
        App {
            current_screen: CurrentScreen::Home,
            sidebar_index: 0,
            explorer_trigger: None,
            bitcoin_conf_path: None,
            p2pool_conf_path: None,
            explorer: FileExplorer::new(String::from_str(".")),
            p2pool_data: Vec::new(),
            bitcoin_data: Vec::new(),
        }
    }

    /// Shows the screen of the sidebar's current position, where it has one.
    pub fn toggle_menu(&mut self)
        ensures
            final(self).current_screen == match screen_at(old(self).sidebar_index) {
                Some(s) => s,
                None => old(self).current_screen,
            },
            final(self).sidebar_index == old(self).sidebar_index,
            final(self).explorer == old(self).explorer,
            final(self).bitcoin_conf_path == old(self).bitcoin_conf_path,
            final(self).explorer_trigger == old(self).explorer_trigger,
            final(self).p2pool_conf_path == old(self).p2pool_conf_path,
            final(self).p2pool_data == old(self).p2pool_data,
            final(self).bitcoin_data == old(self).bitcoin_data,
    {
        match self.sidebar_index {
            0 => self.current_screen = CurrentScreen::Home,
            1 => self.current_screen = CurrentScreen::BitcoinConfig,
            2 => self.current_screen = CurrentScreen::P2PoolConfig,
            _ => {},
        }
    }

    /// Applies a key press. `q` quits. In the explorer the arrows move its cursor, `Esc`
    /// leaves it, and `Enter` takes the entry under the cursor (`selected_is_dir` tells
    /// whether it is a directory): a file becomes the daemon's configuration path, a
    /// directory is asked for. Elsewhere the arrows move along the sidebar and `Enter`
    /// on the daemon's screen opens the explorer.
    pub fn handle_key(&mut self, key: Key, selected_is_dir: bool) -> (r: Outcome)
        requires
            old(self).explorer.wf(),
        ensures
            final(self).explorer.wf(),
            key == Key::Char('q') ==> r is Quit && final(self).current_screen == old(
                self,
            ).current_screen && final(self).sidebar_index == old(self).sidebar_index,
            key != Key::Char('q') ==> !(r is Quit),
            old(self).current_screen != CurrentScreen::FileExplorer ==> {
                &&& final(self).explorer == old(self).explorer
                &&& r is Quit || r is Continue
                &&& key == Key::Up && old(self).sidebar_index > 0 ==> final(self).sidebar_index == old(self).sidebar_index - 1
                    && final(self).current_screen == match screen_at(final(self).sidebar_index) {
                        Some(s) => s,
                        None => old(self).current_screen,
                    }
                &&& key == Key::Down && old(self).sidebar_index < 1 ==> final(self).sidebar_index == old(self).sidebar_index + 1
                    && final(self).current_screen == CurrentScreen::BitcoinConfig
                &&& !(key == Key::Up && old(self).sidebar_index > 0) && !(key == Key::Down && old(self).sidebar_index < 1)
                    ==> final(self).sidebar_index == old(self).sidebar_index
                &&& key == Key::Enter && old(self).current_screen == CurrentScreen::BitcoinConfig ==> final(self).current_screen == CurrentScreen::FileExplorer
            },
            old(self).current_screen == CurrentScreen::FileExplorer ==> final(self).sidebar_index == old(self).sidebar_index,
            old(self).current_screen == CurrentScreen::FileExplorer && key == Key::Enter ==> {
                let sel = old(self).explorer.files@[old(self).explorer.selected_index as int];
                &&& old(self).explorer.files@.len() == 0 ==> r is Continue
                &&& old(self).explorer.files@.len() > 0 && !crate::components::file_explorer::is_parent_link(sel@) && !selected_is_dir ==> {
                    &&& final(self).bitcoin_conf_path matches Some(p) && p@ == sel@
                    &&& r is Continue
                }
                &&& old(self).explorer.files@.len() > 0 && crate::components::file_explorer::is_parent_link(sel@) ==> r is EnterParent
                &&& old(self).explorer.files@.len() > 0 && !crate::components::file_explorer::is_parent_link(sel@) && selected_is_dir ==> (r matches Outcome::EnterDirectory(d) && d@ == sel@)
            },
    {
        if key == Key::Char('q') {
            return Outcome::Quit;
        }
        if self.current_screen == CurrentScreen::FileExplorer {
            match key {
                Key::Up => self.explorer.previous(),
                Key::Down => self.explorer.next(),
                Key::Esc => self.toggle_menu(),
                Key::Enter => {
                    match self.explorer.select(selected_is_dir) {
                        Selection::File(path) => {
                            self.bitcoin_conf_path = Some(path);
                            self.toggle_menu();
                        },
                        Selection::Parent => return Outcome::EnterParent,
                        Selection::Directory(d) => return Outcome::EnterDirectory(d),
                        Selection::Nothing => {},
                    }
                },
                _ => {},
            }
        } else {
            match key {
                Key::Up => {
                    if self.sidebar_index > 0 {
                        self.sidebar_index -= 1;
                        self.toggle_menu();
                    }
                },
                Key::Down => {
                    if self.sidebar_index < 1 {
                        self.sidebar_index += 1;
                        self.toggle_menu();
                    }
                },
                Key::Enter => {
                    if self.current_screen == CurrentScreen::BitcoinConfig {
                        self.current_screen = CurrentScreen::FileExplorer;
                    }
                },
                _ => {},
            }
        }
        Outcome::Continue
    }
}

} // verus!
