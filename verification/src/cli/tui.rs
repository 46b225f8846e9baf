//! Navigation state of the interactive configuration screens.
pub mod config;
pub mod form_view;
pub mod notifier;
pub mod presence;

use vstd::prelude::*;
use crate::cli::keys::KeyCode;

verus! {

/// TUI application state
pub struct TuiApp {
    /// Current screen in the navigation stack
    pub screens: Vec<Screen>,
    /// Selected menu item index
    pub selected: usize,
    /// Should exit the TUI
    pub should_exit: bool,
}

/// Represents different screens in the TUI
#[derive(Debug, Clone, Copy, PartialEq, Eq, Structural)]
pub enum Screen {
    MainMenu,
    Config,
    Parties,
    Devices,
    Notifiers,
    Test,
    Help,
}

/// Number of main menu entries.
pub const MAIN_MENU_LEN: usize = 7;

/// The main menu entries, in order.
pub open spec fn main_menu_spec() -> Seq<Seq<char>> {
    seq!["Config"@, "Parties"@, "Devices"@, "Notifiers"@, "Test"@, "Help"@, "Exit"@]
}

/// The screen a main menu entry opens (`None` for "Exit").
pub open spec fn menu_target(i: int) -> Option<Screen> {
    if i == 0 {
        Some(Screen::Config)
    } else if i == 1 {
        Some(Screen::Parties)
    } else if i == 2 {
        Some(Screen::Devices)
    } else if i == 3 {
        Some(Screen::Notifiers)
    } else if i == 4 {
        Some(Screen::Test)
    } else if i == 5 {
        Some(Screen::Help)
    } else {
        None
    }
}

impl Screen {
    /// The title shown for a screen.
    pub open spec fn title_spec(self) -> Seq<char> {
        match self {
            Screen::MainMenu => "proximityd Configuration"@,
            Screen::Config => "Configuration"@,
            Screen::Parties => "Parties"@,
            Screen::Devices => "Devices"@,
            Screen::Notifiers => "Notifiers"@,
            Screen::Test => "Test Notifiers"@,
            Screen::Help => "Keyboard Shortcuts"@,
        }
    }

    /// Get the title for this screen
    pub fn title(&self) -> (r: &'static str)
        ensures
            r@ == self.title_spec(),
    {
        match self {
            Screen::MainMenu => "proximityd Configuration",
            Screen::Config => "Configuration",
            Screen::Parties => "Parties",
            Screen::Devices => "Devices",
            Screen::Notifiers => "Notifiers",
            Screen::Test => "Test Notifiers",
            Screen::Help => "Keyboard Shortcuts",
        }
    }

    /// Get menu items for the main menu
    pub fn main_menu_items() -> (r: Vec<&'static str>)
        ensures
            r@.len() == MAIN_MENU_LEN,
            forall|i: int| 0 <= i < MAIN_MENU_LEN ==> #[trigger] r@[i]@ == main_menu_spec()[i],
    {
        let mut v: Vec<&'static str> = Vec::new();
        v.push("Config");
        v.push("Parties");
        v.push("Devices");
        v.push("Notifiers");
        v.push("Test");
        v.push("Help");
        v.push("Exit");
        v
    }
}

impl Default for TuiApp {
    fn default() -> (r: Self)
        ensures
            r.screens@ == seq![Screen::MainMenu],
            r.selected == 0,
            !r.should_exit,
    {
        TuiApp::new()
    }
}

impl TuiApp {
    /// The screen on top of the stack, the main menu if the stack is empty.
    pub open spec fn current_screen_spec(&self) -> Screen {
        top_screen(self.screens@)
    }

    /// Create a new TUI application
    pub fn new() -> (r: Self)
        ensures
            r.screens@ == seq![Screen::MainMenu],
            r.selected == 0,
            !r.should_exit,
    {
        let mut screens = Vec::new();
        screens.push(Screen::MainMenu);
        TuiApp { screens, selected: 0, should_exit: false }
    }

    /// Get the current screen
    pub fn current_screen(&self) -> (r: Screen)
        ensures
            r == self.current_screen_spec(),
    {
        if self.screens.len() > 0 {
            self.screens[self.screens.len() - 1]
        } else {
            Screen::MainMenu
        }
    }

    /// Push a new screen onto the stack
    pub fn push_screen(&mut self, screen: Screen)
        ensures
            final(self).screens@ == old(self).screens@.push(screen),
            final(self).selected == 0,
            final(self).should_exit == old(self).should_exit,
    {
        self.screens.push(screen);
        self.selected = 0;
    }

    /// Pop the current screen from the stack; on the last screen, ask to exit
    pub fn pop_screen(&mut self)
        ensures
            if old(self).screens@.len() > 1 {
                &&& final(self).screens@ == old(self).screens@.drop_last()
                &&& final(self).selected == 0
                &&& final(self).should_exit == old(self).should_exit
            } else {
                &&& final(self).screens@ == old(self).screens@
                &&& final(self).selected == old(self).selected
                &&& final(self).should_exit
            },
    {
        if self.screens.len() > 1 {
            self.screens.pop();
            self.selected = 0;
        } else {
            self.should_exit = true;
        }
    }

    /// Handle keyboard input
    pub fn handle_key(&mut self, key: KeyCode)
        requires
            old(self).current_screen_spec() == Screen::MainMenu ==> old(self).selected
                < MAIN_MENU_LEN,
        ensures
            final(self).state() == tui_key_step(old(self).state(), key),
    {
        match self.current_screen() {
            Screen::MainMenu => self.handle_main_menu_key(key),
            Screen::Help => {
                if key == KeyCode::Esc {
                    self.pop_screen();
                }
            },
            _ => {
                if key == KeyCode::Esc {
                    self.pop_screen();
                }
            },
        }
    }

    /// Handle keys for the main menu
    fn handle_main_menu_key(&mut self, key: KeyCode)
        requires
            old(self).selected < MAIN_MENU_LEN,
        ensures
            final(self).state() == main_menu_step(old(self).state(), key),
    {
        match key {
            KeyCode::Up => {
                if self.selected > 0 {
                    self.selected = self.selected - 1;
                }
            },
            KeyCode::Down => {
                if self.selected < MAIN_MENU_LEN - 1 {
                    self.selected = self.selected + 1;
                }
            },
            KeyCode::Enter => {
                let i = self.selected;
                if i == 0 {
                    self.push_screen(Screen::Config);
                } else if i == 1 {
                    self.push_screen(Screen::Parties);
                } else if i == 2 {
                    self.push_screen(Screen::Devices);
                } else if i == 3 {
                    self.push_screen(Screen::Notifiers);
                } else if i == 4 {
                    self.push_screen(Screen::Test);
                } else if i == 5 {
                    self.push_screen(Screen::Help);
                } else {
                    self.should_exit = true;
                }
            },
            KeyCode::Esc => {
                self.should_exit = true;
            },
            _ => {},
        }
    }
}

/// The navigation state as plain values.
pub struct TuiState {
    pub screens: Seq<Screen>,
    pub selected: usize,
    pub should_exit: bool,
}

impl TuiApp {
    /// The navigation state of the application.
    pub open spec fn state(&self) -> TuiState {
        TuiState { screens: self.screens@, selected: self.selected, should_exit: self.should_exit }
    }
}

/// The screen on top of a navigation stack, the main menu if it is empty.
pub open spec fn top_screen(screens: Seq<Screen>) -> Screen {
    if screens.len() > 0 {
        screens.last()
    } else {
        Screen::MainMenu
    }
}

/// The state after a key on the main menu: arrows move the selection within
/// the menu, Enter opens the selected entry's screen (or asks to exit on
/// "Exit"), Esc asks to exit.
pub open spec fn main_menu_step(app: TuiState, key: KeyCode) -> TuiState {
    match key {
        KeyCode::Up => if app.selected > 0 {
            TuiState { selected: (app.selected - 1) as usize, ..app }
        } else {
            app
        },
        KeyCode::Down => if app.selected < MAIN_MENU_LEN - 1 {
            TuiState { selected: (app.selected + 1) as usize, ..app }
        } else {
            app
        },
        KeyCode::Enter => match menu_target(app.selected as int) {
            Some(s) => TuiState { screens: app.screens.push(s), selected: 0, ..app },
            None => TuiState { should_exit: true, ..app },
        },
        KeyCode::Esc => TuiState { should_exit: true, ..app },
        _ => app,
    }
}

/// The state after a key: the main menu handles its keys, any other screen
/// only goes back on Esc (the last screen asks to exit instead).
pub open spec fn tui_key_step(app: TuiState, key: KeyCode) -> TuiState {
    if top_screen(app.screens) == Screen::MainMenu {
        main_menu_step(app, key)
    } else if key == KeyCode::Esc {
        if app.screens.len() > 1 {
            TuiState { screens: app.screens.drop_last(), selected: 0, ..app }
        } else {
            TuiState { should_exit: true, ..app }
        }
    } else {
        app
    }
}

/// Going into a screen and back returns to where navigation was: a push
/// followed by a pop restores the stack (and resets the selection).
pub proof fn law_push_then_pop_restores(screens: Seq<Screen>, s: Screen)
    ensures
        screens.push(s).len() > 1 ==> screens.push(s).drop_last() == screens,
        top_screen(screens.push(s)) == s,
{
    assert(screens.push(s).drop_last() =~= screens);
}

/// The main menu selection stays within the menu under every key.
pub proof fn law_menu_selection_in_range(app: TuiState, key: KeyCode)
    requires
        app.selected < MAIN_MENU_LEN,
    ensures
        main_menu_step(app, key).selected < MAIN_MENU_LEN,
{
}

} // verus!
