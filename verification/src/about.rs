//! The decisions of the pane that tells about the program: what it is
//! called, where it is put, and what a key or a click sets off. The host is
//! asked for nothing here; each decision is handed back for the caller to
//! carry out.

use crate::prefix::InputMode;
use vstd::prelude::*;
use vstd::string::*;

verus! {

/// The rows that the pane takes.
pub const UI_ROWS: usize = 20;

/// The columns that the pane takes.
pub const UI_COLUMNS: usize = 90;

/// What the pane keeps between two events.
#[derive(Clone, Debug, PartialEq, Eq)]
pub struct App {
    /// The program that opens a link, once one is known.
    pub link_executable: String,
    pub zellij_version: String,
    pub base_mode: InputMode,
    pub tab_rows: usize,
    pub tab_columns: usize,
    pub own_plugin_id: Option<u32>,
    /// Whether the pane shows the release notes.
    pub is_release_notes: bool,
    /// Whether the page that is shown is the first one.
    pub is_main_screen: bool,
}

/// A command whose success shows which program opens links here.
#[derive(Clone, Copy, Debug, PartialEq, Eq)]
pub struct CommandQuery {
    pub command: &'static str,
    pub argument: &'static str,
    /// The key under which the answer comes back.
    pub context_key: &'static str,
}

/// The key of a key press, as far as the pane tells keys apart.
#[derive(Clone, Copy, Debug, PartialEq, Eq, Structural)]
pub enum BareKey {
    Enter,
    Esc,
    Other,
}

/// A key press.
#[derive(Clone, Copy, Debug, PartialEq, Eq, Structural)]
pub struct KeyPress {
    pub bare_key: BareKey,
    pub has_modifiers: bool,
}

/// What the mouse did, with the line and the column where it did it.
#[derive(Clone, Copy, Debug, PartialEq, Eq, Structural)]
pub enum Mouse {
    LeftClick(isize, usize),
    Hover(isize, usize),
    Other,
}

/// Where a floating pane is put, in cells.
#[derive(Clone, Copy, Debug, PartialEq, Eq, Structural)]
pub struct PaneCoordinates {
    pub x: usize,
    pub y: usize,
    pub width: usize,
    pub height: usize,
}

/// The size of a tab, in cells.
#[derive(Clone, Copy, Debug, PartialEq, Eq, Structural)]
pub struct TabSize {
    pub columns: usize,
    pub rows: usize,
}

/// What the host reports.
#[derive(Clone, Copy, Debug, PartialEq, Eq, Structural)]
pub enum Event {
    /// The tabs changed; the size of the first one, if there is one.
    TabUpdate(Option<TabSize>),
    Mouse(Mouse),
    /// The input mode changed; the base mode, if it is known.
    ModeUpdate(Option<InputMode>),
    /// A command ended with the given exit code; whether it was the query
    /// for `xdg-open`, and whether it was the one for `open`.
    RunCommandResult { exit_code: Option<i32>, is_xdg_open: bool, is_open: bool },
    Key(KeyPress),
    Other,
}

/// What is to be done after an event.
#[derive(Clone, Copy, Debug, PartialEq, Eq, Structural)]
pub enum Reaction {
    /// Nothing, and nothing is drawn again.
    Idle,
    /// The pane is drawn again.
    Render,
    /// The pane is moved; nothing is drawn again.
    MovePane(PaneCoordinates),
    /// The page is told of a click at the given column and line, and says
    /// whether another page follows.
    ClickOnPage { column: usize, line: usize },
    /// The page is told that the mouse is at the given column and line, and
    /// says whether it is drawn again.
    HoverOnPage { column: usize, line: usize },
    /// The page is told to take what is selected, and says whether another
    /// page follows.
    SelectOnPage,
    /// The pane closes.
    CloseSelf,
    /// The first page is shown, and the pane is drawn again.
    ShowMainScreen,
    /// The page is handed the key, and says whether it is drawn again.
    KeyToPage,
}

/// The mathematical content of [`App`].
pub struct AppView {
    pub link_executable: Seq<char>,
    pub zellij_version: Seq<char>,
    pub base_mode: InputMode,
    pub tab_rows: usize,
    pub tab_columns: usize,
    pub own_plugin_id: Option<u32>,
    pub is_release_notes: bool,
    pub is_main_screen: bool,
}

impl View for App {
    type V = AppView;

    open spec fn view(&self) -> AppView {
        AppView {
            link_executable: self.link_executable@,
            zellij_version: self.zellij_version@,
            base_mode: self.base_mode,
            tab_rows: self.tab_rows,
            tab_columns: self.tab_columns,
            own_plugin_id: self.own_plugin_id,
            is_release_notes: self.is_release_notes,
            is_main_screen: self.is_main_screen,
        }
    }
}

/// A line as a place on the page: itself, or what it wraps around to where
/// it is negative.
pub open spec fn line_as_place(line: isize) -> int {
    if line >= 0 {
        line as int
    } else {
        line + usize::MAX + 1
    }
}

/// Half of what `size` has beyond `taken`; nothing where it has no more.
pub open spec fn centered(size: usize, taken: usize) -> int {
    if size >= taken {
        (size - taken) / 2
    } else {
        0
    }
}

/// Where the pane is put in a tab of the given size: in the middle.
pub open spec fn centered_in(size: TabSize) -> PaneCoordinates {
    PaneCoordinates {
        x: centered(size.columns, UI_COLUMNS) as usize,
        y: centered(size.rows, UI_ROWS) as usize,
        width: UI_COLUMNS,
        height: UI_ROWS,
    }
}

/// What the mouse sets off: a click and a move go to the page, nothing else
/// does anything.
pub open spec fn mouse_reaction(mouse_event: Mouse) -> Reaction {
    match mouse_event {
        Mouse::LeftClick(line, column) => Reaction::ClickOnPage {
            column,
            line: line_as_place(line) as usize,
        },
        Mouse::Hover(line, column) => Reaction::HoverOnPage {
            column,
            line: line_as_place(line) as usize,
        },
        Mouse::Other => Reaction::Idle,
    }
}

impl AppView {
    /// The state of a pane that has just been made.
    pub open spec fn initial() -> AppView {
        AppView {
            link_executable: Seq::empty(),
            zellij_version: Seq::empty(),
            base_mode: InputMode::Normal,
            tab_rows: 0,
            tab_columns: 0,
            own_plugin_id: None,
            is_release_notes: false,
            is_main_screen: true,
        }
    }

    /// The title that the pane takes.
    pub open spec fn title(self) -> Seq<char> {
        if self.is_release_notes {
            "Release Notes "@ + self.zellij_version
        } else {
            "About Zellij"@
        }
    }

    /// What a key press sets off: Enter without modifiers takes what is
    /// selected; Esc without modifiers closes the pane on the first page and
    /// leads back to it from any other; every other key goes to the page.
    pub open spec fn key_reaction(self, key: KeyPress) -> Reaction {
        if key.bare_key == BareKey::Enter && !key.has_modifiers {
            Reaction::SelectOnPage
        } else if key.bare_key == BareKey::Esc && !key.has_modifiers {
            if self.is_main_screen {
                Reaction::CloseSelf
            } else {
                Reaction::ShowMainScreen
            }
        } else {
            Reaction::KeyToPage
        }
    }

    /// The state after a key press: the first page is shown where the key
    /// leads back to it.
    pub open spec fn after_key(self, key: KeyPress) -> AppView {
        if self.key_reaction(key) == Reaction::ShowMainScreen {
            AppView { is_main_screen: true, ..self }
        } else {
            self
        }
    }

    /// What follows when the size of the first tab is reported: the pane is
    /// moved to the middle if the size changed.
    pub open spec fn centering(self, first_tab: Option<TabSize>) -> Option<PaneCoordinates> {
        match first_tab {
            Some(size) => if size.columns != self.tab_columns || size.rows != self.tab_rows {
                Some(centered_in(size))
            } else {
                None
            },
            None => None,
        }
    }

    /// The state after the size of the first tab is reported.
    pub open spec fn after_tab_update(self, first_tab: Option<TabSize>) -> AppView {
        match first_tab {
            Some(size) => AppView { tab_columns: size.columns, tab_rows: size.rows, ..self },
            None => self,
        }
    }

    /// The state after a command ended: a query that succeeded tells the
    /// program that opens links; an answer to the query for `xdg-open` is
    /// not taken for one to the query for `open`.
    pub open spec fn after_command(self, exit_code: Option<i32>, is_xdg_open: bool, is_open: bool)
        -> AppView {
        if exit_code != Some(0i32) {
            self
        } else if is_xdg_open {
            AppView { link_executable: "xdg-open"@, ..self }
        } else if is_open {
            AppView { link_executable: "open"@, ..self }
        } else {
            self
        }
    }

    /// The state after an event.
    pub open spec fn after(self, event: Event) -> AppView {
        match event {
            Event::TabUpdate(first_tab) => self.after_tab_update(first_tab),
            Event::ModeUpdate(Some(base_mode)) => AppView { base_mode, ..self },
            Event::RunCommandResult { exit_code, is_xdg_open, is_open } => self.after_command(
                exit_code,
                is_xdg_open,
                is_open,
            ),
            Event::Key(key) => self.after_key(key),
            _ => self,
        }
    }

    /// What is to be done after an event.
    pub open spec fn reaction(self, event: Event) -> Reaction {
        match event {
            Event::TabUpdate(first_tab) => match self.centering(first_tab) {
                Some(coordinates) => Reaction::MovePane(coordinates),
                None => Reaction::Idle,
            },
            Event::Mouse(mouse_event) => mouse_reaction(mouse_event),
            Event::ModeUpdate(Some(base_mode)) => if self.base_mode != base_mode {
                Reaction::Render
            } else {
                Reaction::Idle
            },
            Event::Key(key) => self.key_reaction(key),
            _ => Reaction::Idle,
        }
    }
}

impl Default for App {
    fn default() -> (app: App)
        ensures
            app@ == AppView::initial(),
    {
        App {
            link_executable: String::new(),
            zellij_version: String::new(),
            base_mode: InputMode::Normal,
            tab_rows: 0,
            tab_columns: 0,
            own_plugin_id: None,
            is_release_notes: false,
            is_main_screen: true,
        }
    }
}

impl App {
    /// Takes what the host tells when the pane is loaded: the setting
    /// `is_release_notes`, which counts as set only where it reads `true`,
    /// the pane's own number and the version of the program. The first page
    /// is shown.
    pub fn load(&mut self, is_release_notes: Option<&str>, own_plugin_id: u32, zellij_version: String)
        ensures
            final(self)@ == (AppView {
                is_release_notes: is_release_notes matches Some(setting) && setting@ == "true"@,
                own_plugin_id: Some(own_plugin_id),
                zellij_version: zellij_version@,
                is_main_screen: true,
                ..old(self)@
            }),
    {
        self.is_release_notes = match is_release_notes {
            Some(setting) => String::from_str(setting) == String::from_str("true"),
            None => false,
        };
        self.own_plugin_id = Some(own_plugin_id);
        self.zellij_version = zellij_version;
        self.is_main_screen = true;
    }

    /// Takes note of the page that is shown.
    pub fn page_changed(&mut self, is_main_screen: bool)
        ensures
            final(self)@ == (AppView { is_main_screen, ..old(self)@ }),
    {
        self.is_main_screen = is_main_screen;
    }

    /// Decides what an event sets off, and takes note of what it tells.
    pub fn update(&mut self, event: Event) -> (reaction: Reaction)
        ensures
            final(self)@ == old(self)@.after(event),
            reaction == old(self)@.reaction(event),
    {
        match event {
            Event::TabUpdate(first_tab) => {
                match self.center_own_pane(first_tab) {
                    Some(coordinates) => Reaction::MovePane(coordinates),
                    None => Reaction::Idle,
                }
            },
            Event::Mouse(mouse_event) => self.handle_mouse_event(mouse_event),
            Event::ModeUpdate(mode) => {
                match mode {
                    Some(base_mode) => {
                        if self.update_base_mode(base_mode) {
                            Reaction::Render
                        } else {
                            Reaction::Idle
                        }
                    },
                    None => Reaction::Idle,
                }
            },
            Event::RunCommandResult { exit_code, is_xdg_open, is_open } => {
                let succeeded = match exit_code {
                    Some(code) => code == 0,
                    None => false,
                };
                if is_xdg_open {
                    if succeeded {
                        self.update_link_executable(String::from_str("xdg-open"));
                    }
                } else if is_open {
                    if succeeded {
                        self.update_link_executable(String::from_str("open"));
                    }
                }
                Reaction::Idle
            },
            Event::Key(key) => self.handle_key(key),
            Event::Other => Reaction::Idle,
        }
    }

    /// The name under which the pane asks to be listed, with the pane's own
    /// number; nothing while it does not know its number.
    pub fn change_own_title(&self) -> (rename: Option<(u32, String)>)
        ensures
            match rename {
                Some((id, title)) => self.own_plugin_id == Some(id) && title@ == self@.title(),
                None => self.own_plugin_id is None,
            },
    {
        match self.own_plugin_id {
            Some(own_plugin_id) => {
                if self.is_release_notes {
                    let mut title = String::from_str("Release Notes ");
                    title.append(self.zellij_version.as_str());
                    Some((own_plugin_id, title))
                } else {
                    Some((own_plugin_id, String::from_str("About Zellij")))
                }
            },
            None => None,
        }
    }

    /// The commands that are run to learn which program opens links.
    pub fn query_link_executable(&self) -> (queries: Vec<CommandQuery>)
        ensures
            queries@ == seq![
                CommandQuery { command: "xdg-open", argument: "--help", context_key: "xdg_open_cli" },
                CommandQuery { command: "open", argument: "--help", context_key: "open_cli" },
            ],
    {
        let mut queries: Vec<CommandQuery> = Vec::new();
        queries.push(
            CommandQuery { command: "xdg-open", argument: "--help", context_key: "xdg_open_cli" },
        );
        queries.push(CommandQuery { command: "open", argument: "--help", context_key: "open_cli" });
        assert(queries@ =~= seq![
            CommandQuery { command: "xdg-open", argument: "--help", context_key: "xdg_open_cli" },
            CommandQuery { command: "open", argument: "--help", context_key: "open_cli" },
        ]);
        queries
    }

    /// Takes note of the program that opens links.
    pub fn update_link_executable(&mut self, new_link_executable: String)
        ensures
            final(self)@ == (AppView { link_executable: new_link_executable@, ..old(self)@ }),
    {
        self.link_executable = new_link_executable;
    }

    /// Takes note of the base mode, and says whether it changed.
    pub fn update_base_mode(&mut self, new_base_mode: InputMode) -> (should_render: bool)
        ensures
            should_render == (old(self).base_mode != new_base_mode),
            final(self)@ == (AppView { base_mode: new_base_mode, ..old(self)@ }),
    {
        let should_render = self.base_mode != new_base_mode;
        self.base_mode = new_base_mode;
        should_render
    }

    /// Decides what the mouse sets off.
    pub fn handle_mouse_event(&self, mouse_event: Mouse) -> (reaction: Reaction)
        ensures
            reaction == mouse_reaction(mouse_event),
    {
        match mouse_event {
            Mouse::LeftClick(line, column) => Reaction::ClickOnPage {
                column,
                line: place_of_line(line),
            },
            Mouse::Hover(line, column) => Reaction::HoverOnPage {
                column,
                line: place_of_line(line),
            },
            Mouse::Other => Reaction::Idle,
        }
    }

    /// Decides what a key press sets off, and takes note of the page that
    /// is shown where the key leads back to the first one.
    pub fn handle_key(&mut self, key: KeyPress) -> (reaction: Reaction)
        ensures
            reaction == old(self)@.key_reaction(key),
            final(self)@ == old(self)@.after_key(key),
    {
        if key.bare_key == BareKey::Enter && !key.has_modifiers {
            Reaction::SelectOnPage
        } else if key.bare_key == BareKey::Esc && !key.has_modifiers {
            if self.is_main_screen {
                Reaction::CloseSelf
            } else {
                self.is_main_screen = true;
                Reaction::ShowMainScreen
            }
        } else {
            Reaction::KeyToPage
        }
    }

    /// Takes note of the size of the first tab, and says where the pane is
    /// to be put if the size changed.
    ///
    /// Only the size of the first tab is taken, which so far is that of all
    /// tabs.
    pub fn center_own_pane(&mut self, first_tab: Option<TabSize>) -> (coordinates: Option<
        PaneCoordinates,
    >)
        ensures
            final(self)@ == old(self)@.after_tab_update(first_tab),
            coordinates == old(self)@.centering(first_tab),
    {
        match first_tab {
            Some(first_tab) => {
                let prev_tab_columns = self.tab_columns;
                let prev_tab_rows = self.tab_rows;
                self.tab_columns = first_tab.columns;
                self.tab_rows = first_tab.rows;
                if self.tab_columns != prev_tab_columns || self.tab_rows != prev_tab_rows {
                    let desired_x_coords = self.tab_columns.saturating_sub(UI_COLUMNS) / 2;
                    let desired_y_coords = self.tab_rows.saturating_sub(UI_ROWS) / 2;
                    Some(
                        PaneCoordinates {
                            x: desired_x_coords,
                            y: desired_y_coords,
                            width: UI_COLUMNS,
                            height: UI_ROWS,
                        },
                    )
                } else {
                    None
                }
            },
            None => None,
        }
    }
}

/// The place on the page that a line stands for.
fn place_of_line(line: isize) -> (place: usize)
    ensures
        place as int == line_as_place(line),
{
    if line >= 0 {
        line as usize
    } else {
        usize::MAX - ((-(line + 1)) as usize)
    }
}

} // verus!
