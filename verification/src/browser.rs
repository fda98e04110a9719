//! The browser's decisions: tabs, modes, reader mode, bookmarks and the agent, as a state
//! machine. Each toolbar command and each event of the window or its pages changes the state
//! and yields the actions the window must carry out, in order.

use vstd::prelude::*;

use crate::bookmarks::{self, lists_url, added_in_front, without_url, is_bookmarkable, shown_title, Bookmark};
use crate::config::Config;
use crate::clock::is_timestamp;
use crate::mode::{
    autoplay_script_for_mode, extra_script_for_mode, BLOCK_3RD_PARTY_SCRIPTS_JS,
    BLOCK_AUTOPLAY_JS, READER_MODE_JS,
};
use crate::scripts::{
    agent_panel_js, agent_panel_script, bookmark_state_js, bookmark_state_script,
    bookmarks_page, download_js, download_script, generate_bookmarks_html, history_add_js,
    history_add_script, history_list_js, history_list_script, reader_mode_js,
    reader_mode_script, tab_views, tabs_js, tabs_script, url_bar_js, url_bar_script,
    window_title, window_title_text, write_page_js, write_page_script, EXTRACT_CONTENT_JS,
};
use crate::tabs::{blank_tab, new_tab, title_or_url, TabMeta, TabView};
use crate::urls::{normalize_url, normalized_url};

verus! {

/// The number of tab slots.
pub const MAX_TABS: usize = 5;

/// A command from the toolbar.
#[derive(Debug, Clone, PartialEq, Eq)]
pub enum Command {
    Navigate { url: String },
    Home,
    Back,
    Forward,
    Reload,
    SetMode { mode: String },
    ReaderMode,
    AgentSummarize,
    SaveBookmark,
    RemoveBookmark { url: String },
    ShowBookmarks,
    NewTab,
    NextTab,
    PrevTab,
    SwitchTab { index: usize },
    CloseTab { index: usize },
}

/// Something that happened in the window or one of its pages.
#[derive(Debug, Clone, PartialEq, Eq)]
pub enum Event {
    /// A tab's page navigated.
    TabUrlChanged { tab: usize, url: String },
    /// A tab's page changed its title.
    TabTitleChanged { tab: usize, title: String },
    /// A tab's page sent its text for a summary.
    PageContent { tab: usize, url: String, content: String },
    /// The agent's answer (or the reason there is none) is ready.
    AgentResult { text: String },
    /// The window's logical size changed.
    Resized { width: u32, height: u32 },
    DownloadStarted { filename: String },
    DownloadFinished { filename: String, success: bool },
    CloseRequested,
}

/// What the window must do.
#[derive(Debug, Clone, PartialEq, Eq)]
pub enum Action {
    /// Run a script in the toolbar.
    ToolbarScript(String),
    /// Run a script in a tab's page.
    PageScript { tab: usize, script: String },
    /// Load an address in a tab.
    LoadUrl { tab: usize, url: String },
    /// Show tab `active` in the page area and park every other tab (`layout::tab_rect`).
    LayoutTabs { active: usize, width: u32, height: u32 },
    /// Resize the toolbar to `layout::chrome_rect(width)`.
    ToolbarBounds { width: u32 },
    /// Set the window title.
    WindowTitle(String),
    /// Log a navigation (`logger::log_navigation`).
    LogNavigation { url: String, mode: String },
    /// Log a mode change (`logger::log_mode_change`).
    LogModeChange { old: String, new: String },
    /// Log a summary request (`logger::log_agent_request`).
    LogAgentRequest { url: String },
    /// Record a visit in the history (`history::entry_for`).
    RecordVisit { url: String, title: String },
    /// Write the bookmark list to disk.
    SaveBookmarks,
    /// Ask the agent for a summary (`agent::AgentClient`) and report back with
    /// `Event::AgentResult`.
    Summarize { url: String, content: String },
    /// Close the window.
    Exit,
}

pub enum ActionView {
    ToolbarScript(Seq<char>),
    PageScript { tab: nat, script: Seq<char> },
    LoadUrl { tab: nat, url: Seq<char> },
    LayoutTabs { active: nat, width: u32, height: u32 },
    ToolbarBounds { width: u32 },
    WindowTitle(Seq<char>),
    LogNavigation { url: Seq<char>, mode: Seq<char> },
    LogModeChange { old: Seq<char>, new: Seq<char> },
    LogAgentRequest { url: Seq<char> },
    RecordVisit { url: Seq<char>, title: Seq<char> },
    SaveBookmarks,
    Summarize { url: Seq<char>, content: Seq<char> },
    Exit,
}

impl View for Action {
    type V = ActionView;

    open spec fn view(&self) -> ActionView {
        match self {
            Action::ToolbarScript(s) => ActionView::ToolbarScript(s@),
            Action::PageScript { tab, script } => ActionView::PageScript {
                tab: *tab as nat,
                script: script@,
            },
            Action::LoadUrl { tab, url } => ActionView::LoadUrl { tab: *tab as nat, url: url@ },
            Action::LayoutTabs { active, width, height } => ActionView::LayoutTabs {
                active: *active as nat,
                width: *width,
                height: *height,
            },
            Action::ToolbarBounds { width } => ActionView::ToolbarBounds { width: *width },
            Action::WindowTitle(s) => ActionView::WindowTitle(s@),
            Action::LogNavigation { url, mode } => ActionView::LogNavigation {
                url: url@,
                mode: mode@,
            },
            Action::LogModeChange { old, new } => ActionView::LogModeChange {
                old: old@,
                new: new@,
            },
            Action::LogAgentRequest { url } => ActionView::LogAgentRequest { url: url@ },
            Action::RecordVisit { url, title } => ActionView::RecordVisit {
                url: url@,
                title: title@,
            },
            Action::SaveBookmarks => ActionView::SaveBookmarks,
            Action::Summarize { url, content } => ActionView::Summarize {
                url: url@,
                content: content@,
            },
            Action::Exit => ActionView::Exit,
        }
    }
}

/// The views of a list of actions.
pub open spec fn action_views(acts: Seq<Action>) -> Seq<ActionView> {
    acts.map_values(|a: Action| a@)
}

/// The browser's state as values.
pub struct BrowserView {
    pub tabs: Seq<TabView>,
    pub open_count: nat,
    pub active: nat,
    pub max_tabs: nat,
    pub cur_mode: Seq<char>,
    pub home: Seq<char>,
    pub default_mode: Seq<char>,
    pub bookmarks: Seq<Bookmark>,
    pub width: u32,
    pub height: u32,
}

/// Every tab slot exists, at least one tab is open, no more than the tab limit (one tab stays
/// open even under a limit of zero), and the active tab is an open one.
pub open spec fn well_formed(s: BrowserView) -> bool {
    &&& s.tabs.len() == MAX_TABS
    &&& 1 <= s.open_count <= MAX_TABS
    &&& s.active < s.open_count
    &&& s.max_tabs <= MAX_TABS
    &&& (s.open_count <= s.max_tabs || s.open_count == 1)
}

/// The browser: its tab slots, how many are open, which is shown, the current mode, the
/// settings it keeps, the bookmarks and the window size.
pub struct Browser {
    tabs: Vec<TabMeta>,
    open_count: usize,
    active: usize,
    max_tabs: usize,
    cur_mode: String,
    home: String,
    default_mode: String,
    bookmarks: Vec<Bookmark>,
    width: u32,
    height: u32,
}

impl Browser {
    /// A browser is always well formed.
    #[verifier::type_invariant]
    closed spec fn browser_invariant(&self) -> bool {
        well_formed(self@)
    }
}

impl View for Browser {
    type V = BrowserView;

    closed spec fn view(&self) -> BrowserView {
        BrowserView {
            tabs: tab_views(self.tabs@),
            open_count: self.open_count as nat,
            active: self.active as nat,
            max_tabs: self.max_tabs as nat,
            cur_mode: self.cur_mode@,
            home: self.home@,
            default_mode: self.default_mode@,
            bookmarks: self.bookmarks@,
            width: self.width,
            height: self.height,
        }
    }
}

/// The state a browser starts in.
pub open spec fn initial(s: BrowserView, cfg: Config, bookmarks: Seq<Bookmark>, width: u32, height: u32) -> bool {
    &&& s.tabs == seq![new_tab(cfg.home_url@, cfg.default_mode@)] + Seq::new(
        (MAX_TABS - 1) as nat,
        |i: int| blank_tab(cfg.default_mode@),
    )
    &&& s.open_count == 1
    &&& s.active == 0
    &&& s.max_tabs == if cfg.max_tabs <= MAX_TABS {
        cfg.max_tabs as nat
    } else {
        MAX_TABS as nat
    }
    &&& s.cur_mode == cfg.default_mode@
    &&& s.home == cfg.home_url@
    &&& s.default_mode == cfg.default_mode@
    &&& s.bookmarks == bookmarks
    &&& s.width == width
    &&& s.height == height
}

/// The actions at start-up: draw the tab bar, hand the address bar the history suggestions,
/// set the bookmark star for the home page.
pub open spec fn startup_actions(s: BrowserView, history_urls: Seq<Seq<char>>) -> Seq<ActionView> {
    seq![
        ActionView::ToolbarScript(tabs_script(s.tabs, s.open_count, s.active, s.max_tabs)),
        ActionView::ToolbarScript(history_list_script(history_urls)),
        ActionView::ToolbarScript(bookmark_state_script(lists_url(s.bookmarks, s.home))),
    ]
}


/// A toolbar command as values.
pub enum CommandView {
    Navigate { url: Seq<char> },
    Home,
    Back,
    Forward,
    Reload,
    SetMode { mode: Seq<char> },
    ReaderMode,
    AgentSummarize,
    SaveBookmark,
    RemoveBookmark { url: Seq<char> },
    ShowBookmarks,
    NewTab,
    NextTab,
    PrevTab,
    SwitchTab { index: nat },
    CloseTab { index: nat },
}

impl View for Command {
    type V = CommandView;

    open spec fn view(&self) -> CommandView {
        match self {
            Command::Navigate { url } => CommandView::Navigate { url: url@ },
            Command::Home => CommandView::Home,
            Command::Back => CommandView::Back,
            Command::Forward => CommandView::Forward,
            Command::Reload => CommandView::Reload,
            Command::SetMode { mode } => CommandView::SetMode { mode: mode@ },
            Command::ReaderMode => CommandView::ReaderMode,
            Command::AgentSummarize => CommandView::AgentSummarize,
            Command::SaveBookmark => CommandView::SaveBookmark,
            Command::RemoveBookmark { url } => CommandView::RemoveBookmark { url: url@ },
            Command::ShowBookmarks => CommandView::ShowBookmarks,
            Command::NewTab => CommandView::NewTab,
            Command::NextTab => CommandView::NextTab,
            Command::PrevTab => CommandView::PrevTab,
            Command::SwitchTab { index } => CommandView::SwitchTab { index: *index as nat },
            Command::CloseTab { index } => CommandView::CloseTab { index: *index as nat },
        }
    }
}

/// `s` with the active tab's record replaced by `t`.
pub open spec fn with_active_tab(s: BrowserView, t: TabView) -> BrowserView {
    BrowserView { tabs: s.tabs.update(s.active as int, t), ..s }
}

/// The active tab loads `url`, leaving reader mode.
pub open spec fn load_in_active(s: BrowserView, url: Seq<char>) -> (BrowserView, Seq<ActionView>) {
    (
        with_active_tab(s, TabView { url, reader_mode: false, ..s.tabs[s.active as int] }),
        seq![
            ActionView::ToolbarScript(reader_mode_script(false)),
            ActionView::LoadUrl { tab: s.active, url },
        ],
    )
}

/// The active tab leaves reader mode and runs `script` (history navigation).
pub open spec fn step_in_history(s: BrowserView, script: Seq<char>) -> (BrowserView, Seq<ActionView>) {
    (
        with_active_tab(s, TabView { reader_mode: false, ..s.tabs[s.active as int] }),
        seq![
            ActionView::ToolbarScript(reader_mode_script(false)),
            ActionView::PageScript { tab: s.active, script },
        ],
    )
}

/// The scripts a mode injects into the active tab: the autoplay blocker (Lite, Normal), then
/// the third-party script blocker (Lite).
pub open spec fn mode_scripts(active: nat, mode: Seq<char>) -> Seq<ActionView> {
    (if mode == "lite"@ || mode == "normal"@ {
        seq![ActionView::PageScript { tab: active, script: BLOCK_AUTOPLAY_JS@ }]
    } else {
        Seq::empty()
    }) + (if mode == "lite"@ {
        seq![ActionView::PageScript { tab: active, script: BLOCK_3RD_PARTY_SCRIPTS_JS@ }]
    } else {
        Seq::empty()
    })
}

/// Tab `a` becomes the shown one and the current mode becomes its mode.
pub open spec fn with_active(s: BrowserView, a: nat) -> BrowserView {
    BrowserView { active: a, cur_mode: s.tabs[a as int].mode, ..s }
}

/// What is redrawn when tab `s.active` is brought forward by cycling or closing: the layout,
/// the tab bar, the address bar, the bookmark star, the reader button and the window title
/// (page title, else address).
pub open spec fn cycled_actions(s: BrowserView) -> Seq<ActionView> {
    let t = s.tabs[s.active as int];
    seq![
        ActionView::LayoutTabs { active: s.active, width: s.width, height: s.height },
        ActionView::ToolbarScript(tabs_script(s.tabs, s.open_count, s.active, s.max_tabs)),
        ActionView::ToolbarScript(url_bar_script(t.url)),
        ActionView::ToolbarScript(bookmark_state_script(lists_url(s.bookmarks, t.url))),
        ActionView::ToolbarScript(reader_mode_script(t.reader_mode)),
        ActionView::WindowTitle(window_title(title_or_url(t))),
    ]
}

/// What is redrawn when a tab is picked in the tab bar: the layout, the tab bar, the address
/// bar, the window title (the page title, even when empty), the bookmark star and the reader
/// button.
pub open spec fn switched_actions(s: BrowserView) -> Seq<ActionView> {
    let t = s.tabs[s.active as int];
    seq![
        ActionView::LayoutTabs { active: s.active, width: s.width, height: s.height },
        ActionView::ToolbarScript(tabs_script(s.tabs, s.open_count, s.active, s.max_tabs)),
        ActionView::ToolbarScript(url_bar_script(t.url)),
        ActionView::WindowTitle(window_title(t.title)),
        ActionView::ToolbarScript(bookmark_state_script(lists_url(s.bookmarks, t.url))),
        ActionView::ToolbarScript(reader_mode_script(t.reader_mode)),
    ]
}

/// The tab after `a` among the open ones, wrapping around.
pub open spec fn next_index(a: nat, open_count: nat) -> nat {
    ((a + 1) % open_count) as nat
}

/// The tab before `a` among the open ones, wrapping around.
pub open spec fn prev_index(a: nat, open_count: nat) -> nat {
    if a == 0 {
        (open_count - 1) as nat
    } else {
        (a - 1) as nat
    }
}

/// The tab slots after closing open tab `idx`: later open tabs move down one slot and the
/// freed last slot becomes unused.
pub open spec fn tabs_after_close(s: BrowserView, idx: nat) -> Seq<TabView> {
    s.tabs.take(idx as int) + s.tabs.subrange(idx + 1int, s.open_count as int) + seq![
        blank_tab(s.default_mode),
    ] + s.tabs.skip(s.open_count as int)
}

/// The tab shown after closing `idx`: the same tab when it was after `idx`, else the tab now
/// in slot `idx` (the last one when `idx` was last).
pub open spec fn active_after_close(active: nat, idx: nat, open_count: nat) -> nat {
    if idx < active {
        (active - 1) as nat
    } else if idx <= open_count - 2 {
        idx
    } else {
        (open_count - 2) as nat
    }
}

/// The loads after closing `idx`: each moved tab reloads its page in its new slot, the freed
/// slot loads a blank page.
pub open spec fn close_loads(s: BrowserView, idx: nat) -> Seq<ActionView> {
    Seq::new(
        (s.open_count - 1 - idx) as nat,
        |k: int| ActionView::LoadUrl { tab: (idx + k) as nat, url: s.tabs[idx + k + 1].url },
    ).push(ActionView::LoadUrl { tab: (s.open_count - 1) as nat, url: "about:blank"@ })
}

/// Closing a tab. The last open tab is not closed but returns to the home page; a closed tab's
/// neighbour is shown; an index past the open tabs changes nothing. `usize::MAX` stands for
/// the active tab.
pub open spec fn close_result(s: BrowserView, index: nat) -> (BrowserView, Seq<ActionView>) {
    let idx = if index == usize::MAX as nat {
        s.active
    } else {
        index
    };
    if s.open_count == 1 {
        let tabs = s.tabs.update(0, new_tab(s.home, s.default_mode));
        (
            BrowserView { tabs, active: 0, ..s },
            seq![
                ActionView::LoadUrl { tab: 0, url: s.home },
                ActionView::ToolbarScript(tabs_script(tabs, 1, 0, s.max_tabs)),
            ],
        )
    } else if idx < s.open_count {
        let t = BrowserView {
            tabs: tabs_after_close(s, idx),
            open_count: (s.open_count - 1) as nat,
            active: active_after_close(s.active, idx, s.open_count),
            ..s
        };
        let shown = t.tabs[t.active as int];
        (
            t,
            close_loads(s, idx) + seq![
                ActionView::LayoutTabs { active: t.active, width: t.width, height: t.height },
                ActionView::ToolbarScript(tabs_script(t.tabs, t.open_count, t.active, t.max_tabs)),
                ActionView::ToolbarScript(url_bar_script(shown.url)),
                ActionView::WindowTitle(window_title(title_or_url(shown))),
            ],
        )
    } else {
        (s, Seq::empty())
    }
}

/// Opening a tab on the home page in the next free slot, when the tab limit allows; it is
/// shown at once.
pub open spec fn new_tab_result(s: BrowserView) -> (BrowserView, Seq<ActionView>) {
    if s.open_count < s.max_tabs {
        let idx = s.open_count;
        let t = BrowserView {
            tabs: s.tabs.update(idx as int, new_tab(s.home, s.default_mode)),
            open_count: idx + 1,
            active: idx,
            ..s
        };
        (
            t,
            seq![
                ActionView::LoadUrl { tab: idx, url: s.home },
                ActionView::LayoutTabs { active: idx, width: s.width, height: s.height },
                ActionView::ToolbarScript(tabs_script(t.tabs, t.open_count, t.active, t.max_tabs)),
                ActionView::WindowTitle(window_title("New Tab"@)),
            ],
        )
    } else {
        (s, Seq::empty())
    }
}

/// What a command does, except saving a bookmark (see `save_bookmark_step`).
pub open spec fn command_result(s: BrowserView, c: CommandView) -> (BrowserView, Seq<ActionView>) {
    let a = s.active;
    let tab = s.tabs[a as int];
    match c {
        CommandView::Navigate { url } => load_in_active(s, normalized_url(url)),
        CommandView::Home => load_in_active(s, s.home),
        CommandView::Back => step_in_history(s, "history.back()"@),
        CommandView::Forward => step_in_history(s, "history.forward()"@),
        CommandView::Reload => (s, seq![ActionView::PageScript { tab: a, script: "location.reload()"@ }]),
        CommandView::SetMode { mode } => (
            BrowserView { cur_mode: mode, ..with_active_tab(s, TabView { mode, ..tab }) },
            seq![ActionView::LogModeChange { old: s.cur_mode, new: mode }] + mode_scripts(a, mode),
        ),
        CommandView::ReaderMode => if tab.reader_mode {
            (
                with_active_tab(s, TabView { reader_mode: false, ..tab }),
                seq![
                    ActionView::PageScript { tab: a, script: "location.reload()"@ },
                    ActionView::ToolbarScript(reader_mode_script(false)),
                ],
            )
        } else {
            (
                with_active_tab(s, TabView { reader_mode: true, ..tab }),
                seq![
                    ActionView::PageScript { tab: a, script: READER_MODE_JS@ },
                    ActionView::ToolbarScript(reader_mode_script(true)),
                ],
            )
        },
        CommandView::AgentSummarize => (
            s,
            seq![
                ActionView::LogAgentRequest { url: tab.url },
                ActionView::PageScript { tab: a, script: EXTRACT_CONTENT_JS@ },
            ],
        ),
        CommandView::SaveBookmark => (s, Seq::empty()),
        CommandView::RemoveBookmark { url } => (
            BrowserView { bookmarks: without_url(s.bookmarks, url), ..s },
            (if lists_url(s.bookmarks, url) {
                seq![ActionView::SaveBookmarks]
            } else {
                Seq::empty()
            }) + (if url == tab.url {
                seq![ActionView::ToolbarScript(bookmark_state_script(false))]
            } else {
                Seq::empty()
            }),
        ),
        CommandView::ShowBookmarks => (
            with_active_tab(s, TabView { reader_mode: false, ..tab }),
            seq![
                ActionView::PageScript { tab: a, script: write_page_script(bookmarks_page(s.bookmarks)) },
                ActionView::ToolbarScript(reader_mode_script(false)),
            ],
        ),
        CommandView::NewTab => new_tab_result(s),
        CommandView::NextTab => if s.open_count > 1 {
            let t = with_active(s, next_index(a, s.open_count));
            (t, cycled_actions(t))
        } else {
            (s, Seq::empty())
        },
        CommandView::PrevTab => if s.open_count > 1 {
            let t = with_active(s, prev_index(a, s.open_count));
            (t, cycled_actions(t))
        } else {
            (s, Seq::empty())
        },
        CommandView::SwitchTab { index } => if index < s.open_count {
            let t = with_active(s, index);
            (t, switched_actions(t))
        } else {
            (s, Seq::empty())
        },
        CommandView::CloseTab { index } => close_result(s, index),
    }
}

/// Saving a bookmark for the active tab's page: added in front unless it cannot be bookmarked
/// or is already there (then saved to disk, stamped with the local time); the star is lit
/// either way.
pub open spec fn save_bookmark_step(s: BrowserView, t: BrowserView, acts: Seq<ActionView>) -> bool {
    let tab = s.tabs[s.active as int];
    let added = is_bookmarkable(tab.url) && !lists_url(s.bookmarks, tab.url);
    &&& t == BrowserView { bookmarks: t.bookmarks, ..s }
    &&& added ==> added_in_front(s.bookmarks, t.bookmarks, tab.url, tab.title)
        && is_timestamp(t.bookmarks[0].timestamp@) && acts == seq![
        ActionView::SaveBookmarks,
        ActionView::ToolbarScript(bookmark_state_script(true)),
    ]
    &&& !added ==> t.bookmarks == s.bookmarks && acts == seq![
        ActionView::ToolbarScript(bookmark_state_script(true)),
    ]
}

/// The state after a command, and the actions it yields.
pub open spec fn command_step(s: BrowserView, c: CommandView, t: BrowserView, acts: Seq<ActionView>) -> bool {
    if c is SaveBookmark {
        save_bookmark_step(s, t, acts)
    } else {
        (t, acts) == command_result(s, c)
    }
}

/// An event as values.
pub enum EventView {
    TabUrlChanged { tab: nat, url: Seq<char> },
    TabTitleChanged { tab: nat, title: Seq<char> },
    PageContent { tab: nat, url: Seq<char>, content: Seq<char> },
    AgentResult { text: Seq<char> },
    Resized { width: u32, height: u32 },
    DownloadStarted { filename: Seq<char> },
    DownloadFinished { filename: Seq<char>, success: bool },
    CloseRequested,
}

impl View for Event {
    type V = EventView;

    open spec fn view(&self) -> EventView {
        match self {
            Event::TabUrlChanged { tab, url } => EventView::TabUrlChanged { tab: *tab as nat, url: url@ },
            Event::TabTitleChanged { tab, title } => EventView::TabTitleChanged {
                tab: *tab as nat,
                title: title@,
            },
            Event::PageContent { tab, url, content } => EventView::PageContent {
                tab: *tab as nat,
                url: url@,
                content: content@,
            },
            Event::AgentResult { text } => EventView::AgentResult { text: text@ },
            Event::Resized { width, height } => EventView::Resized { width: *width, height: *height },
            Event::DownloadStarted { filename } => EventView::DownloadStarted { filename: filename@ },
            Event::DownloadFinished { filename, success } => EventView::DownloadFinished {
                filename: filename@,
                success: *success,
            },
            Event::CloseRequested => EventView::CloseRequested,
        }
    }
}

/// What an event does to the state, and the actions it yields. A navigation in the shown tab
/// is logged, recorded in the history and reflected in the toolbar and title; a new non-empty
/// title is kept; a page's text goes to the agent only from the shown tab.
pub open spec fn event_result(s: BrowserView, e: EventView) -> (BrowserView, Seq<ActionView>) {
    match e {
        EventView::TabUrlChanged { tab, url } => {
            let t = if tab < MAX_TABS {
                BrowserView { tabs: s.tabs.update(tab as int, TabView { url, ..s.tabs[tab as int] }), ..s }
            } else {
                s
            };
            (
                t,
                if tab == s.active {
                    seq![
                        ActionView::LogNavigation { url, mode: s.cur_mode },
                        ActionView::RecordVisit { url, title: t.tabs[tab as int].title },
                        ActionView::ToolbarScript(history_add_script(url)),
                        ActionView::ToolbarScript(bookmark_state_script(lists_url(s.bookmarks, url))),
                        ActionView::WindowTitle(window_title(url)),
                        ActionView::ToolbarScript(url_bar_script(url)),
                        ActionView::ToolbarScript(tabs_script(t.tabs, t.open_count, t.active, t.max_tabs)),
                    ]
                } else {
                    Seq::empty()
                },
            )
        },
        EventView::TabTitleChanged { tab, title } => {
            let t = if tab < MAX_TABS && title.len() > 0 {
                BrowserView { tabs: s.tabs.update(tab as int, TabView { title, ..s.tabs[tab as int] }), ..s }
            } else {
                s
            };
            (
                t,
                if tab == s.active && title.len() > 0 {
                    seq![
                        ActionView::WindowTitle(window_title(title)),
                        ActionView::ToolbarScript(tabs_script(t.tabs, t.open_count, t.active, t.max_tabs)),
                    ]
                } else {
                    Seq::empty()
                },
            )
        },
        EventView::PageContent { tab, url, content } => (
            s,
            if tab == s.active {
                seq![ActionView::Summarize { url, content }]
            } else {
                Seq::empty()
            },
        ),
        EventView::AgentResult { text } => (s, seq![ActionView::ToolbarScript(agent_panel_script(text))]),
        EventView::Resized { width, height } => (
            BrowserView { width, height, ..s },
            seq![
                ActionView::ToolbarBounds { width },
                ActionView::LayoutTabs { active: s.active, width, height },
            ],
        ),
        EventView::DownloadStarted { filename } => (
            s,
            seq![ActionView::ToolbarScript(download_script(filename, "started"@))],
        ),
        EventView::DownloadFinished { filename, success } => (
            s,
            seq![
                ActionView::ToolbarScript(
                    download_script(
                        filename,
                        if success {
                            "done"@
                        } else {
                            "error"@
                        },
                    ),
                ),
            ],
        ),
        EventView::CloseRequested => (s, seq![ActionView::Exit]),
    }
}

impl Browser {
    /// The browser as it opens: the first tab on the home page, the other slots unused, the
    /// configured tab limit (at most `MAX_TABS`) and mode.
    pub fn new(cfg: &Config, bookmarks: Vec<Bookmark>, width: u32, height: u32) -> (b: Browser)
        ensures
            initial(b@, *cfg, bookmarks@, width, height),
            well_formed(b@),
    {
        let mut tabs: Vec<TabMeta> = Vec::new();
        tabs.push(TabMeta::new(cfg.home_url.as_str(), cfg.default_mode.as_str()));
        let mut i: usize = 1;
        while i < MAX_TABS
            invariant
                1 <= i <= MAX_TABS,
                tab_views(tabs@) == seq![new_tab(cfg.home_url@, cfg.default_mode@)] + Seq::new(
                    (i - 1) as nat,
                    |k: int| blank_tab(cfg.default_mode@),
                ),
            decreases MAX_TABS - i,
        {
            let t = TabMeta::blank(cfg.default_mode.as_str());
            let ghost before = tabs@;
            tabs.push(t);
            assert(tab_views(tabs@) =~= tab_views(before).push(t@));
            assert(tab_views(tabs@) =~= seq![new_tab(cfg.home_url@, cfg.default_mode@)] + Seq::new(
                i as nat,
                |k: int| blank_tab(cfg.default_mode@),
            ));
            i = i + 1;
        }
        let max_tabs = if cfg.max_tabs <= MAX_TABS {
            cfg.max_tabs
        } else {
            MAX_TABS
        };
        Browser {
            tabs,
            open_count: 1,
            active: 0,
            max_tabs,
            cur_mode: cfg.default_mode.clone(),
            home: cfg.home_url.clone(),
            default_mode: cfg.default_mode.clone(),
            bookmarks,
            width,
            height,
        }
    }


    /// Replaces the active tab's record.
    fn set_active_tab(&mut self, t: TabMeta)
        requires
            well_formed(old(self)@),
        ensures
            well_formed(final(self)@),
            final(self)@ == with_active_tab(old(self)@, t@),
    {
        let a = self.active;
        self.tabs[a] = t;
        assert(tab_views(self.tabs@) =~= tab_views(old(self).tabs@).update(a as int, t@));
    }

    fn load_in_active(&mut self, url: String) -> (acts: Vec<Action>)
        requires
            well_formed(old(self)@),
        ensures
            well_formed(final(self)@),
            (final(self)@, action_views(acts@)) == load_in_active(old(self)@, url@),
    {
        let a = self.active;
        let mut t = self.tabs[a].duplicate();
        t.url = url.clone();
        t.reader_mode = false;
        self.set_active_tab(t);
        let mut acts: Vec<Action> = Vec::new();
        acts.push(Action::ToolbarScript(reader_mode_js(false)));
        acts.push(Action::LoadUrl { tab: a, url });
        assert(action_views(acts@) =~= load_in_active(old(self)@, url@).1);
        acts
    }

    fn step_in_history(&mut self, script: &str) -> (acts: Vec<Action>)
        requires
            well_formed(old(self)@),
        ensures
            well_formed(final(self)@),
            (final(self)@, action_views(acts@)) == step_in_history(old(self)@, script@),
    {
        let a = self.active;
        let mut t = self.tabs[a].duplicate();
        t.reader_mode = false;
        self.set_active_tab(t);
        let mut acts: Vec<Action> = Vec::new();
        acts.push(Action::ToolbarScript(reader_mode_js(false)));
        acts.push(Action::PageScript { tab: a, script: script.to_owned() });
        assert(action_views(acts@) =~= step_in_history(old(self)@, script@).1);
        acts
    }

    fn set_mode(&mut self, mode: String) -> (acts: Vec<Action>)
        requires
            well_formed(old(self)@),
        ensures
            well_formed(final(self)@),
            (final(self)@, action_views(acts@)) == command_result(
                old(self)@,
                CommandView::SetMode { mode: mode@ },
            ),
    {
        let a = self.active;
        let mut acts: Vec<Action> = Vec::new();
        acts.push(Action::LogModeChange { old: self.cur_mode.clone(), new: mode.clone() });
        let mut t = self.tabs[a].duplicate();
        t.mode = mode.clone();
        self.set_active_tab(t);
        self.cur_mode = mode.clone();
        if let Some(js) = autoplay_script_for_mode(mode.as_str()) {
            acts.push(Action::PageScript { tab: a, script: js.to_owned() });
        }
        if let Some(js) = extra_script_for_mode(mode.as_str()) {
            acts.push(Action::PageScript { tab: a, script: js.to_owned() });
        }
        assert(action_views(acts@) =~= command_result(old(self)@, CommandView::SetMode { mode: mode@ }).1);
        acts
    }

    fn toggle_reader_mode(&mut self) -> (acts: Vec<Action>)
        requires
            well_formed(old(self)@),
        ensures
            well_formed(final(self)@),
            (final(self)@, action_views(acts@)) == command_result(old(self)@, CommandView::ReaderMode),
    {
        let a = self.active;
        let mut t = self.tabs[a].duplicate();
        let mut acts: Vec<Action> = Vec::new();
        if t.reader_mode {
            t.reader_mode = false;
            self.set_active_tab(t);
            acts.push(Action::PageScript { tab: a, script: "location.reload()".to_owned() });
            acts.push(Action::ToolbarScript(reader_mode_js(false)));
        } else {
            t.reader_mode = true;
            self.set_active_tab(t);
            acts.push(Action::PageScript { tab: a, script: READER_MODE_JS.to_owned() });
            acts.push(Action::ToolbarScript(reader_mode_js(true)));
        }
        assert(action_views(acts@) =~= command_result(old(self)@, CommandView::ReaderMode).1);
        acts
    }

    fn request_summary(&self) -> (acts: Vec<Action>)
        requires
            well_formed(self@),
        ensures
            action_views(acts@) == command_result(self@, CommandView::AgentSummarize).1,
    {
        let a = self.active;
        let mut acts: Vec<Action> = Vec::new();
        acts.push(Action::LogAgentRequest { url: self.tabs[a].url.clone() });
        acts.push(Action::PageScript { tab: a, script: EXTRACT_CONTENT_JS.to_owned() });
        assert(action_views(acts@) =~= command_result(self@, CommandView::AgentSummarize).1);
        acts
    }

    fn save_bookmark(&mut self) -> (acts: Vec<Action>)
        requires
            well_formed(old(self)@),
        ensures
            well_formed(final(self)@),
            save_bookmark_step(old(self)@, final(self)@, action_views(acts@)),
    {
        let a = self.active;
        let url = self.tabs[a].url.clone();
        let title = self.tabs[a].title.clone();
        let mut list: Vec<Bookmark> = Vec::new();
        std::mem::swap(&mut list, &mut self.bookmarks);
        let added = bookmarks::add(url.as_str(), title.as_str(), &mut list);
        self.bookmarks = list;
        let mut acts: Vec<Action> = Vec::new();
        if added {
            acts.push(Action::SaveBookmarks);
        }
        acts.push(Action::ToolbarScript(bookmark_state_js(true)));
        proof {
            if added {
                assert(action_views(acts@) =~= seq![
                    ActionView::SaveBookmarks,
                    ActionView::ToolbarScript(bookmark_state_script(true)),
                ]);
            } else {
                assert(action_views(acts@) =~= seq![
                    ActionView::ToolbarScript(bookmark_state_script(true)),
                ]);
            }
        }
        acts
    }

    fn remove_bookmark(&mut self, url: String) -> (acts: Vec<Action>)
        requires
            well_formed(old(self)@),
        ensures
            well_formed(final(self)@),
            (final(self)@, action_views(acts@)) == command_result(
                old(self)@,
                CommandView::RemoveBookmark { url: url@ },
            ),
    {
        let a = self.active;
        let active_url = self.tabs[a].url.clone();
        let mut list: Vec<Bookmark> = Vec::new();
        std::mem::swap(&mut list, &mut self.bookmarks);
        let removed = bookmarks::remove(url.as_str(), &mut list);
        self.bookmarks = list;
        let mut acts: Vec<Action> = Vec::new();
        if removed {
            acts.push(Action::SaveBookmarks);
        }
        if url == active_url {
            acts.push(Action::ToolbarScript(bookmark_state_js(false)));
        }
        assert(action_views(acts@) =~= command_result(old(self)@, CommandView::RemoveBookmark { url: url@ }).1);
        acts
    }

    fn show_bookmarks(&mut self) -> (acts: Vec<Action>)
        requires
            well_formed(old(self)@),
        ensures
            well_formed(final(self)@),
            (final(self)@, action_views(acts@)) == command_result(old(self)@, CommandView::ShowBookmarks),
    {
        let a = self.active;
        let page = generate_bookmarks_html(&self.bookmarks);
        let script = write_page_js(page.as_str());
        let mut t = self.tabs[a].duplicate();
        t.reader_mode = false;
        self.set_active_tab(t);
        let mut acts: Vec<Action> = Vec::new();
        acts.push(Action::PageScript { tab: a, script });
        acts.push(Action::ToolbarScript(reader_mode_js(false)));
        assert(action_views(acts@) =~= command_result(old(self)@, CommandView::ShowBookmarks).1);
        acts
    }

    /// The redraw after cycling to (or closing into) the now active tab.
    fn cycled(&self) -> (acts: Vec<Action>)
        requires
            well_formed(self@),
        ensures
            action_views(acts@) == cycled_actions(self@),
    {
        let a = self.active;
        let t = &self.tabs[a];
        let mut acts: Vec<Action> = Vec::new();
        acts.push(Action::LayoutTabs { active: a, width: self.width, height: self.height });
        acts.push(Action::ToolbarScript(tabs_js(&self.tabs, self.open_count, a, self.max_tabs)));
        acts.push(Action::ToolbarScript(url_bar_js(t.url.as_str())));
        let on = bookmarks::is_bookmarked(&self.bookmarks, t.url.as_str());
        acts.push(Action::ToolbarScript(bookmark_state_js(on)));
        acts.push(Action::ToolbarScript(reader_mode_js(t.reader_mode)));
        let name = if t.title.as_str().is_empty() {
            window_title_text(t.url.as_str())
        } else {
            window_title_text(t.title.as_str())
        };
        acts.push(Action::WindowTitle(name));
        assert(action_views(acts@) =~= cycled_actions(self@));
        acts
    }

    /// The redraw after picking the now active tab in the tab bar.
    fn switched(&self) -> (acts: Vec<Action>)
        requires
            well_formed(self@),
        ensures
            action_views(acts@) == switched_actions(self@),
    {
        let a = self.active;
        let t = &self.tabs[a];
        let mut acts: Vec<Action> = Vec::new();
        acts.push(Action::LayoutTabs { active: a, width: self.width, height: self.height });
        acts.push(Action::ToolbarScript(tabs_js(&self.tabs, self.open_count, a, self.max_tabs)));
        acts.push(Action::ToolbarScript(url_bar_js(t.url.as_str())));
        acts.push(Action::WindowTitle(window_title_text(t.title.as_str())));
        let on = bookmarks::is_bookmarked(&self.bookmarks, t.url.as_str());
        acts.push(Action::ToolbarScript(bookmark_state_js(on)));
        acts.push(Action::ToolbarScript(reader_mode_js(t.reader_mode)));
        assert(action_views(acts@) =~= switched_actions(self@));
        acts
    }

    /// Shows open tab `a`; its mode becomes the current one.
    fn activate(&mut self, a: usize)
        requires
            well_formed(old(self)@),
            a < old(self)@.open_count,
        ensures
            well_formed(final(self)@),
            final(self)@ == with_active(old(self)@, a as nat),
    {
        self.active = a;
        self.cur_mode = self.tabs[a].mode.clone();
    }

    fn new_tab(&mut self) -> (acts: Vec<Action>)
        requires
            well_formed(old(self)@),
        ensures
            well_formed(final(self)@),
            (final(self)@, action_views(acts@)) == new_tab_result(old(self)@),
    {
        let mut acts: Vec<Action> = Vec::new();
        if self.open_count < self.max_tabs {
            let idx = self.open_count;
            let t = TabMeta::new(self.home.as_str(), self.default_mode.as_str());
            self.tabs[idx] = t;
            assert(tab_views(self.tabs@) =~= tab_views(old(self).tabs@).update(idx as int, t@));
            self.open_count = idx + 1;
            self.active = idx;
            acts.push(Action::LoadUrl { tab: idx, url: self.home.clone() });
            acts.push(Action::LayoutTabs { active: idx, width: self.width, height: self.height });
            acts.push(Action::ToolbarScript(tabs_js(&self.tabs, self.open_count, idx, self.max_tabs)));
            acts.push(Action::WindowTitle(window_title_text("New Tab")));
        }
        assert(action_views(acts@) =~= new_tab_result(old(self)@).1);
        acts
    }


    /// Moves the open tabs after `idx` down one slot and frees the last open slot; yields the
    /// loads of `close_loads`.
    fn shift_tabs_down(&mut self, idx: usize) -> (acts: Vec<Action>)
        requires
            well_formed(old(self)@),
            old(self)@.open_count >= 2,
            idx < old(self)@.open_count,
        ensures
            final(self)@ == (BrowserView { tabs: tabs_after_close(old(self)@, idx as nat), ..old(self)@ }),
            action_views(acts@) == close_loads(old(self)@, idx as nat),
    {
        let ghost s = self@;
        let open = self.open_count;
        let mut acts: Vec<Action> = Vec::new();
        let mut i = idx;
        assert(s.tabs =~= s.tabs.take(idx as int) + s.tabs.subrange(idx + 1, idx + 1) + s.tabs.skip(idx as int));
        while i < open - 1
            invariant
                well_formed(s),
                s.tabs.len() == MAX_TABS,
                2 <= open <= MAX_TABS,
                open == s.open_count,
                idx <= i <= open - 1,
                self@ == (BrowserView { tabs: self@.tabs, ..s }),
                self@.tabs == s.tabs.take(idx as int) + s.tabs.subrange(idx + 1, i + 1) + s.tabs.skip(i as int),
                self.tabs@.len() == MAX_TABS,
                action_views(acts@) == Seq::new(
                    (i - idx) as nat,
                    |k: int| ActionView::LoadUrl { tab: (idx + k) as nat, url: s.tabs[idx + k + 1].url },
                ),
            decreases open - 1 - i,
        {
            assert(self@.tabs[i + 1] == s.tabs[i + 1]);
            let moved = self.tabs[i + 1].duplicate();
            let url = moved.url.clone();
            let ghost before = self.tabs@;
            self.tabs[i] = moved;
            assert(tab_views(self.tabs@) =~= tab_views(before).update(i as int, moved@));
            assert(self@.tabs =~= s.tabs.take(idx as int) + s.tabs.subrange(idx + 1, i + 2) + s.tabs.skip(i + 1));
            let ghost acts_before = acts@;
            let act = Action::LoadUrl { tab: i, url };
            assert(act@ == ActionView::LoadUrl { tab: i as nat, url: s.tabs[i + 1].url });
            acts.push(act);
            assert(action_views(acts@) =~= action_views(acts_before).push(act@));
            assert(action_views(acts@) =~= Seq::new(
                (i + 1 - idx) as nat,
                |k: int| ActionView::LoadUrl { tab: (idx + k) as nat, url: s.tabs[idx + k + 1].url },
            ));
            i = i + 1;
        }
        let blank = TabMeta::blank(self.default_mode.as_str());
        let ghost before = self.tabs@;
        self.tabs[open - 1] = blank;
        assert(tab_views(self.tabs@) =~= tab_views(before).update(open - 1, blank@));
        assert(self@.tabs =~= tabs_after_close(s, idx as nat));
        let ghost acts_before = acts@;
        let act = Action::LoadUrl { tab: open - 1, url: "about:blank".to_owned() };
        acts.push(act);
        assert(action_views(acts@) =~= action_views(acts_before).push(act@));
        assert(action_views(acts@) =~= close_loads(s, idx as nat));
        acts
    }

    /// The redraw after a tab was closed and `self.active` is shown.
    fn closed_redraw(&self) -> (acts: Vec<Action>)
        requires
            well_formed(self@),
        ensures
            action_views(acts@) == seq![
                ActionView::LayoutTabs { active: self@.active, width: self@.width, height: self@.height },
                ActionView::ToolbarScript(tabs_script(self@.tabs, self@.open_count, self@.active, self@.max_tabs)),
                ActionView::ToolbarScript(url_bar_script(self@.tabs[self@.active as int].url)),
                ActionView::WindowTitle(window_title(title_or_url(self@.tabs[self@.active as int]))),
            ],
    {
        let a = self.active;
        let t = &self.tabs[a];
        let mut acts: Vec<Action> = Vec::new();
        acts.push(Action::LayoutTabs { active: a, width: self.width, height: self.height });
        acts.push(Action::ToolbarScript(tabs_js(&self.tabs, self.open_count, a, self.max_tabs)));
        acts.push(Action::ToolbarScript(url_bar_js(t.url.as_str())));
        let name = if t.title.as_str().is_empty() {
            window_title_text(t.url.as_str())
        } else {
            window_title_text(t.title.as_str())
        };
        acts.push(Action::WindowTitle(name));
        assert(action_views(acts@) =~= seq![
            ActionView::LayoutTabs { active: self@.active, width: self@.width, height: self@.height },
            ActionView::ToolbarScript(tabs_script(self@.tabs, self@.open_count, self@.active, self@.max_tabs)),
            ActionView::ToolbarScript(url_bar_script(self@.tabs[self@.active as int].url)),
            ActionView::WindowTitle(window_title(title_or_url(self@.tabs[self@.active as int]))),
        ]);
        acts
    }

    fn close_tab(&mut self, index: usize) -> (acts: Vec<Action>)
        requires
            well_formed(old(self)@),
        ensures
            well_formed(final(self)@),
            (final(self)@, action_views(acts@)) == close_result(old(self)@, index as nat),
    {
        let ghost s = self@;
        let idx = if index == usize::MAX {
            self.active
        } else {
            index
        };
        if self.open_count == 1 {
            let t = TabMeta::new(self.home.as_str(), self.default_mode.as_str());
            self.tabs[0] = t;
            assert(tab_views(self.tabs@) =~= s.tabs.update(0, t@));
            self.active = 0;
            let mut acts: Vec<Action> = Vec::new();
            acts.push(Action::LoadUrl { tab: 0, url: self.home.clone() });
            acts.push(Action::ToolbarScript(tabs_js(&self.tabs, 1, 0, self.max_tabs)));
            assert(action_views(acts@) =~= close_result(s, index as nat).1);
            return acts;
        }
        if idx >= self.open_count {
            let acts: Vec<Action> = Vec::new();
            assert(action_views(acts@) =~= Seq::<ActionView>::empty());
            return acts;
        }
        let open = self.open_count;
        let mut acts = self.shift_tabs_down(idx);
        let a = self.active;
        let new_active = if idx < a {
            a - 1
        } else if idx <= open - 2 {
            idx
        } else {
            open - 2
        };
        self.active = new_active;
        self.open_count = open - 1;
        let ghost loads = action_views(acts@);
        let mut redraw = self.closed_redraw();
        let ghost tail = action_views(redraw@);
        acts.append(&mut redraw);
        assert(action_views(acts@) =~= loads + tail);
        assert(action_views(acts@) =~= close_result(s, index as nat).1);
        acts
    }

    /// Carries out a toolbar command.
    pub fn handle_command(&mut self, cmd: Command) -> (acts: Vec<Action>)
        ensures
            well_formed(final(self)@),
            command_step(old(self)@, cmd@, final(self)@, action_views(acts@)),
    {
        proof {
            use_type_invariant(&*self);
        }
        let ghost c = cmd@;
        match cmd {
            Command::Navigate { url } => {
                let target = normalize_url(url.as_str());
                self.load_in_active(target)
            },
            Command::Home => {
                let home = self.home.clone();
                self.load_in_active(home)
            },
            Command::Back => self.step_in_history("history.back()"),
            Command::Forward => self.step_in_history("history.forward()"),
            Command::Reload => {
                let mut acts: Vec<Action> = Vec::new();
                acts.push(Action::PageScript { tab: self.active, script: "location.reload()".to_owned() });
                assert(action_views(acts@) =~= command_result(old(self)@, c).1);
                acts
            },
            Command::SetMode { mode } => self.set_mode(mode),
            Command::ReaderMode => self.toggle_reader_mode(),
            Command::AgentSummarize => self.request_summary(),
            Command::SaveBookmark => self.save_bookmark(),
            Command::RemoveBookmark { url } => self.remove_bookmark(url),
            Command::ShowBookmarks => self.show_bookmarks(),
            Command::NewTab => self.new_tab(),
            Command::NextTab => {
                if self.open_count > 1 {
                    let a = (self.active + 1) % self.open_count;
                    self.activate(a);
                    self.cycled()
                } else {
                    let acts: Vec<Action> = Vec::new();
                    assert(action_views(acts@) =~= Seq::<ActionView>::empty());
                    acts
                }
            },
            Command::PrevTab => {
                if self.open_count > 1 {
                    let a = if self.active == 0 {
                        self.open_count - 1
                    } else {
                        self.active - 1
                    };
                    self.activate(a);
                    self.cycled()
                } else {
                    let acts: Vec<Action> = Vec::new();
                    assert(action_views(acts@) =~= Seq::<ActionView>::empty());
                    acts
                }
            },
            Command::SwitchTab { index } => {
                if index < self.open_count {
                    self.activate(index);
                    self.switched()
                } else {
                    let acts: Vec<Action> = Vec::new();
                    assert(action_views(acts@) =~= Seq::<ActionView>::empty());
                    acts
                }
            },
            Command::CloseTab { index } => self.close_tab(index),
        }
    }


    fn url_changed(&mut self, tab: usize, url: String) -> (acts: Vec<Action>)
        requires
            well_formed(old(self)@),
        ensures
            well_formed(final(self)@),
            (final(self)@, action_views(acts@)) == event_result(
                old(self)@,
                EventView::TabUrlChanged { tab: tab as nat, url: url@ },
            ),
    {
        let ghost s = self@;
        if tab < MAX_TABS {
            let mut t = self.tabs[tab].duplicate();
            t.url = url.clone();
            let ghost before = self.tabs@;
            self.tabs[tab] = t;
            assert(tab_views(self.tabs@) =~= tab_views(before).update(tab as int, t@));
        }
        let mut acts: Vec<Action> = Vec::new();
        if tab == self.active {
            acts.push(Action::LogNavigation { url: url.clone(), mode: self.cur_mode.clone() });
            acts.push(Action::RecordVisit { url: url.clone(), title: self.tabs[tab].title.clone() });
            acts.push(Action::ToolbarScript(history_add_js(url.as_str())));
            let on = bookmarks::is_bookmarked(&self.bookmarks, url.as_str());
            acts.push(Action::ToolbarScript(bookmark_state_js(on)));
            acts.push(Action::WindowTitle(window_title_text(url.as_str())));
            acts.push(Action::ToolbarScript(url_bar_js(url.as_str())));
            acts.push(Action::ToolbarScript(tabs_js(&self.tabs, self.open_count, self.active, self.max_tabs)));
        }
        assert(action_views(acts@) =~= event_result(s, EventView::TabUrlChanged { tab: tab as nat, url: url@ }).1);
        acts
    }

    fn title_changed(&mut self, tab: usize, title: String) -> (acts: Vec<Action>)
        requires
            well_formed(old(self)@),
        ensures
            well_formed(final(self)@),
            (final(self)@, action_views(acts@)) == event_result(
                old(self)@,
                EventView::TabTitleChanged { tab: tab as nat, title: title@ },
            ),
    {
        let ghost s = self@;
        let named = !title.as_str().is_empty();
        if tab < MAX_TABS && named {
            let mut t = self.tabs[tab].duplicate();
            t.title = title.clone();
            let ghost before = self.tabs@;
            self.tabs[tab] = t;
            assert(tab_views(self.tabs@) =~= tab_views(before).update(tab as int, t@));
        }
        let mut acts: Vec<Action> = Vec::new();
        if tab == self.active && named {
            acts.push(Action::WindowTitle(window_title_text(title.as_str())));
            acts.push(Action::ToolbarScript(tabs_js(&self.tabs, self.open_count, self.active, self.max_tabs)));
        }
        assert(action_views(acts@) =~= event_result(s, EventView::TabTitleChanged { tab: tab as nat, title: title@ }).1);
        acts
    }

    /// Reacts to an event of the window or its pages.
    pub fn handle_event(&mut self, event: Event) -> (acts: Vec<Action>)
        ensures
            well_formed(final(self)@),
            (final(self)@, action_views(acts@)) == event_result(old(self)@, event@),
    {
        proof {
            use_type_invariant(&*self);
        }
        let ghost e = event@;
        let mut acts: Vec<Action> = Vec::new();
        match event {
            Event::TabUrlChanged { tab, url } => {
                return self.url_changed(tab, url);
            },
            Event::TabTitleChanged { tab, title } => {
                return self.title_changed(tab, title);
            },
            Event::PageContent { tab, url, content } => {
                if tab == self.active {
                    acts.push(Action::Summarize { url, content });
                }
            },
            Event::AgentResult { text } => {
                acts.push(Action::ToolbarScript(agent_panel_js(text.as_str())));
            },
            Event::Resized { width, height } => {
                self.width = width;
                self.height = height;
                acts.push(Action::ToolbarBounds { width });
                acts.push(Action::LayoutTabs { active: self.active, width, height });
            },
            Event::DownloadStarted { filename } => {
                acts.push(Action::ToolbarScript(download_js(filename.as_str(), "started")));
            },
            Event::DownloadFinished { filename, success } => {
                let status = if success {
                    "done"
                } else {
                    "error"
                };
                acts.push(Action::ToolbarScript(download_js(filename.as_str(), status)));
            },
            Event::CloseRequested => {
                acts.push(Action::Exit);
            },
        }
        assert(action_views(acts@) =~= event_result(old(self)@, e).1);
        acts
    }

    /// The actions at start-up, given the history suggestions.
    pub fn startup(&self, history_urls: &Vec<String>) -> (acts: Vec<Action>)
        ensures
            action_views(acts@) == startup_actions(self@, history_urls@.map_values(|u: String| u@)),
    {
        proof {
            use_type_invariant(self);
        }
        let mut acts: Vec<Action> = Vec::new();
        acts.push(Action::ToolbarScript(tabs_js(&self.tabs, self.open_count, self.active, self.max_tabs)));
        acts.push(Action::ToolbarScript(history_list_js(history_urls)));
        let on = bookmarks::is_bookmarked(&self.bookmarks, self.home.as_str());
        acts.push(Action::ToolbarScript(bookmark_state_js(on)));
        assert(action_views(acts@) =~= startup_actions(self@, history_urls@.map_values(|u: String| u@)));
        acts
    }
}

} // verus!

verus! {

impl Browser {
    /// The address of tab slot `i`, if there is such a slot.
    pub fn tab_url(&self, i: usize) -> (r: Option<&str>)
        ensures
            i < self@.tabs.len() ==> (r matches Some(u) && u@ == self@.tabs[i as int].url),
            i >= self@.tabs.len() ==> r is None,
    {
        if i < self.tabs.len() {
            Some(self.tabs[i].url.as_str())
        } else {
            None
        }
    }

    /// The bookmarks, newest first (what `Action::SaveBookmarks` writes to disk).
    pub fn bookmarks(&self) -> (r: &Vec<Bookmark>)
        ensures
            r@ == self@.bookmarks,
    {
        &self.bookmarks
    }

    /// The shown tab.
    pub fn active(&self) -> (r: usize)
        ensures
            r == self@.active,
    {
        self.active
    }
}

/// Opening a tab below the limit shows the new tab at once: it follows the open tabs and is on
/// the home page in the default mode. At the limit nothing happens.
pub proof fn law_new_tab_is_shown(s: BrowserView)
    requires
        well_formed(s),
    ensures
        s.open_count < s.max_tabs ==> {
            let t = command_result(s, CommandView::NewTab).0;
            &&& t.active == s.open_count
            &&& t.open_count == s.open_count + 1
            &&& t.tabs[t.active as int] == new_tab(s.home, s.default_mode)
        },
        s.open_count >= s.max_tabs ==> command_result(s, CommandView::NewTab) == (s, Seq::<ActionView>::empty()),
{
}

/// Closing a tab to the left of the shown one leaves the same page shown.
pub proof fn law_close_left_tab_keeps_shown_tab(s: BrowserView, idx: nat)
    requires
        well_formed(s),
        s.open_count >= 2,
        idx < s.active,
    ensures
        ({
            let t = command_result(s, CommandView::CloseTab { index: idx }).0;
            t.tabs[t.active as int] == s.tabs[s.active as int]
        }),
{
    let t = close_result(s, idx);
    assert(idx != usize::MAX as nat);
}

/// Closing the shown tab, or one to its right, shows a neighbour of the closed tab: the
/// next tab, or the previous one when the closed tab was the last open tab.
pub proof fn law_close_shows_neighbour(s: BrowserView, idx: nat)
    requires
        well_formed(s),
        s.open_count >= 2,
        s.active <= idx < s.open_count,
    ensures
        ({
            let t = command_result(s, CommandView::CloseTab { index: idx }).0;
            t.tabs[t.active as int] == if idx + 1 < s.open_count {
                s.tabs[idx + 1int]
            } else {
                s.tabs[idx - 1]
            }
        }),
{
}

/// Closing an open tab keeps the other open tabs in their order, one fewer.
pub proof fn law_close_keeps_tab_order(s: BrowserView, idx: nat)
    requires
        well_formed(s),
        s.open_count >= 2,
        idx < s.open_count,
        idx != usize::MAX as nat,
    ensures
        ({
            let t = command_result(s, CommandView::CloseTab { index: idx }).0;
            &&& t.open_count == s.open_count - 1
            &&& t.tabs.take(t.open_count as int) == s.tabs.take(idx as int) + s.tabs.subrange(
                idx + 1int,
                s.open_count as int,
            )
        }),
{
    let t = command_result(s, CommandView::CloseTab { index: idx }).0;
    assert(t.tabs.take(t.open_count as int) =~= s.tabs.take(idx as int) + s.tabs.subrange(
        idx + 1int,
        s.open_count as int,
    ));
}

/// Closing the only open tab does not close the browser: the tab returns to the home page.
pub proof fn law_close_last_tab_goes_home(s: BrowserView, index: nat)
    requires
        well_formed(s),
        s.open_count == 1,
    ensures
        ({
            let (t, acts) = command_result(s, CommandView::CloseTab { index });
            &&& t.open_count == 1
            &&& t.active == 0
            &&& t.tabs[0] == new_tab(s.home, s.default_mode)
            &&& !acts.contains(ActionView::Exit)
        }),
{
    let (t, acts) = command_result(s, CommandView::CloseTab { index });
    assert(acts[0] != ActionView::Exit);
    assert(acts[1] != ActionView::Exit);
}

/// Going to the next tab and then to the previous one comes back to the same tab.
pub proof fn law_next_then_prev_returns(s: BrowserView)
    requires
        well_formed(s),
        s.open_count > 1,
    ensures
        command_result(command_result(s, CommandView::NextTab).0, CommandView::PrevTab).0.active
            == s.active,
{
    if s.active + 1 < s.open_count {
        vstd::arithmetic::div_mod::lemma_small_mod((s.active + 1) as nat, s.open_count);
    } else {
        vstd::arithmetic::div_mod::lemma_mod_self_0(s.open_count as int);
    }
}

/// Each tab keeps its own mode: after setting a mode, switching to any open tab and back
/// brings that mode back.
pub proof fn law_tab_mode_survives_switching(s: BrowserView, mode: Seq<char>, other: nat)
    requires
        well_formed(s),
        other < s.open_count,
    ensures
        ({
            let s1 = command_result(s, CommandView::SetMode { mode }).0;
            let s2 = command_result(s1, CommandView::SwitchTab { index: other }).0;
            let s3 = command_result(s2, CommandView::SwitchTab { index: s.active }).0;
            s3.cur_mode == mode && s3.active == s.active
        }),
{
}

/// Turning reader mode on and off again leaves the tab as it was, and the second toggle
/// restores the page by reloading it.
pub proof fn law_reader_mode_toggle_twice(s: BrowserView)
    requires
        well_formed(s),
        !s.tabs[s.active as int].reader_mode,
    ensures
        ({
            let (s1, a1) = command_result(s, CommandView::ReaderMode);
            let (s2, a2) = command_result(s1, CommandView::ReaderMode);
            &&& s1.tabs[s.active as int].reader_mode
            &&& s2 == s
            &&& a2[0] == ActionView::PageScript { tab: s.active, script: "location.reload()"@ }
        }),
{
    let (s1, a1) = command_result(s, CommandView::ReaderMode);
    let (s2, a2) = command_result(s1, CommandView::ReaderMode);
    assert(s2.tabs =~= s.tabs);
}

/// Page text is sent to the agent only from the shown tab.
pub proof fn law_summary_only_from_shown_tab(s: BrowserView, tab: nat, url: Seq<char>, content: Seq<char>)
    requires
        well_formed(s),
        tab != s.active,
    ensures
        event_result(s, EventView::PageContent { tab, url, content }) == (s, Seq::<ActionView>::empty()),
{
}

/// Closing an open tab (when another stays open) reloads every moved tab in its new slot, in
/// slot order, with the page its record now holds, then blanks the freed last slot; only then
/// is the layout redrawn.
pub proof fn law_close_reloads_moved_tabs(s: BrowserView, idx: nat)
    requires
        well_formed(s),
        s.open_count >= 2,
        idx < s.open_count,
    ensures
        ({
            let (t, acts) = command_result(s, CommandView::CloseTab { index: idx });
            &&& forall|k: int|
                idx <= k < s.open_count - 1 ==> {
                    &&& #[trigger] acts[k - idx] == ActionView::LoadUrl { tab: k as nat, url: s.tabs[k + 1].url }
                    &&& t.tabs[k] == s.tabs[k + 1]
                }
            &&& acts[s.open_count - 1 - idx] == ActionView::LoadUrl {
                tab: (s.open_count - 1) as nat,
                url: "about:blank"@,
            }
            &&& acts[s.open_count - idx] is LayoutTabs
            &&& forall|j: int| 0 <= j < s.open_count - idx ==> #[trigger] acts[j] is LoadUrl
        }),
{
    assert(idx != usize::MAX as nat);
    let (t, acts) = command_result(s, CommandView::CloseTab { index: idx });
    let loads = close_loads(s, idx);
    assert(loads.len() == s.open_count - idx);
    assert forall|k: int| idx <= k < s.open_count - 1 implies {
        &&& #[trigger] acts[k - idx] == ActionView::LoadUrl { tab: k as nat, url: s.tabs[k + 1].url }
        &&& t.tabs[k] == s.tabs[k + 1]
    } by {
        assert(acts[k - idx] == loads[k - idx]);
    }
    assert(acts[s.open_count - 1 - idx] == loads[s.open_count - 1 - idx]);
    assert forall|j: int| 0 <= j < s.open_count - idx implies #[trigger] acts[j] is LoadUrl by {
        assert(acts[j] == loads[j]);
    }
}

/// Navigating (to a typed address, or home) loads the page in the shown tab and nowhere
/// else: the shown tab's record takes the address, leaves reader mode, and every other tab
/// slot is unchanged; the only load is for the shown tab.
pub proof fn law_navigation_loads_shown_tab(s: BrowserView, typed: Seq<char>, home: bool)
    requires
        well_formed(s),
    ensures
        ({
            let c = if home {
                CommandView::Home
            } else {
                CommandView::Navigate { url: typed }
            };
            let target = if home {
                s.home
            } else {
                normalized_url(typed)
            };
            let (t, acts) = command_result(s, c);
            &&& t.active == s.active
            &&& t.open_count == s.open_count
            &&& t.tabs.len() == s.tabs.len()
            &&& t.tabs[s.active as int].url == target
            &&& !t.tabs[s.active as int].reader_mode
            &&& forall|j: int| 0 <= j < s.tabs.len() && j != s.active ==> #[trigger] t.tabs[j] == s.tabs[j]
            &&& acts.contains(ActionView::LoadUrl { tab: s.active, url: target })
            &&& forall|i: int| 0 <= i < acts.len() && (#[trigger] acts[i] is LoadUrl) ==> acts[i]->LoadUrl_tab == s.active
        }),
{
    let target = if home {
        s.home
    } else {
        normalized_url(typed)
    };
    let acts = load_in_active(s, target).1;
    assert(acts[1] == ActionView::LoadUrl { tab: s.active, url: target });
}

/// Saving a bookmark bookmarks the page of the shown tab: when that page can be bookmarked and
/// is not listed yet it is put in front, with the shown tab's title (or its address when the
/// title is empty), and the rest of the list is kept; otherwise the list stays. Either way the
/// shown page is listed afterwards when it can be bookmarked, as the lit star says.
pub proof fn law_saved_bookmark_is_shown_page(s: BrowserView, t: BrowserView, acts: Seq<ActionView>)
    requires
        well_formed(s),
        save_bookmark_step(s, t, acts),
    ensures
        ({
            let tab = s.tabs[s.active as int];
            &&& (is_bookmarkable(tab.url) && !lists_url(s.bookmarks, tab.url)) ==> {
                &&& t.bookmarks.len() == s.bookmarks.len() + 1
                &&& t.bookmarks[0].url@ == tab.url
                &&& t.bookmarks[0].title@ == shown_title(tab.title, tab.url)
                &&& t.bookmarks.skip(1) == s.bookmarks
                &&& acts[0] == ActionView::SaveBookmarks
            }
            &&& !(is_bookmarkable(tab.url) && !lists_url(s.bookmarks, tab.url)) ==> t.bookmarks == s.bookmarks
            &&& is_bookmarkable(tab.url) ==> lists_url(t.bookmarks, tab.url)
            &&& acts.last() == ActionView::ToolbarScript(bookmark_state_script(true))
            &&& t.tabs == s.tabs && t.active == s.active
        }),
{
    let tab = s.tabs[s.active as int];
    if is_bookmarkable(tab.url) && !lists_url(s.bookmarks, tab.url) {
        assert(t.bookmarks[0].url@ == tab.url);
        assert(lists_url(t.bookmarks, tab.url));
    }
}

/// Setting a mode logs the change, records the mode on the shown tab (and as the current
/// mode), and injects into the shown tab the autoplay blocker in Lite and Normal and, after
/// it, the third-party script blocker in Lite; Full injects nothing.
pub proof fn law_mode_injects_its_blockers(s: BrowserView, mode: Seq<char>)
    requires
        well_formed(s),
    ensures
        ({
            let (t, acts) = command_result(s, CommandView::SetMode { mode });
            &&& acts[0] == ActionView::LogModeChange { old: s.cur_mode, new: mode }
            &&& t.cur_mode == mode
            &&& t.tabs[s.active as int].mode == mode
            &&& forall|j: int| 0 <= j < s.tabs.len() && j != s.active ==> #[trigger] t.tabs[j] == s.tabs[j]
            &&& mode == "lite"@ ==> acts.len() == 3
                && acts[1] == ActionView::PageScript { tab: s.active, script: BLOCK_AUTOPLAY_JS@ }
                && acts[2] == ActionView::PageScript { tab: s.active, script: BLOCK_3RD_PARTY_SCRIPTS_JS@ }
            &&& mode == "normal"@ ==> acts.len() == 2
                && acts[1] == ActionView::PageScript { tab: s.active, script: BLOCK_AUTOPLAY_JS@ }
            &&& mode != "lite"@ && mode != "normal"@ ==> acts.len() == 1
        }),
{
    reveal_strlit("lite");
    reveal_strlit("normal");
    let (t, acts) = command_result(s, CommandView::SetMode { mode });
    assert("lite"@ != "normal"@) by {
        assert("lite"@.len() != "normal"@.len());
    }
}

} // verus!

