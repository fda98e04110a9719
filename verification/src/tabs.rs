//! What the browser remembers of each tab.

use vstd::prelude::*;

verus! {

/// A tab's page, title and mode, whether it is open, and whether reader mode is on.
#[derive(Debug, Clone, PartialEq, Eq)]
pub struct TabMeta {
    pub url: String,
    pub title: String,
    pub mode: String,
    pub open: bool,
    pub reader_mode: bool,
}

/// The value of a tab's record.
pub struct TabView {
    pub url: Seq<char>,
    pub title: Seq<char>,
    pub mode: Seq<char>,
    pub open: bool,
    pub reader_mode: bool,
}

impl View for TabMeta {
    type V = TabView;

    open spec fn view(&self) -> TabView {
        TabView {
            url: self.url@,
            title: self.title@,
            mode: self.mode@,
            open: self.open,
            reader_mode: self.reader_mode,
        }
    }
}

/// A freshly opened tab on `url`.
pub open spec fn new_tab(url: Seq<char>, default_mode: Seq<char>) -> TabView {
    TabView { url, title: "New Tab"@, mode: default_mode, open: true, reader_mode: false }
}

/// An unused tab slot.
pub open spec fn blank_tab(default_mode: Seq<char>) -> TabView {
    TabView { url: "about:blank"@, title: Seq::empty(), mode: default_mode, open: false, reader_mode: false }
}

/// What names a tab: its title, or its URL while it has no title.
pub open spec fn title_or_url(t: TabView) -> Seq<char> {
    if t.title.len() == 0 {
        t.url
    } else {
        t.title
    }
}

impl TabMeta {
    pub fn new(url: &str, default_mode: &str) -> (t: TabMeta)
        ensures
            t@ == new_tab(url@, default_mode@),
    {
        TabMeta {
            url: url.to_owned(),
            title: "New Tab".to_owned(),
            mode: default_mode.to_owned(),
            open: true,
            reader_mode: false,
        }
    }

    pub fn blank(default_mode: &str) -> (t: TabMeta)
        ensures
            t@ == blank_tab(default_mode@),
    {
        TabMeta {
            url: "about:blank".to_owned(),
            title: String::new(),
            mode: default_mode.to_owned(),
            open: false,
            reader_mode: false,
        }
    }

    /// A field-by-field copy.
    pub fn duplicate(&self) -> (t: TabMeta)
        ensures
            t@ == self@,
    {
        TabMeta {
            url: self.url.clone(),
            title: self.title.clone(),
            mode: self.mode.clone(),
            open: self.open,
            reader_mode: self.reader_mode,
        }
    }
}

} // verus!
