//! Settings: the defaults, and how the entries of `config/settings.toml` override them.
//! The memory alert threshold, a floating-point setting, is kept by the caller.

use vstd::prelude::*;

verus! {

/// `text` is a valid TOML document (toml's `from_str` accepts it).
pub uninterp spec fn is_toml_document(text: Seq<char>) -> bool;

/// An entry of a settings file, as toml reads it: absent, a string, an integer, a boolean,
/// or a value of some other kind (a float, a date, an array or a table).
#[derive(Debug, Clone, PartialEq, Eq)]
pub enum SettingEntry {
    Absent,
    Text(String),
    Integer(i64),
    Flag(bool),
    Other,
}

/// A settings entry as values.
pub enum SettingEntryView {
    Absent,
    Text(Seq<char>),
    Integer(i64),
    Flag(bool),
    Other,
}

impl View for SettingEntry {
    type V = SettingEntryView;

    open spec fn view(&self) -> SettingEntryView {
        match self {
            SettingEntry::Absent => SettingEntryView::Absent,
            SettingEntry::Text(s) => SettingEntryView::Text(s@),
            SettingEntry::Integer(n) => SettingEntryView::Integer(*n),
            SettingEntry::Flag(b) => SettingEntryView::Flag(*b),
            SettingEntry::Other => SettingEntryView::Other,
        }
    }
}

/// The entry `key` of table `section` of the TOML document `text`, as toml reads it
/// (`from_str`, then `Value::get` for the section and for the key); `Absent` when the text does
/// not parse, has no such table or the table has no such key.
pub uninterp spec fn toml_entry(text: Seq<char>, section: Seq<char>, key: Seq<char>) -> SettingEntryView;

/// Whether toml's `from_str` accepts `text` as a TOML document (`text.parse::<toml::Value>()`).
#[verifier::external_body]
fn toml_parses(text: &str) -> (r: bool)
    ensures
        r == is_toml_document(text@),
{
    text.parse::<toml::Value>().is_ok()
}

/// Entry `key` of table `section` of the TOML document `text`: toml's `from_str` parses the
/// text, `Value::get` takes the table and then the entry, and the entry's kind is told apart
/// by `toml::Value`'s variants. The result depends on the three texts alone; it is named
/// `toml_entry`, as toml's grammar takes pages to state.
#[verifier::external_body]
fn lookup(text: &str, section: &str, key: &str) -> (r: SettingEntry)
    ensures
        r@ == toml_entry(text@, section@, key@),
{
    let Ok(doc) = text.parse::<toml::Value>() else { return SettingEntry::Absent };
    let Some(table) = doc.get(section) else { return SettingEntry::Absent };
    match table.get(key) {
        Some(toml::Value::String(s)) => SettingEntry::Text(s.clone()),
        Some(toml::Value::Integer(n)) => SettingEntry::Integer(*n),
        Some(toml::Value::Boolean(b)) => SettingEntry::Flag(*b),
        Some(_) => SettingEntry::Other,
        None => SettingEntry::Absent,
    }
}

/// The text of an entry that is a string.
pub open spec fn entry_text(e: SettingEntryView) -> Option<Seq<char>> {
    match e {
        SettingEntryView::Text(s) => Some(s),
        _ => None,
    }
}

/// The number of an entry that is an integer.
pub open spec fn entry_integer(e: SettingEntryView) -> Option<i64> {
    match e {
        SettingEntryView::Integer(n) => Some(n),
        _ => None,
    }
}

/// The truth value of an entry that is a boolean.
pub open spec fn entry_flag(e: SettingEntryView) -> Option<bool> {
    match e {
        SettingEntryView::Flag(b) => Some(b),
        _ => None,
    }
}

/// The browser settings.
#[derive(Debug, Clone, PartialEq, Eq)]
pub struct Config {
    pub max_tabs: usize,
    pub default_mode: String,
    pub home_url: String,
    pub block_trackers: bool,
    pub block_ads: bool,
    pub agent_enabled: bool,
    pub agent_base_url: String,
    pub agent_timeout: u64,
    pub log_enabled: bool,
}

/// The entries found in a settings file, each `None` when absent or of another type:
/// `browser.max_tabs`, `browser.default_mode`, `browser.home_url`,
/// `blocklists.block_trackers`, `blocklists.block_ads`, `agent.enabled`, `agent.base_url`,
/// `agent.timeout_seconds`, `logging.enabled`.
#[derive(Debug, Clone, PartialEq, Eq)]
pub struct SettingsOverrides {
    pub max_tabs: Option<i64>,
    pub default_mode: Option<String>,
    pub home_url: Option<String>,
    pub block_trackers: Option<bool>,
    pub block_ads: Option<bool>,
    pub agent_enabled: Option<bool>,
    pub agent_base_url: Option<String>,
    pub agent_timeout: Option<i64>,
    pub log_enabled: Option<bool>,
}

/// The default settings.
pub open spec fn is_default(c: Config) -> bool {
    &&& c.max_tabs == 5
    &&& c.default_mode@ == "normal"@
    &&& c.home_url@ == "https://duckduckgo.com"@
    &&& c.block_trackers
    &&& c.block_ads
    &&& c.agent_enabled
    &&& c.agent_base_url@ == "http://localhost:8742"@
    &&& c.agent_timeout == 10
    &&& c.log_enabled
}

pub open spec fn text_or(o: Option<String>, d: Seq<char>) -> Seq<char> {
    match o {
        Some(s) => s@,
        None => d,
    }
}

pub open spec fn flag_or(o: Option<bool>, d: bool) -> bool {
    match o {
        Some(b) => b,
        None => d,
    }
}

impl Default for Config {
    fn default() -> (c: Config)
        ensures
            is_default(c),
    {
        Config::defaults()
    }
}

/// `c` is the default settings with the entries of `o` in place of the defaults. Integer
/// entries are converted with `as`, so a negative number wraps around.
pub open spec fn overridden(c: Config, o: SettingsOverrides) -> bool {
    &&& c.max_tabs == match o.max_tabs {
        Some(v) => v as usize,
        None => 5,
    }
    &&& c.default_mode@ == text_or(o.default_mode, "normal"@)
    &&& c.home_url@ == text_or(o.home_url, "https://duckduckgo.com"@)
    &&& c.block_trackers == flag_or(o.block_trackers, true)
    &&& c.block_ads == flag_or(o.block_ads, true)
    &&& c.agent_enabled == flag_or(o.agent_enabled, true)
    &&& c.agent_base_url@ == text_or(o.agent_base_url, "http://localhost:8742"@)
    &&& c.agent_timeout == match o.agent_timeout {
        Some(v) => v as u64,
        None => 10,
    }
    &&& c.log_enabled == flag_or(o.log_enabled, true)
}

fn text_or_default(o: Option<String>, d: &str) -> (r: String)
    ensures
        r@ == text_or(o, d@),
{
    match o {
        Some(s) => s,
        None => d.to_owned(),
    }
}

fn flag_or_default(o: Option<bool>, d: bool) -> (r: bool)
    ensures
        r == flag_or(o, d),
{
    match o {
        Some(b) => b,
        None => d,
    }
}

/// The views of an optional text.
pub open spec fn opt_view(o: Option<String>) -> Option<Seq<char>> {
    match o {
        Some(s) => Some(s@),
        None => None,
    }
}

/// The text of entry `key` of table `section`: `None` when the entry is absent or not a string.
fn lookup_text(text: &str, section: &str, key: &str) -> (r: Option<String>)
    ensures
        opt_view(r) == entry_text(toml_entry(text@, section@, key@)),
{
    match lookup(text, section, key) {
        SettingEntry::Text(s) => Some(s),
        _ => None,
    }
}

/// The number of entry `key` of table `section`: `None` when the entry is absent or not an
/// integer.
fn lookup_integer(text: &str, section: &str, key: &str) -> (r: Option<i64>)
    ensures
        r == entry_integer(toml_entry(text@, section@, key@)),
{
    match lookup(text, section, key) {
        SettingEntry::Integer(n) => Some(n),
        _ => None,
    }
}

/// The truth value of entry `key` of table `section`: `None` when the entry is absent or not a
/// boolean.
fn lookup_flag(text: &str, section: &str, key: &str) -> (r: Option<bool>)
    ensures
        r == entry_flag(toml_entry(text@, section@, key@)),
{
    match lookup(text, section, key) {
        SettingEntry::Flag(b) => Some(b),
        _ => None,
    }
}

/// The text setting read from entry `key` of table `section`, or `d` when that entry is not
/// a string.
pub open spec fn text_setting(text: Seq<char>, section: Seq<char>, key: Seq<char>, d: Seq<char>) -> Seq<char> {
    match entry_text(toml_entry(text, section, key)) {
        Some(s) => s,
        None => d,
    }
}

/// The switch read from entry `key` of table `section`, or `d` when that entry is not a
/// boolean.
pub open spec fn flag_setting(text: Seq<char>, section: Seq<char>, key: Seq<char>, d: bool) -> bool {
    match entry_flag(toml_entry(text, section, key)) {
        Some(b) => b,
        None => d,
    }
}

/// `c` is what the settings text `text` describes: each field is read from its entry when that
/// entry has the field's kind (integers converted with `as`), and keeps its default otherwise.
pub open spec fn read_from(c: Config, text: Seq<char>) -> bool {
    &&& c.max_tabs == match entry_integer(toml_entry(text, "browser"@, "max_tabs"@)) {
        Some(v) => v as usize,
        None => 5,
    }
    &&& c.default_mode@ == text_setting(text, "browser"@, "default_mode"@, "normal"@)
    &&& c.home_url@ == text_setting(text, "browser"@, "home_url"@, "https://duckduckgo.com"@)
    &&& c.block_trackers == flag_setting(text, "blocklists"@, "block_trackers"@, true)
    &&& c.block_ads == flag_setting(text, "blocklists"@, "block_ads"@, true)
    &&& c.agent_enabled == flag_setting(text, "agent"@, "enabled"@, true)
    &&& c.agent_base_url@ == text_setting(text, "agent"@, "base_url"@, "http://localhost:8742"@)
    &&& c.agent_timeout == match entry_integer(toml_entry(text, "agent"@, "timeout_seconds"@)) {
        Some(v) => v as u64,
        None => 10,
    }
    &&& c.log_enabled == flag_setting(text, "logging"@, "enabled"@, true)
}

/// The overrides that the entries of `text` give.
pub open spec fn overrides_of(o: SettingsOverrides, text: Seq<char>) -> bool {
    &&& o.max_tabs == entry_integer(toml_entry(text, "browser"@, "max_tabs"@))
    &&& opt_view(o.default_mode) == entry_text(toml_entry(text, "browser"@, "default_mode"@))
    &&& opt_view(o.home_url) == entry_text(toml_entry(text, "browser"@, "home_url"@))
    &&& o.block_trackers == entry_flag(toml_entry(text, "blocklists"@, "block_trackers"@))
    &&& o.block_ads == entry_flag(toml_entry(text, "blocklists"@, "block_ads"@))
    &&& o.agent_enabled == entry_flag(toml_entry(text, "agent"@, "enabled"@))
    &&& opt_view(o.agent_base_url) == entry_text(toml_entry(text, "agent"@, "base_url"@))
    &&& o.agent_timeout == entry_integer(toml_entry(text, "agent"@, "timeout_seconds"@))
    &&& o.log_enabled == entry_flag(toml_entry(text, "logging"@, "enabled"@))
}

impl Config {
    /// The defaults used when there is no settings file.
    pub fn defaults() -> (c: Config)
        ensures
            is_default(c),
    {
        Config {
            max_tabs: 5,
            default_mode: "normal".to_owned(),
            home_url: "https://duckduckgo.com".to_owned(),
            block_trackers: true,
            block_ads: true,
            agent_enabled: true,
            agent_base_url: "http://localhost:8742".to_owned(),
            agent_timeout: 10,
            log_enabled: true,
        }
    }

    /// The defaults with every entry present in `o` in their place.
    pub fn with_overrides(o: SettingsOverrides) -> (c: Config)
        ensures
            overridden(c, o),
    {
        let max_tabs: usize = match o.max_tabs {
            Some(v) => v as usize,
            None => 5,
        };
        let agent_timeout: u64 = match o.agent_timeout {
            Some(v) => v as u64,
            None => 10,
        };
        Config {
            max_tabs,
            default_mode: text_or_default(o.default_mode, "normal"),
            home_url: text_or_default(o.home_url, "https://duckduckgo.com"),
            block_trackers: flag_or_default(o.block_trackers, true),
            block_ads: flag_or_default(o.block_ads, true),
            agent_enabled: flag_or_default(o.agent_enabled, true),
            agent_base_url: text_or_default(o.agent_base_url, "http://localhost:8742"),
            agent_timeout,
            log_enabled: flag_or_default(o.log_enabled, true),
        }
    }

    /// The entries that a settings text holds, or `None` when it is not valid TOML.
    fn overrides_from_text(text: &str) -> (r: Option<SettingsOverrides>)
        ensures
            r is Some <==> is_toml_document(text@),
            r matches Some(o) ==> overrides_of(o, text@),
    {
        if !toml_parses(text) {
            return None;
        }
        Some(
            SettingsOverrides {
                max_tabs: lookup_integer(text, "browser", "max_tabs"),
                default_mode: lookup_text(text, "browser", "default_mode"),
                home_url: lookup_text(text, "browser", "home_url"),
                block_trackers: lookup_flag(text, "blocklists", "block_trackers"),
                block_ads: lookup_flag(text, "blocklists", "block_ads"),
                agent_enabled: lookup_flag(text, "agent", "enabled"),
                agent_base_url: lookup_text(text, "agent", "base_url"),
                agent_timeout: lookup_integer(text, "agent", "timeout_seconds"),
                log_enabled: lookup_flag(text, "logging", "enabled"),
            },
        )
    }

    /// The settings a settings text describes: the defaults, overridden by each entry it
    /// holds that has the field's kind; `None` when the text is not valid TOML (the caller then
    /// keeps the defaults).
    pub fn from_settings_text(text: &str) -> (r: Option<Config>)
        ensures
            r is Some <==> is_toml_document(text@),
            r matches Some(c) ==> read_from(c, text@),
    {
        match Config::overrides_from_text(text) {
            Some(o) => {
                let c = Config::with_overrides(o);
                Some(c)
            },
            None => None,
        }
    }
}

} // verus!

verus! {

/// Each entry of the settings file feeds its own field: an entry of the field's kind replaces
/// the default, and an absent or wrongly typed entry leaves the default in place, whatever the
/// other entries hold.
pub proof fn law_settings_entries_feed_fields(c: Config, text: Seq<char>)
    requires
        read_from(c, text),
    ensures
        toml_entry(text, "browser"@, "max_tabs"@) matches SettingEntryView::Integer(v) ==> c.max_tabs == v as usize,
        !(toml_entry(text, "browser"@, "max_tabs"@) is Integer) ==> c.max_tabs == 5,
        toml_entry(text, "browser"@, "default_mode"@) matches SettingEntryView::Text(v) ==> c.default_mode@ == v,
        !(toml_entry(text, "browser"@, "default_mode"@) is Text) ==> c.default_mode@ == "normal"@,
        toml_entry(text, "browser"@, "home_url"@) matches SettingEntryView::Text(v) ==> c.home_url@ == v,
        !(toml_entry(text, "browser"@, "home_url"@) is Text) ==> c.home_url@ == "https://duckduckgo.com"@,
        toml_entry(text, "blocklists"@, "block_trackers"@) matches SettingEntryView::Flag(v) ==> c.block_trackers == v,
        !(toml_entry(text, "blocklists"@, "block_trackers"@) is Flag) ==> c.block_trackers,
        toml_entry(text, "blocklists"@, "block_ads"@) matches SettingEntryView::Flag(v) ==> c.block_ads == v,
        !(toml_entry(text, "blocklists"@, "block_ads"@) is Flag) ==> c.block_ads,
        toml_entry(text, "agent"@, "enabled"@) matches SettingEntryView::Flag(v) ==> c.agent_enabled == v,
        !(toml_entry(text, "agent"@, "enabled"@) is Flag) ==> c.agent_enabled,
        toml_entry(text, "agent"@, "base_url"@) matches SettingEntryView::Text(v) ==> c.agent_base_url@ == v,
        !(toml_entry(text, "agent"@, "base_url"@) is Text) ==> c.agent_base_url@ == "http://localhost:8742"@,
        toml_entry(text, "agent"@, "timeout_seconds"@) matches SettingEntryView::Integer(v) ==> c.agent_timeout == v as u64,
        !(toml_entry(text, "agent"@, "timeout_seconds"@) is Integer) ==> c.agent_timeout == 10,
        toml_entry(text, "logging"@, "enabled"@) matches SettingEntryView::Flag(v) ==> c.log_enabled == v,
        !(toml_entry(text, "logging"@, "enabled"@) is Flag) ==> c.log_enabled,
{
}

} // verus!
