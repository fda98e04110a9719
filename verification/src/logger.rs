//! The navigation log: which events are logged and the exact line each one adds to the log
//! file. Appending the line to the file is the caller's part.

use vstd::prelude::*;

use crate::clock::{is_timestamp, local_timestamp};
use crate::text::joined;

verus! {

/// Whether logging is on (the `logging.enabled` setting).
#[derive(Debug, Clone, PartialEq, Eq)]
pub struct Logger {
    pub enabled: bool,
}

/// Starts logging, or keeps it off for good when `enabled` is false.
pub fn init(enabled: bool) -> (l: Logger)
    ensures
        l.enabled == enabled,
{
    Logger { enabled }
}

/// The views of a list of strings.
pub open spec fn texts(parts: Seq<String>) -> Seq<Seq<char>> {
    parts.map_values(|p: String| p@)
}

/// A log line: the time, then the parts, all separated by ` | `, then a line feed.
pub open spec fn log_line(timestamp: Seq<char>, parts: Seq<Seq<char>>) -> Seq<char> {
    timestamp + " | "@ + joined(parts, " | "@) + "\n"@
}

/// The parts of a mode change entry.
pub open spec fn mode_change_parts(old: Seq<char>, new: Seq<char>) -> Seq<Seq<char>> {
    seq!["MODE"@, old + "->"@ + new]
}

/// The parts of an agent request entry.
pub open spec fn agent_request_parts(url: Seq<char>) -> Seq<Seq<char>> {
    seq!["AGENT_REQ"@, "url="@ + url]
}

/// The parts of a navigation entry; `ram` is the memory field, already formatted.
pub open spec fn navigation_parts(url: Seq<char>, mode: Seq<char>, ram: Seq<char>) -> Seq<Seq<char>> {
    seq!["NAV"@, "mode="@ + mode, "url="@ + url, ram]
}

fn append_joined(out: &mut String, parts: &Vec<String>)
    ensures
        final(out)@ == old(out)@ + joined(texts(parts@), " | "@),
{
    let n = parts.len();
    let mut i: usize = 0;
    while i < n
        invariant
            n == parts@.len(),
            i <= n,
            out@ == old(out)@ + joined(texts(parts@).take(i as int), " | "@),
        decreases n - i,
    {
        proof {
            let t = texts(parts@);
            assert(t.take(i + 1) =~= t.take(i as int).push(t[i as int]));
            crate::text::lemma_joined_push(t.take(i as int), " | "@, t[i as int]);
        }
        if i > 0 {
            out.append(" | ");
        }
        out.append(parts[i].as_str());
        i = i + 1;
    }
    assert(texts(parts@).take(n as int) =~= texts(parts@));
}

impl Logger {
    /// The line for an entry made of `parts` at `timestamp`, or `None` when logging is off.
    pub fn line_at(&self, timestamp: &str, parts: &Vec<String>) -> (r: Option<String>)
        ensures
            r is None <==> !self.enabled,
            r matches Some(l) ==> l@ == log_line(timestamp@, texts(parts@)),
    {
        if !self.enabled {
            return None;
        }
        let mut line = timestamp.to_owned();
        line.append(" | ");
        append_joined(&mut line, parts);
        line.append("\n");
        Some(line)
    }

    /// The line for an entry made of `parts`, stamped with the local time, or `None` when
    /// logging is off.
    pub fn line(&self, parts: &Vec<String>) -> (r: Option<String>)
        ensures
            r is None <==> !self.enabled,
            r matches Some(l) ==> exists|t: Seq<char>| is_timestamp(t) && l@ == log_line(t, texts(parts@)),
    {
        if !self.enabled {
            return None;
        }
        let now = local_timestamp();
        let r = self.line_at(now.as_str(), parts);
        proof {
            if r is Some {
                assert(r->0@ == log_line(now@, texts(parts@)));
            }
        }
        r
    }
}

/// The log line for a change of page mode from `old` to `new`.
pub fn log_mode_change(logger: &Logger, old: &str, new: &str) -> (r: Option<String>)
    ensures
        r is None <==> !logger.enabled,
        r matches Some(l) ==> exists|t: Seq<char>| is_timestamp(t) && l@ == log_line(t, mode_change_parts(old@, new@)),
{
    let mut change = old.to_owned();
    change.append("->");
    change.append(new);
    let parts = vec!["MODE".to_owned(), change];
    assert(texts(parts@) =~= mode_change_parts(old@, new@));
    logger.line(&parts)
}

/// The log line for a summary request about `url`.
pub fn log_agent_request(logger: &Logger, url: &str) -> (r: Option<String>)
    ensures
        r is None <==> !logger.enabled,
        r matches Some(l) ==> exists|t: Seq<char>| is_timestamp(t) && l@ == log_line(t, agent_request_parts(url@)),
{
    let mut field = "url=".to_owned();
    field.append(url);
    let parts = vec!["AGENT_REQ".to_owned(), field];
    assert(texts(parts@) =~= agent_request_parts(url@));
    logger.line(&parts)
}

/// The log line for a navigation to `url` in `mode`; `ram` is the memory field as the
/// caller formatted it (`ram=<MB with one decimal>MB`).
pub fn log_navigation(logger: &Logger, url: &str, mode: &str, ram: &str) -> (r: Option<String>)
    ensures
        r is None <==> !logger.enabled,
        r matches Some(l) ==> exists|t: Seq<char>| is_timestamp(t) && l@ == log_line(t, navigation_parts(url@, mode@, ram@)),
{
    let mut mode_field = "mode=".to_owned();
    mode_field.append(mode);
    let mut url_field = "url=".to_owned();
    url_field.append(url);
    let parts = vec!["NAV".to_owned(), mode_field, url_field, ram.to_owned()];
    assert(texts(parts@) =~= navigation_parts(url@, mode@, ram@));
    logger.line(&parts)
}

} // verus!
