//! The Bauer Agent client: which requests go to the local AI agent, and what the user is shown
//! of its answers. The HTTP exchange itself is done by the caller.

use vstd::prelude::*;
use crate::text::{chars_of, string_from_chars, sub_chars};

verus! {

/// How long the availability probe may take, in seconds.
pub const HEALTH_TIMEOUT_SECS: u64 = 3;

/// At most this many characters of page text are sent for a summary.
pub const CONTENT_LIMIT: usize = 8000;

/// Where the agent listens and whether it is used at all.
#[derive(Debug, Clone, PartialEq, Eq)]
pub struct AgentClient {
    pub base_url: String,
    pub timeout_secs: u64,
    pub enabled: bool,
}

/// A summary request: a JSON body `{"url": .., "content": .., "mode": ..}` posted to
/// `endpoint` with the given timeout.
#[derive(Debug, Clone, PartialEq, Eq)]
pub struct SummarizeRequest {
    pub endpoint: String,
    pub url: String,
    pub content: String,
    pub mode: String,
    pub timeout_secs: u64,
}

/// How many characters of a page text of `len` characters a summary request carries: all
/// of them, or the first `CONTENT_LIMIT` when the text is longer.
pub open spec fn content_prefix_len(len: nat) -> int {
    if len <= CONTENT_LIMIT {
        len as int
    } else {
        CONTENT_LIMIT as int
    }
}

/// The message shown when the agent cannot be reached.
pub open spec fn unavailable_message(base: Seq<char>) -> Seq<char> {
    "Bauer Agent não disponível.\nInicie em: "@ + base
}

/// What the result panel shows: the summary, the error, or that the agent is unreachable.
pub open spec fn result_text(base: Seq<char>, outcome: Option<Result<Seq<char>, Seq<char>>>) -> Seq<char> {
    match outcome {
        None => unavailable_message(base),
        Some(Ok(summary)) => summary,
        Some(Err(e)) => "Erro: "@ + e,
    }
}

impl AgentClient {
    pub fn new(base_url: String, timeout_secs: u64, enabled: bool) -> (c: AgentClient)
        ensures
            c.base_url == base_url,
            c.timeout_secs == timeout_secs,
            c.enabled == enabled,
    {
        AgentClient { base_url, timeout_secs, enabled }
    }

    /// The URL of the availability probe (`GET`, success status means available), or `None`
    /// when the agent is disabled and counts as unavailable without asking.
    pub fn health_url(&self) -> (r: Option<String>)
        ensures
            r is None <==> !self.enabled,
            r matches Some(u) ==> u@ == self.base_url@ + "/health"@,
    {
        if !self.enabled {
            return None;
        }
        let mut u = self.base_url.clone();
        u.append("/health");
        Some(u)
    }

    /// The request that asks for a summary of a page, or the error `Agent disabled`. The page
    /// text is cut to its first `CONTENT_LIMIT` characters.
    pub fn summarize_request(&self, url: &str, content: &str) -> (r: Result<SummarizeRequest, String>)
        ensures
            !self.enabled ==> (r matches Err(e) && e@ == "Agent disabled"@),
            self.enabled ==> (r matches Ok(req) && {
                &&& req.endpoint@ == self.base_url@ + "/summarize"@
                &&& req.url@ == url@
                &&& req.content@ == content@.take(content_prefix_len(content@.len()))
                &&& req.mode@ == "summary"@
                &&& req.timeout_secs == self.timeout_secs
            }),
    {
        if !self.enabled {
            return Err("Agent disabled".to_owned());
        }
        let mut endpoint = self.base_url.clone();
        endpoint.append("/summarize");
        let chars = chars_of(content);
        let n = chars.len();
        let cut = if n <= CONTENT_LIMIT {
            n
        } else {
            CONTENT_LIMIT
        };
        let head = sub_chars(&chars, 0, cut);
        let head_text = string_from_chars(&head);
        proof {
            assert(chars@.subrange(0, cut as int) =~= content@.take(cut as int));
        }
        Ok(
            SummarizeRequest {
                endpoint,
                url: url.to_owned(),
                content: head_text,
                mode: "summary".to_owned(),
                timeout_secs: self.timeout_secs,
            },
        )
    }

    /// The text of a summary reply: its `summary` field when that is a string, else a
    /// placeholder.
    pub fn summary_from_reply(summary: Option<String>) -> (r: String)
        ensures
            r@ == match summary {
                Some(s) => s@,
                None => "(sem resposta)"@,
            },
    {
        match summary {
            Some(s) => s,
            None => "(sem resposta)".to_owned(),
        }
    }

    /// What the agent panel shows after a summary attempt: `None` when the agent was not
    /// available, else the summary or the error.
    pub fn result_message(&self, outcome: Option<Result<String, String>>) -> (r: String)
        ensures
            r@ == result_text(
                self.base_url@,
                match outcome {
                    None => None,
                    Some(Ok(s)) => Some(Ok(s@)),
                    Some(Err(e)) => Some(Err(e@)),
                },
            ),
    {
        match outcome {
            None => {
                let mut m = "Bauer Agent não disponível.\nInicie em: ".to_owned();
                m.append(self.base_url.as_str());
                m
            },
            Some(Ok(s)) => s,
            Some(Err(e)) => {
                let mut m = "Erro: ".to_owned();
                m.append(e.as_str());
                m
            },
        }
    }
}

} // verus!

verus! {

/// A summary request never carries more than `CONTENT_LIMIT` characters of page text, what it
/// carries is the start of the page text, and a page text within the limit is sent whole.
pub proof fn law_summary_content_within_limit(page: Seq<char>, sent: Seq<char>)
    requires
        sent == page.take(content_prefix_len(page.len())),
    ensures
        sent.len() <= CONTENT_LIMIT,
        sent.is_prefix_of(page),
        page.len() <= CONTENT_LIMIT ==> sent == page,
{
    if page.len() <= CONTENT_LIMIT {
        assert(page.take(page.len() as int) =~= page);
    }
    assert(sent =~= page.subrange(0, sent.len() as int));
}

} // verus!
