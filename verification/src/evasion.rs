//! Browser-like request shaping for probes that should not look like a
//! scanner.  Drawing the random index and sending the request happen
//! outside the library; picking the headers and reading the verdict off a
//! status code are verified here.

use vstd::prelude::*;
use vstd::string::StringExecFns;

verus! {

/// A rotation of browser user agents and referrers for shaped probes.
#[derive(Debug, Clone)]
pub struct WafEvasionStrategy {
    pub user_agents: Vec<String>,
    pub referrers: Vec<String>,
}

impl WafEvasionStrategy {
    pub fn new() -> (r: Self)
        ensures
            r.user_agents@.len() == 3,
            r.referrers@.len() == 3,
    {
        let mut user_agents: Vec<String> = Vec::new();
        user_agents.push(
            <String as StringExecFns>::from_str(
                "Mozilla/5.0 (Windows NT 10.0; Win64; x64) AppleWebKit/537.36 (KHTML, like Gecko) Chrome/91.0.4472.124 Safari/537.36",
            ),
        );
        user_agents.push(
            <String as StringExecFns>::from_str(
                "Mozilla/5.0 (Macintosh; Intel Mac OS X 10_15_7) AppleWebKit/537.36 (KHTML, like Gecko) Chrome/90.0.4430.93 Safari/537.36",
            ),
        );
        user_agents.push(
            <String as StringExecFns>::from_str(
                "Mozilla/5.0 (X11; Linux x86_64) AppleWebKit/537.36 (KHTML, like Gecko) Chrome/92.0.4515.107 Safari/537.36",
            ),
        );
        let mut referrers: Vec<String> = Vec::new();
        referrers.push(<String as StringExecFns>::from_str("https://www.google.com"));
        referrers.push(<String as StringExecFns>::from_str("https://www.bing.com"));
        referrers.push(<String as StringExecFns>::from_str("https://duckduckgo.com"));
        WafEvasionStrategy { user_agents, referrers }
    }

    /// The user agent a drawn random number selects.
    pub fn pick_user_agent(&self, random: u64) -> (r: &String)
        requires
            self.user_agents@.len() > 0,
        ensures
            *r == self.user_agents@[(random as int) % (self.user_agents@.len() as int)],
    {
        let idx: usize = (random % (self.user_agents.len() as u64)) as usize;
        &self.user_agents[idx]
    }

    /// The referrer a drawn random number selects.
    pub fn pick_referrer(&self, random: u64) -> (r: &String)
        requires
            self.referrers@.len() > 0,
        ensures
            *r == self.referrers@[(random as int) % (self.referrers@.len() as int)],
    {
        let idx: usize = (random % (self.referrers.len() as u64)) as usize;
        &self.referrers[idx]
    }

    /// Whether a status code means the shaped request went through: only a
    /// plain success counts, a block or rate limit does not.
    pub fn classify_bypass(&self, status: u16) -> (r: bool)
        ensures
            r == (status == 200),
    {
        status == 200
    }
}

} // verus!
