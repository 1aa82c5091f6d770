//! The settings of a run.

use crate::filter::{all_compile, ExcludePatterns, PatternError};
use crate::pattern::regex_compiles;
use crate::text::texts;
use vstd::prelude::*;

verus! {

/// The host that is asked where the settings name none.
pub const DEFAULT_HOSTNAME: &'static str = "api.github.com";

/// The search that is run where the settings name none: the open pull
/// requests that involve the running user.
pub const DEFAULT_QUERY: &'static str = "is:open is:pr involves:@me";

/// How to reach the code-review service, and what to look for there.
#[derive(Debug)]
pub struct Github {
    pub personal_access_token: String,
    pub hostname: String,
    pub username: String,
    pub proxy_url: Option<String>,
    pub queries: Vec<String>,
    pub exclude_comment_patterns: Vec<String>,
}

/// Where to post the messages.
#[derive(Debug)]
pub struct Ntfy {
    pub base_url: String,
    pub topic: String,
}

/// Where the snapshot is kept between runs.
#[derive(Debug)]
pub struct Cache {
    pub path: String,
}

/// Where the browser keeps its session cookies.
#[derive(Debug)]
pub struct Firefox {
    pub cookies_file_path: String,
}

/// All settings of a run.
#[derive(Debug)]
pub struct Settings {
    pub github: Github,
    pub ntfy: Ntfy,
    pub cache: Cache,
    pub firefox: Option<Firefox>,
}

impl Github {
    /// The exclude patterns of these settings, checked: all of them if each
    /// compiles, else the first that does not.
    pub fn exclude_patterns(&self) -> (r: Result<ExcludePatterns, PatternError>)
        ensures
            match r {
                Ok(patterns) => patterns@ == texts(self.exclude_comment_patterns@) && all_compile(
                    texts(self.exclude_comment_patterns@),
                ),
                Err(e) => {
                    &&& e.index < self.exclude_comment_patterns.len()
                    &&& !regex_compiles(self.exclude_comment_patterns[e.index as int]@)
                    &&& all_compile(texts(self.exclude_comment_patterns@).take(e.index as int))
                },
            },
    {
        let mut sources: Vec<String> = Vec::new();
        let mut i: usize = 0;
        while i < self.exclude_comment_patterns.len()
            invariant
                i <= self.exclude_comment_patterns.len(),
                sources@.len() == i,
                forall|j: int| 0 <= j < i ==> sources@[j]@ == self.exclude_comment_patterns@[j]@,
            decreases self.exclude_comment_patterns.len() - i,
        {
            sources.push(self.exclude_comment_patterns[i].clone());
            i = i + 1;
        }
        assert(texts(sources@) =~= texts(self.exclude_comment_patterns@));
        ExcludePatterns::try_new(sources)
    }
}

} // verus!
