//! The noise filter: which comments and reviews never count as activity.
//!
//! A record is noise when the running user wrote it, or when its text matches
//! one of the configured exclude patterns.  A pending review is noise too.
//! Noise is dropped before anything else looks at the record.

use crate::clients::github;
use crate::pattern::{check_pattern, regex_compiles, regex_is_match, search};
use crate::text::texts;
use vstd::prelude::*;

verus! {

/// Every pattern of the list is accepted by the expression compiler.
pub open spec fn all_compile(patterns: Seq<Seq<char>>) -> bool {
    forall|i: int| 0 <= i < patterns.len() ==> regex_compiles(#[trigger] patterns[i])
}

/// Some pattern of the list matches somewhere in `body`.
pub open spec fn pattern_excluded(body: Seq<char>, patterns: Seq<Seq<char>>) -> bool {
    exists|i: int| 0 <= i < patterns.len() && regex_is_match(#[trigger] patterns[i], body)
}

/// The comment is noise for the user `username` under `patterns`.
pub open spec fn comment_excluded(
    c: github::CommentView,
    username: Seq<char>,
    patterns: Seq<Seq<char>>,
) -> bool {
    c.login == username || pattern_excluded(c.body, patterns)
}

/// The review is noise for the user `username` under `patterns`.
pub open spec fn review_excluded(
    r: github::ReviewView,
    username: Seq<char>,
    patterns: Seq<Seq<char>>,
) -> bool {
    r.state == github::ReviewState::Pending || r.login == username || pattern_excluded(
        r.body,
        patterns,
    )
}

/// The first pattern of a list that the expression compiler refused.
#[derive(Debug)]
pub struct PatternError {
    /// Where the pattern stands in the list.
    pub index: usize,
    /// What the compiler said of it.
    pub reason: regex::Error,
}

/// The exclude patterns of a run.  Each of them compiles.
pub struct ExcludePatterns {
    sources: Vec<String>,
}

impl View for ExcludePatterns {
    type V = Seq<Seq<char>>;

    closed spec fn view(&self) -> Seq<Seq<char>> {
        texts(self.sources@)
    }
}

impl ExcludePatterns {
    #[verifier::type_invariant]
    spec fn compiles(self) -> bool {
        all_compile(texts(self.sources@))
    }

    /// Checks the patterns in order and keeps them if all compile.  Fails at
    /// the first one that does not.
    pub fn try_new(sources: Vec<String>) -> (r: Result<Self, PatternError>)
        ensures
            match r {
                Ok(patterns) => patterns@ == texts(sources@) && all_compile(texts(sources@)),
                Err(e) => {
                    &&& e.index < sources.len()
                    &&& !regex_compiles(sources[e.index as int]@)
                    &&& all_compile(texts(sources@).take(e.index as int))
                },
            },
    {
        let mut i: usize = 0;
        while i < sources.len()
            invariant
                i <= sources.len(),
                all_compile(texts(sources@).take(i as int)),
            decreases sources.len() - i,
        {
            match check_pattern(sources[i].as_str()) {
                Ok(_) => {},
                Err(reason) => {
                    return Err(PatternError { index: i, reason });
                },
            }
            i = i + 1;
        }
        assert(texts(sources@).take(i as int) =~= texts(sources@));
        Ok(Self { sources })
    }

    /// Whether some pattern matches somewhere in `text`.
    pub fn matches_any(&self, text: &str) -> (found: bool)
        ensures
            found == pattern_excluded(text@, self@),
    {
        proof {
            use_type_invariant(self);
        }
        let mut i: usize = 0;
        while i < self.sources.len()
            invariant
                i <= self.sources.len(),
                all_compile(texts(self.sources@)),
                forall|j: int| 0 <= j < i ==> !regex_is_match(#[trigger] self@[j], text@),
            decreases self.sources.len() - i,
        {
            let hit = match search(self.sources[i].as_str(), text) {
                Ok(found) => found,
                Err(_) => false,
            };
            if hit {
                assert(regex_is_match(self@[i as int], text@));
                return true;
            }
            i = i + 1;
        }
        false
    }
}

/// Whether a record with this text is dropped because of its text alone.
pub fn is_comment_filtered(body: &str, exclude_comment_patterns: &ExcludePatterns) -> (filtered:
    bool)
    ensures
        filtered == pattern_excluded(body@, exclude_comment_patterns@),
{
    exclude_comment_patterns.matches_any(body)
}

/// Whether the comment is noise: its author is the running user, or its text
/// matches an exclude pattern.
pub fn is_comment_excluded(
    comment: &github::Comment,
    username: &String,
    exclude_comment_patterns: &ExcludePatterns,
) -> (excluded: bool)
    ensures
        excluded == comment_excluded(comment@, username@, exclude_comment_patterns@),
{
    comment.user.login == *username || is_comment_filtered(
        comment.body.as_str(),
        exclude_comment_patterns,
    )
}

/// Whether the review is noise: it is pending, its author is the running
/// user, or its text matches an exclude pattern.
pub fn is_review_excluded(
    review: &github::Review,
    username: &String,
    exclude_comment_patterns: &ExcludePatterns,
) -> (excluded: bool)
    ensures
        excluded == review_excluded(review@, username@, exclude_comment_patterns@),
{
    match review.state {
        github::ReviewState::Pending => true,
        _ => review.user.login == *username || is_comment_filtered(
            review.body.as_str(),
            exclude_comment_patterns,
        ),
    }
}

} // verus!
