//! The uniform model of a pull request's discussion: issue comments and
//! reviews, and the message text that announces each of them.

use crate::clients::github;
use crate::text::{decimal, decimal_string, texts};
use vstd::prelude::*;
use vstd::string::*;

verus! {

/// What a [`Comment`] holds, as plain text.
pub struct CommentView {
    pub author: Seq<char>,
    pub body: Seq<char>,
    pub pr_url: Seq<char>,
    pub url: Seq<char>,
}

/// One issue-level comment of a pull request.
#[derive(Debug)]
pub struct Comment {
    author: String,
    body: String,
    pub pr_url: String,
    pub url: String,
}

impl View for Comment {
    type V = CommentView;

    closed spec fn view(&self) -> CommentView {
        CommentView {
            author: self.author@,
            body: self.body@,
            pr_url: self.pr_url@,
            url: self.url@,
        }
    }
}

/// The message that announces a comment: who wrote it, a blank line, and
/// what they wrote.
pub open spec fn comment_text(c: CommentView) -> Seq<char> {
    "@"@ + c.author + " commented:\n\n"@ + c.body
}

impl Comment {
    pub fn new(author: String, body: String, pr_url: String, url: String) -> (c: Self)
        ensures
            c@ == (CommentView { author: author@, body: body@, pr_url: pr_url@, url: url@ }),
    {
        Self { body, author, pr_url, url }
    }

    /// The address of the pull request that the comment belongs to.
    pub fn pull_request_url(&self) -> (url: &String)
        ensures
            url@ == self@.pr_url,
    {
        &self.pr_url
    }

    /// The address of the comment itself.
    pub fn permalink(&self) -> (url: &String)
        ensures
            url@ == self@.url,
    {
        &self.url
    }

    /// The message text of this comment.
    pub fn to_string(&self) -> (s: String)
        ensures
            s@ == comment_text(self@),
    {
        let mut s = String::from_str("@");
        s.append(self.author.as_str());
        s.append(" commented:\n\n");
        s.append(self.body.as_str());
        s
    }
}

/// The verdict that a submitted review carries.
#[derive(Debug, Clone, Copy, PartialEq, Eq, Structural)]
pub enum ReviewState {
    Commented,
    Approved,
    ChangesRequested,
}

/// The verdict of a review in the state that the service reports.  A pending
/// review has none.
pub open spec fn submitted_state(state: github::ReviewState) -> Option<ReviewState> {
    match state {
        github::ReviewState::Commented => Some(ReviewState::Commented),
        github::ReviewState::Approved => Some(ReviewState::Approved),
        github::ReviewState::ChangesRequested => Some(ReviewState::ChangesRequested),
        github::ReviewState::Pending => None,
    }
}

impl ReviewState {
    /// The verdict of a review in the state that the service reports.  A
    /// pending review has none.
    pub fn from_remote(value: github::ReviewState) -> (state: Option<Self>)
        ensures
            state == submitted_state(value),
    {
        match value {
            github::ReviewState::Approved => Some(Self::Approved),
            github::ReviewState::ChangesRequested => Some(Self::ChangesRequested),
            github::ReviewState::Commented => Some(Self::Commented),
            github::ReviewState::Pending => None,
        }
    }
}

/// What a [`Review`] holds, as plain text.
pub struct ReviewView {
    pub author: Seq<char>,
    pub state: ReviewState,
    pub body: Option<Seq<char>>,
    pub comments: Seq<Seq<char>>,
    pub pr_url: Seq<char>,
    pub url: Seq<char>,
}

impl ReviewView {
    /// A review keeps a summary only if it has text.
    pub open spec fn well_formed(self) -> bool {
        self.body matches Some(text) ==> text.len() > 0
    }

    /// The same review with one more thread comment at the end.
    pub open spec fn with_comment(self, comment: Seq<char>) -> ReviewView {
        ReviewView { comments: self.comments.push(comment), ..self }
    }
}

/// One submitted review of a pull request, with the thread comments that
/// were attached to it.
#[derive(Debug)]
pub struct Review {
    author: String,
    state: ReviewState,
    body: Option<String>,
    comments: Vec<String>,
    pub pr_url: String,
    pub url: String,
}

impl View for Review {
    type V = ReviewView;

    closed spec fn view(&self) -> ReviewView {
        ReviewView {
            author: self.author@,
            state: self.state,
            body: match self.body {
                Some(text) => Some(text@),
                None => None,
            },
            comments: texts(self.comments@),
            pr_url: self.pr_url@,
            url: self.url@,
        }
    }
}

/// The first line of a review's message: who reviewed, and with what verdict.
pub open spec fn state_line(author: Seq<char>, state: ReviewState) -> Seq<char> {
    "@"@ + author + match state {
        ReviewState::Approved => " approved:"@,
        ReviewState::ChangesRequested => " requested changes:"@,
        ReviewState::Commented => " commented:"@,
    }
}

/// The paragraph that a review's message shows under its first line: the
/// summary if there is one, else the only thread comment, else nothing.
pub open spec fn shown_body(r: ReviewView) -> Seq<char> {
    match r.body {
        Some(text) => "\n\n"@ + text,
        None => if r.comments.len() == 1 {
            "\n\n"@ + r.comments[0]
        } else {
            Seq::empty()
        },
    }
}

/// The closing paragraph of a review's message, which counts the thread
/// comments when there are several.
pub open spec fn count_line(attached: nat) -> Seq<char> {
    if attached > 1 {
        "\n\n(+ "@ + decimal(attached) + " comments)"@
    } else {
        Seq::empty()
    }
}

/// The message that announces a review.
pub open spec fn review_text(r: ReviewView) -> Seq<char> {
    state_line(r.author, r.state) + shown_body(r) + count_line(r.comments.len())
}

impl Review {
    /// A review without thread comments.  An empty `body` means that the
    /// review has no summary.
    pub fn new(author: String, state: ReviewState, body: String, pr_url: String, url: String) -> (r:
        Self)
        ensures
            r@ == (ReviewView {
                author: author@,
                state,
                body: if body@.len() == 0 {
                    None
                } else {
                    Some(body@)
                },
                comments: Seq::empty(),
                pr_url: pr_url@,
                url: url@,
            }),
            r@.well_formed(),
    {
        let body = if body.as_str().is_empty() {
            None
        } else {
            Some(body)
        };
        let r = Self { author, state, body, comments: Vec::new(), pr_url, url };
        assert(r@.comments =~= Seq::empty());
        r
    }

    /// Attaches one more thread comment, after those already attached.
    pub fn add_comment(&mut self, comment: String)
        ensures
            final(self)@ == old(self)@.with_comment(comment@),
            old(self)@.well_formed() ==> final(self)@.well_formed(),
    {
        self.comments.push(comment);
        assert(self@.comments =~= old(self)@.comments.push(comment@));
    }

    /// The address of the pull request that the review belongs to.
    pub fn pull_request_url(&self) -> (url: &String)
        ensures
            url@ == self@.pr_url,
    {
        &self.pr_url
    }

    /// The address of the review itself.
    pub fn permalink(&self) -> (url: &String)
        ensures
            url@ == self@.url,
    {
        &self.url
    }

    /// The message text of this review.
    pub fn to_string(&self) -> (s: String)
        ensures
            s@ == review_text(self@),
    {
        let mut s = String::from_str("@");
        s.append(self.author.as_str());
        match self.state {
            ReviewState::Approved => s.append(" approved:"),
            ReviewState::ChangesRequested => s.append(" requested changes:"),
            ReviewState::Commented => s.append(" commented:"),
        }
        match &self.body {
            Some(text) => {
                s.append("\n\n");
                s.append(text.as_str());
            },
            None => {
                if self.comments.len() == 1 {
                    s.append("\n\n");
                    s.append(self.comments[0].as_str());
                }
            },
        }
        if self.comments.len() > 1 {
            let count = decimal_string(self.comments.len());
            s.append("\n\n(+ ");
            s.append(count.as_str());
            s.append(" comments)");
        }
        s
    }
}

} // verus!
