//! One run of the engine as a state machine.
//!
//! The engine never talks to its collaborators.  It says what to do next,
//! the caller does it and reports what came of it, and so on until the run
//! is done or has failed.  A run loads the snapshot, lists the pull requests
//! of each query, and then takes the pull requests one at a time: it asks
//! for the activity of one, decides what is due, has the messages sent one
//! by one, and only then turns to the next.

use crate::activity::{activity_of, PullRequestActivity, RemoteActivity, RemoteActivityView};
use crate::clients::cache::{loaded_or_empty, snapshot_view, Data, PullRequestView};
use crate::clients::github::{
    coordinate, Issue, IssueView, UrlError, UrlErrorKind, NAME_PATTERN, OWNER_PATTERN,
};
use crate::dispatch::{notification_views, Notification, NotificationView};
use crate::driver::{issue_views, merge_pull_requests, merged, outcome_of, reconcile_pull_request};
use crate::filter::ExcludePatterns;
use crate::text::texts;
use std::collections::HashMap;
use vstd::prelude::*;

verus! {

/// Where a run stands.
#[derive(Debug, Clone, Copy, PartialEq, Eq, Structural)]
pub enum Phase {
    /// Nothing has happened yet.
    Idle,
    /// The snapshot store has been asked for the snapshot.
    LoadingSnapshot,
    /// The service has been asked for the pull requests of a query.
    Listing,
    /// The service has been asked for the activity of a pull request.
    Fetching,
    /// A message of a pull request has been handed out for delivery.
    Notifying,
    /// The run is complete and has handed out the new snapshot.
    Done,
    /// The run was given up.  No snapshot comes of it.
    Failed,
}

/// What the caller reports to a run.
#[derive(Debug)]
pub enum Event {
    /// The run may begin.
    Started,
    /// The snapshot store has answered: with the snapshot, or with none
    /// where it could not read one.
    SnapshotLoaded(Option<Data>),
    /// The service has listed the pull requests of the query asked for.
    PullRequestsListed(Vec<Issue>),
    /// The service has reported the activity of the pull request asked for.
    ActivityFetched(RemoteActivity),
    /// The message handed out last has been delivered.
    NotificationSent,
    /// A collaborator has reported an error.
    Failed,
}

/// What an [`Event`] holds, as plain values.
pub enum EventView {
    Started,
    SnapshotLoaded(Option<Map<usize, PullRequestView>>),
    PullRequestsListed(Seq<IssueView>),
    ActivityFetched(RemoteActivityView),
    NotificationSent,
    Failed,
}

impl View for Event {
    type V = EventView;

    open spec fn view(&self) -> EventView {
        match self {
            Event::Started => EventView::Started,
            Event::SnapshotLoaded(loaded) => EventView::SnapshotLoaded(
                match loaded {
                    Some(data) => Some(snapshot_view(data@)),
                    None => None,
                },
            ),
            Event::PullRequestsListed(items) => EventView::PullRequestsListed(issue_views(items@)),
            Event::ActivityFetched(remote) => EventView::ActivityFetched(remote@),
            Event::NotificationSent => EventView::NotificationSent,
            Event::Failed => EventView::Failed,
        }
    }
}

/// Why a run was given up.
#[derive(Debug)]
pub enum Abort {
    /// A collaborator reported an error.
    Collaborator,
    /// The caller reported something that the run was not waiting for.
    Unexpected,
    /// The address of a pull request does not name its repository.
    Source(UrlError),
}

/// What an [`Abort`] holds, as plain values.
pub enum AbortView {
    Collaborator,
    Unexpected,
    Source(UrlErrorKind),
}

impl View for Abort {
    type V = AbortView;

    open spec fn view(&self) -> AbortView {
        match self {
            Abort::Collaborator => AbortView::Collaborator,
            Abort::Unexpected => AbortView::Unexpected,
            Abort::Source(e) => AbortView::Source(e@),
        }
    }
}

/// What a run asks of its caller.
#[derive(Debug)]
pub enum Action {
    /// Ask the snapshot store for the snapshot.
    LoadSnapshot,
    /// Ask the service for the pull requests that match `query`.
    ListPullRequests { query: String },
    /// Ask the service for the activity of a pull request.
    FetchActivity { repo_owner: String, repo_name: String, number: usize },
    /// Deliver this message.
    Notify(Notification),
    /// The run is complete: hand `new_data` to the snapshot store.
    Finish { new_data: Data },
    /// The run is given up: do nothing more, and keep the old snapshot.
    Abort(Abort),
}

/// What an [`Action`] holds, as plain values.
pub enum ActionView {
    LoadSnapshot,
    ListPullRequests { query: Seq<char> },
    FetchActivity { repo_owner: Seq<char>, repo_name: Seq<char>, number: usize },
    Notify(NotificationView),
    Finish { new_data: Map<usize, PullRequestView> },
    Abort(AbortView),
}

impl View for Action {
    type V = ActionView;

    open spec fn view(&self) -> ActionView {
        match self {
            Action::LoadSnapshot => ActionView::LoadSnapshot,
            Action::ListPullRequests { query } => ActionView::ListPullRequests { query: query@ },
            Action::FetchActivity { repo_owner, repo_name, number } => ActionView::FetchActivity {
                repo_owner: repo_owner@,
                repo_name: repo_name@,
                number: *number,
            },
            Action::Notify(n) => ActionView::Notify(n@),
            Action::Finish { new_data } => ActionView::Finish { new_data: snapshot_view(new_data@) },
            Action::Abort(reason) => ActionView::Abort(reason@),
        }
    }
}

/// The state of a run, as plain values.
pub struct RunView {
    pub phase: Phase,
    /// The running user, whose own activity is noise.
    pub username: Seq<char>,
    /// The exclude patterns.
    pub patterns: Seq<Seq<char>>,
    /// The queries whose pull requests the run looks at.
    pub queries: Seq<Seq<char>>,
    /// The snapshot of the run before.
    pub previous: Map<usize, PullRequestView>,
    /// How many queries have been answered.
    pub asked: nat,
    /// The pull requests listed so far, each identifier once.
    pub pull_requests: Seq<IssueView>,
    /// How many pull requests are done with.
    pub current: nat,
    /// The messages of the pull request in hand that are still to be sent.
    pub pending: Seq<NotificationView>,
    /// The snapshot for the next run, as far as it has been built.
    pub new_data: Map<usize, PullRequestView>,
}

impl RunView {
    /// A run before its start.
    pub open spec fn initial(
        username: Seq<char>,
        patterns: Seq<Seq<char>>,
        queries: Seq<Seq<char>>,
    ) -> RunView {
        RunView {
            phase: Phase::Idle,
            username,
            patterns,
            queries,
            previous: Map::empty(),
            asked: 0,
            pull_requests: Seq::empty(),
            current: 0,
            pending: Seq::empty(),
            new_data: Map::empty(),
        }
    }

    /// The run, given up.
    pub open spec fn failed(self) -> RunView {
        RunView { phase: Phase::Failed, ..self }
    }

    /// Asks for the pull requests of the next query; with all queries
    /// answered, turns to the first pull request.
    pub open spec fn list_next(self) -> (RunView, ActionView) {
        if self.asked < self.queries.len() {
            (
                RunView { phase: Phase::Listing, ..self },
                ActionView::ListPullRequests { query: self.queries[self.asked as int] },
            )
        } else {
            self.fetch_next()
        }
    }

    /// Asks for the activity of the pull request whose turn it is, in the
    /// repository that its address names; gives the run up where the address
    /// names none.  With all pull requests done, completes the run and hands
    /// out the new snapshot.
    pub open spec fn fetch_next(self) -> (RunView, ActionView) {
        if self.current < self.pull_requests.len() {
            let pr = self.pull_requests[self.current as int];
            match coordinate(OWNER_PATTERN@, pr.html_url) {
                Err(e) => (self.failed(), ActionView::Abort(AbortView::Source(e))),
                Ok(repo_owner) => match coordinate(NAME_PATTERN@, pr.html_url) {
                    Err(e) => (self.failed(), ActionView::Abort(AbortView::Source(e))),
                    Ok(repo_name) => (
                        RunView { phase: Phase::Fetching, ..self },
                        ActionView::FetchActivity { repo_owner, repo_name, number: pr.number },
                    ),
                },
            }
        } else {
            (
                RunView { phase: Phase::Done, new_data: Map::empty(), ..self },
                ActionView::Finish { new_data: self.new_data },
            )
        }
    }

    /// Hands out the next message of the pull request in hand; with none
    /// left, turns to the next pull request.
    pub open spec fn notify_next(self) -> (RunView, ActionView) {
        if self.pending.len() > 0 {
            (
                RunView { phase: Phase::Notifying, pending: self.pending.drop_first(), ..self },
                ActionView::Notify(self.pending[0]),
            )
        } else if self.current < self.pull_requests.len() {
            (RunView { current: self.current + 1, ..self }).fetch_next()
        } else {
            (self.failed(), ActionView::Abort(AbortView::Unexpected))
        }
    }

    /// Decides what is due for the pull request in hand, now that the
    /// service has reported `remote` of it: records its entry in the new
    /// snapshot and begins to hand out its messages.
    pub open spec fn decide(self, remote: RemoteActivityView) -> (RunView, ActionView) {
        if self.current < self.pull_requests.len() {
            let pr = self.pull_requests[self.current as int];
            let out = outcome_of(
                self.previous,
                activity_of(pr, remote, self.username, self.patterns),
            );
            (RunView {
                pending: out.notifications,
                new_data: self.new_data.insert(pr.id, out.entry),
                ..self
            }).notify_next()
        } else {
            (self.failed(), ActionView::Abort(AbortView::Unexpected))
        }
    }

    /// The next state of a run and what it asks of its caller, given what
    /// the caller reports.
    ///
    /// A run that is done or given up stays as it is.  An error of a
    /// collaborator gives the run up, and so does a report that the run was
    /// not waiting for.
    pub open spec fn step(self, event: EventView) -> (RunView, ActionView) {
        if self.phase == Phase::Done || self.phase == Phase::Failed {
            (self, ActionView::Abort(AbortView::Unexpected))
        } else {
            match event {
                EventView::Failed => (self.failed(), ActionView::Abort(AbortView::Collaborator)),
                EventView::Started => if self.phase == Phase::Idle {
                    (RunView { phase: Phase::LoadingSnapshot, ..self }, ActionView::LoadSnapshot)
                } else {
                    (self.failed(), ActionView::Abort(AbortView::Unexpected))
                },
                EventView::SnapshotLoaded(loaded) => if self.phase == Phase::LoadingSnapshot {
                    (RunView {
                        previous: match loaded {
                            Some(data) => data,
                            None => Map::empty(),
                        },
                        ..self
                    }).list_next()
                } else {
                    (self.failed(), ActionView::Abort(AbortView::Unexpected))
                },
                EventView::PullRequestsListed(items) => if self.phase == Phase::Listing
                    && self.asked < self.queries.len() {
                    (RunView {
                        pull_requests: merged(self.pull_requests, items),
                        asked: self.asked + 1,
                        ..self
                    }).list_next()
                } else {
                    (self.failed(), ActionView::Abort(AbortView::Unexpected))
                },
                EventView::ActivityFetched(remote) => if self.phase == Phase::Fetching {
                    self.decide(remote)
                } else {
                    (self.failed(), ActionView::Abort(AbortView::Unexpected))
                },
                EventView::NotificationSent => if self.phase == Phase::Notifying {
                    self.notify_next()
                } else {
                    (self.failed(), ActionView::Abort(AbortView::Unexpected))
                },
            }
        }
    }
}

/// One run of the engine.
pub struct Run {
    phase: Phase,
    username: String,
    patterns: ExcludePatterns,
    queries: Vec<String>,
    previous: Data,
    asked: usize,
    pull_requests: Vec<Issue>,
    current: usize,
    pending: Vec<Notification>,
    new_data: Data,
}

impl View for Run {
    type V = RunView;

    closed spec fn view(&self) -> RunView {
        RunView {
            phase: self.phase,
            username: self.username@,
            patterns: self.patterns@,
            queries: texts(self.queries@),
            previous: snapshot_view(self.previous@),
            asked: self.asked as nat,
            pull_requests: issue_views(self.pull_requests@),
            current: self.current as nat,
            pending: notification_views(self.pending@),
            new_data: snapshot_view(self.new_data@),
        }
    }
}

impl Run {
    /// A run for the user `username`, over the pull requests that `queries`
    /// list, with `exclude_comment_patterns` as its exclude patterns.
    pub fn new(username: String, exclude_comment_patterns: ExcludePatterns, queries: Vec<String>) -> (run:
        Self)
        ensures
            run@ == RunView::initial(username@, exclude_comment_patterns@, texts(queries@)),
    {
        let run = Run {
            phase: Phase::Idle,
            username,
            patterns: exclude_comment_patterns,
            queries,
            previous: HashMap::new(),
            asked: 0,
            pull_requests: Vec::new(),
            current: 0,
            pending: Vec::new(),
            new_data: HashMap::new(),
        };
        assert(run@.new_data =~= Map::empty());
        assert(run@.pull_requests =~= Seq::empty());
        assert(run@.pending =~= Seq::empty());
        run
    }

    /// Where the run stands.
    pub fn phase(&self) -> (phase: Phase)
        ensures
            phase == self@.phase,
    {
        self.phase
    }

    /// Gives the run up.
    fn fail(self, reason: Abort) -> (r: (Self, Action))
        ensures
            r.0@ == self@.failed(),
            r.1@ == ActionView::Abort(reason@),
    {
        (Run { phase: Phase::Failed, ..self }, Action::Abort(reason))
    }

    /// Asks for the pull requests of the next query, or turns to the first
    /// pull request.
    fn list_next(self) -> (r: (Self, Action))
        ensures
            (r.0@, r.1@) == self@.list_next(),
    {
        if self.asked < self.queries.len() {
            let query = self.queries[self.asked].clone();
            (Run { phase: Phase::Listing, ..self }, Action::ListPullRequests { query })
        } else {
            self.fetch_next()
        }
    }

    /// Asks for the activity of the pull request whose turn it is, or
    /// completes the run.
    fn fetch_next(self) -> (r: (Self, Action))
        ensures
            (r.0@, r.1@) == self@.fetch_next(),
    {
        if self.current < self.pull_requests.len() {
            let pr = &self.pull_requests[self.current];
            let number: usize = pr.number;
            match pr.repo_owner() {
                Err(e) => self.fail(Abort::Source(e)),
                Ok(repo_owner) => match pr.repo_name() {
                    Err(e) => self.fail(Abort::Source(e)),
                    Ok(repo_name) => (
                        Run { phase: Phase::Fetching, ..self },
                        Action::FetchActivity { repo_owner, repo_name, number },
                    ),
                },
            }
        } else {
            let Run {
                phase: _,
                username,
                patterns,
                queries,
                previous,
                asked,
                pull_requests,
                current,
                pending,
                new_data,
            } = self;
            let done = Run {
                phase: Phase::Done,
                username,
                patterns,
                queries,
                previous,
                asked,
                pull_requests,
                current,
                pending,
                new_data: HashMap::new(),
            };
            assert(done@.new_data =~= Map::empty());
            (done, Action::Finish { new_data })
        }
    }

    /// Hands out the next message of the pull request in hand, or turns to
    /// the next pull request.
    fn notify_next(self) -> (r: (Self, Action))
        ensures
            (r.0@, r.1@) == self@.notify_next(),
    {
        if self.pending.len() > 0 {
            let mut run = self;
            let ghost before = notification_views(run.pending@);
            let n = run.pending.remove(0);
            assert(notification_views(run.pending@) =~= before.drop_first());
            run.phase = Phase::Notifying;
            (run, Action::Notify(n))
        } else if self.current < self.pull_requests.len() {
            let next: usize = self.current + 1;
            (Run { current: next, ..self }).fetch_next()
        } else {
            self.fail(Abort::Unexpected)
        }
    }

    /// Decides what is due for the pull request in hand.
    fn decide(self, remote: RemoteActivity) -> (r: (Self, Action))
        ensures
            (r.0@, r.1@) == self@.decide(remote@),
    {
        broadcast use vstd::std_specs::hash::group_hash_axioms;

        if self.current < self.pull_requests.len() {
            let pr = self.pull_requests[self.current].clone();
            let id: usize = pr.id;
            let activity = PullRequestActivity::collect(pr, &remote, &self.username, &self.patterns);
            let out = reconcile_pull_request(&self.previous, &activity);
            let mut run = self;
            let ghost before = snapshot_view(run.new_data@);
            let ghost entry = out.entry@;
            run.new_data.insert(id, out.entry);
            assert(snapshot_view(run.new_data@) =~= before.insert(id, entry));
            run.pending = out.notifications;
            run.notify_next()
        } else {
            self.fail(Abort::Unexpected)
        }
    }

    /// Takes what the caller reports and says what to do next.
    pub fn step(self, event: Event) -> (r: (Self, Action))
        ensures
            (r.0@, r.1@) == self@.step(event@),
    {
        match self.phase {
            Phase::Done | Phase::Failed => {
                return (self, Action::Abort(Abort::Unexpected));
            },
            _ => {},
        }
        match event {
            Event::Failed => self.fail(Abort::Collaborator),
            Event::Started => match self.phase {
                Phase::Idle => (Run { phase: Phase::LoadingSnapshot, ..self }, Action::LoadSnapshot),
                _ => self.fail(Abort::Unexpected),
            },
            Event::SnapshotLoaded(loaded) => match self.phase {
                Phase::LoadingSnapshot => {
                    let previous = loaded_or_empty(loaded);
                    assert(snapshot_view(previous@) =~= match event@ {
                        EventView::SnapshotLoaded(Some(data)) => data,
                        _ => Map::empty(),
                    });
                    (Run { previous, ..self }).list_next()
                },
                _ => self.fail(Abort::Unexpected),
            },
            Event::PullRequestsListed(items) => match self.phase {
                Phase::Listing => {
                    if self.asked < self.queries.len() {
                        let mut run = self;
                        merge_pull_requests(&mut run.pull_requests, items);
                        run.asked = run.asked + 1;
                        run.list_next()
                    } else {
                        self.fail(Abort::Unexpected)
                    }
                },
                _ => self.fail(Abort::Unexpected),
            },
            Event::ActivityFetched(remote) => match self.phase {
                Phase::Fetching => self.decide(remote),
                _ => self.fail(Abort::Unexpected),
            },
            Event::NotificationSent => match self.phase {
                Phase::Notifying => self.notify_next(),
                _ => self.fail(Abort::Unexpected),
            },
        }
    }
}

} // verus!
