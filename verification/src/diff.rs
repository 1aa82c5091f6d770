//! The snapshot differ: which of a pull request's current comments and
//! reviews have not been seen by an earlier run.

use crate::clients::cache::{key_list, snapshot_view, Data, PullRequestView};
use crate::ids::{
    ascending, ascending_ids, insert_ascending, lemma_ascending_ids, lemma_ascending_ids_lists,
};
use std::collections::HashMap;
use std::collections::HashSet;
use vstd::prelude::*;

verus! {

/// Whether an earlier run has seen the pull request at all.
#[derive(Debug, Clone, Copy, PartialEq, Eq, Structural)]
pub enum Classification {
    /// The snapshot has no entry for the pull request.
    New,
    /// The snapshot has an entry for the pull request.
    Existing,
}

/// What is new about one pull request.  Each list holds a set of
/// identifiers in ascending order: the order in which events are raised.
#[derive(Debug)]
pub struct Diff {
    pub classification: Classification,
    pub new_comment_ids: Vec<usize>,
    pub new_review_ids: Vec<usize>,
}

/// What a [`Diff`] holds.
pub struct DiffView {
    pub classification: Classification,
    pub new_comment_ids: Seq<usize>,
    pub new_review_ids: Seq<usize>,
}

impl View for Diff {
    type V = DiffView;

    open spec fn view(&self) -> DiffView {
        DiffView {
            classification: self.classification,
            new_comment_ids: self.new_comment_ids@,
            new_review_ids: self.new_review_ids@,
        }
    }
}

impl DiffView {
    /// Every identifier of the difference names a current comment or review.
    pub open spec fn within(self, reviews: Set<usize>, comments: Set<usize>) -> bool {
        &&& forall|i: int|
            0 <= i < self.new_comment_ids.len() ==> comments.contains(
                #[trigger] self.new_comment_ids[i],
            )
        &&& forall|i: int|
            0 <= i < self.new_review_ids.len() ==> reviews.contains(
                #[trigger] self.new_review_ids[i],
            )
    }
}

/// The difference between the snapshot `previous` and the current activity
/// of the pull request `pull_request_id`.
///
/// A pull request without an entry is new, and nothing is new about it item
/// by item.  For one with an entry, the new items are the current ones whose
/// identifier the entry lacks.
pub open spec fn diff_of(
    previous: Map<usize, PullRequestView>,
    pull_request_id: usize,
    current_reviews: Set<usize>,
    current_comments: Set<usize>,
) -> DiffView {
    if previous.contains_key(pull_request_id) {
        DiffView {
            classification: Classification::Existing,
            new_comment_ids: ascending_ids(
                current_comments.difference(previous[pull_request_id].comments),
            ),
            new_review_ids: ascending_ids(
                current_reviews.difference(previous[pull_request_id].reviews),
            ),
        }
    } else {
        DiffView {
            classification: Classification::New,
            new_comment_ids: Seq::empty(),
            new_review_ids: Seq::empty(),
        }
    }
}

/// For a pull request that the snapshot knows, the difference lists the
/// current identifiers that the snapshot lacks, each once and in ascending
/// order.
pub proof fn lemma_diff_lists_unseen(
    previous: Map<usize, PullRequestView>,
    pull_request_id: usize,
    current_reviews: Set<usize>,
    current_comments: Set<usize>,
)
    requires
        previous.contains_key(pull_request_id),
    ensures
        ({
            let d = diff_of(previous, pull_request_id, current_reviews, current_comments);
            let seen = previous[pull_request_id];
            &&& d.classification == Classification::Existing
            &&& ascending(d.new_comment_ids)
            &&& ascending(d.new_review_ids)
            &&& d.new_comment_ids.to_set() == current_comments.difference(seen.comments)
            &&& d.new_review_ids.to_set() == current_reviews.difference(seen.reviews)
        }),
{
    let seen = previous[pull_request_id];
    lemma_ascending_ids_lists(current_comments.difference(seen.comments));
    lemma_ascending_ids_lists(current_reviews.difference(seen.reviews));
}

/// A difference names current comments and reviews only.
pub proof fn lemma_diff_within(
    previous: Map<usize, PullRequestView>,
    pull_request_id: usize,
    current_reviews: Set<usize>,
    current_comments: Set<usize>,
)
    ensures
        diff_of(previous, pull_request_id, current_reviews, current_comments).within(
            current_reviews,
            current_comments,
        ),
{
    let d = diff_of(previous, pull_request_id, current_reviews, current_comments);
    if previous.contains_key(pull_request_id) {
        lemma_diff_lists_unseen(previous, pull_request_id, current_reviews, current_comments);
        assert forall|i: int| 0 <= i < d.new_comment_ids.len() implies current_comments.contains(
            #[trigger] d.new_comment_ids[i],
        ) by {
            assert(d.new_comment_ids.to_set().contains(d.new_comment_ids[i]));
        }
        assert forall|i: int| 0 <= i < d.new_review_ids.len() implies current_reviews.contains(
            #[trigger] d.new_review_ids[i],
        ) by {
            assert(d.new_review_ids.to_set().contains(d.new_review_ids[i]));
        }
    }
}

/// The keys of `current` that `seen` lacks, in ascending order.
pub fn unseen_ids<V>(current: &HashMap<usize, V>, seen: &HashSet<usize>) -> (ids: Vec<usize>)
    ensures
        ascending(ids@),
        ids@.to_set() == current@.dom().difference(seen@),
        ids@ == ascending_ids(current@.dom().difference(seen@)),
{
    broadcast use vstd::std_specs::hash::group_hash_axioms;

    let keys = key_list(current);
    let mut ids: Vec<usize> = Vec::new();
    let mut i: usize = 0;
    while i < keys.len()
        invariant
            i <= keys.len(),
            ascending(ids@),
            ids@.to_set() == keys@.take(i as int).to_set().difference(seen@),
        decreases keys.len() - i,
    {
        let key: usize = keys[i];
        proof {
            keys@.lemma_take_succ_push(i as int);
            keys@.take(i as int).lemma_push_to_set_commute(key);
        }
        if !seen.contains(&key) {
            insert_ascending(&mut ids, key);
        }
        i = i + 1;
    }
    proof {
        assert(keys@.take(i as int) =~= keys@);
        lemma_ascending_ids(ids@);
    }
    ids
}

/// Compares the current activity of the pull request `pull_request_id` with
/// what the snapshot `previous` remembers of it.
pub fn diff<R, C>(
    previous: &Data,
    pull_request_id: usize,
    current_reviews: &HashMap<usize, R>,
    current_comments: &HashMap<usize, C>,
) -> (d: Diff)
    ensures
        d@ == diff_of(
            snapshot_view(previous@),
            pull_request_id,
            current_reviews@.dom(),
            current_comments@.dom(),
        ),
{
    broadcast use vstd::std_specs::hash::group_hash_axioms;

    match previous.get(&pull_request_id) {
        None => Diff {
            classification: Classification::New,
            new_comment_ids: Vec::new(),
            new_review_ids: Vec::new(),
        },
        Some(current) => Diff {
            classification: Classification::Existing,
            new_comment_ids: unseen_ids(current_comments, &current.comments),
            new_review_ids: unseen_ids(current_reviews, &current.reviews),
        },
    }
}

} // verus!
