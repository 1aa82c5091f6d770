//! The snapshot that one run leaves for the next: for each pull request, the
//! identifiers of the reviews and comments that have been seen.

use std::collections::HashMap;
use std::collections::HashSet;
use vstd::prelude::*;
use vstd::std_specs::iter::IteratorSpec;

verus! {

/// What one run remembers of a pull request.
#[derive(Debug)]
pub struct PullRequest {
    pub reviews: HashSet<usize>,
    pub comments: HashSet<usize>,
}

/// The identifiers that a [`PullRequest`] holds, as sets.
pub struct PullRequestView {
    pub reviews: Set<usize>,
    pub comments: Set<usize>,
}

impl View for PullRequest {
    type V = PullRequestView;

    open spec fn view(&self) -> PullRequestView {
        PullRequestView { reviews: self.reviews@, comments: self.comments@ }
    }
}

/// The snapshot: what is remembered of each pull request, by its identifier.
/// A pull request without an entry has never been seen.
pub type Data = HashMap<usize, PullRequest>;

/// The identifier sets that a snapshot holds for each pull request.
pub open spec fn snapshot_view(data: Map<usize, PullRequest>) -> Map<usize, PullRequestView> {
    data.map_values(|p: PullRequest| p@)
}

/// Names the file in which the snapshot is kept between runs.
pub struct CacheClient {
    filename: String,
}

impl CacheClient {
    /// The name of the snapshot file.
    pub closed spec fn filename_view(&self) -> Seq<char> {
        self.filename@
    }

    pub fn new(filename: String) -> (client: Self)
        ensures
            client.filename_view() == filename@,
    {
        Self { filename }
    }

    /// The name of the snapshot file.
    pub fn filename(&self) -> (name: &String)
        ensures
            name@ == self.filename_view(),
    {
        &self.filename
    }
}

/// The snapshot to start a run from, given what the store could load: the
/// loaded snapshot, or an empty one where there was none to load.
pub fn loaded_or_empty(loaded: Option<Data>) -> (data: Data)
    ensures
        match loaded {
            Some(found) => data == found,
            None => data@ == Map::<usize, PullRequest>::empty(),
        },
{
    match loaded {
        Some(found) => found,
        None => HashMap::new(),
    }
}

/// The set of the identifiers in `ids`.
pub fn id_set(ids: &Vec<usize>) -> (set: HashSet<usize>)
    ensures
        set@ == ids@.to_set(),
{
    broadcast use vstd::std_specs::hash::group_hash_axioms;

    let mut set: HashSet<usize> = HashSet::new();
    let mut i: usize = 0;
    while i < ids.len()
        invariant
            i <= ids.len(),
            set@ == ids@.take(i as int).to_set(),
        decreases ids.len() - i,
    {
        set.insert(ids[i]);
        proof {
            ids@.lemma_take_succ_push(i as int);
            ids@.take(i as int).lemma_push_to_set_commute(ids@[i as int]);
        }
        i = i + 1;
    }
    assert(ids@.take(ids.len() as int) =~= ids@);
    set
}

/// The keys of `map`, each once, in the order in which the map yields them.
pub fn key_list<V>(map: &HashMap<usize, V>) -> (keys: Vec<usize>)
    ensures
        keys@.no_duplicates(),
        keys@.to_set() == map@.dom(),
{
    broadcast use vstd::std_specs::hash::group_hash_axioms;

    let ghost all: Seq<usize> = map.keys().remaining().unref();
    let mut keys: Vec<usize> = Vec::new();
    for k in iter: map.keys()
        invariant
            iter.seq().unref() == all,
            keys@ == all.take(iter.index()),
    {
        keys.push(*k);
    }
    assert(keys@ =~= all);
    keys
}

} // verus!
