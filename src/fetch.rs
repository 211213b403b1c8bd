//! Cache-aside decisions for one branch-detail query.
//!
//! A `Fetcher` is a state machine: each `step` takes what the last action
//! produced (an `Event`) and answers with the next `Action`. The caller
//! performs the actions (reading and writing the cache, calling the remote
//! service) and feeds the outcomes back.
//!
//! Policy: a cache entry is served only when it was read and decoded; any
//! failure to read or decode falls through to the remote call. A remote
//! failure ends the query with that failure and stores nothing. A successful
//! remote answer is stored under the commit id it names, not the one asked
//! for, and a failure to store it does not change what the caller receives.
use vstd::prelude::*;
use crate::cache::{is_valid_segment, valid_key, valid_segment};

verus! {

/// The character sequences of a list of strings.
pub open spec fn strings_view(v: Seq<String>) -> Seq<Seq<char>> {
    v.map_values(|s: String| s@)
}

/// A branch-detail query: the repository, the branch, and the commit id the
/// caller expects its head to be.
pub struct BranchQuery {
    pub service: String,
    pub username: String,
    pub repo_name: String,
    pub branch_name: String,
    pub commit_id: String,
}

impl BranchQuery {
    /// The key the query is looked up under.
    pub open spec fn lookup_key_spec(&self) -> Seq<Seq<char>> {
        seq![self.service@, self.username@, self.repo_name@, self.branch_name@, self.commit_id@]
    }

    /// The key an answer whose head commit is `head` is stored under.
    pub open spec fn canonical_key_spec(&self, head: Seq<char>) -> Seq<Seq<char>> {
        self.lookup_key_spec().update(4, head)
    }

    fn key_with_commit(&self, commit: &String) -> (r: Vec<String>)
        ensures
            strings_view(r@) == self.lookup_key_spec().update(4, commit@),
    {
        let mut r: Vec<String> = Vec::new();
        r.push(self.service.clone());
        r.push(self.username.clone());
        r.push(self.repo_name.clone());
        r.push(self.branch_name.clone());
        r.push(commit.clone());
        assert(strings_view(r@) =~= self.lookup_key_spec().update(4, commit@));
        r
    }

    pub fn lookup_key(&self) -> (r: Vec<String>)
        ensures
            strings_view(r@) == self.lookup_key_spec(),
    {
        let r = self.key_with_commit(&self.commit_id);
        assert(self.lookup_key_spec().update(4, self.commit_id@) =~= self.lookup_key_spec());
        r
    }

    pub fn canonical_key(&self, head: &String) -> (r: Vec<String>)
        ensures
            strings_view(r@) == self.canonical_key_spec(head@),
    {
        self.key_with_commit(head)
    }

    /// Whether the query's key with `commit` as its last segment is valid.
    fn is_valid_with_commit(&self, commit: &String) -> (r: bool)
        ensures
            r == valid_key(self.lookup_key_spec().update(4, commit@)),
    {
        let ghost k = self.lookup_key_spec().update(4, commit@);
        let r = is_valid_segment(self.service.as_str()) && is_valid_segment(
            self.username.as_str(),
        ) && is_valid_segment(self.repo_name.as_str()) && is_valid_segment(
            self.branch_name.as_str(),
        ) && is_valid_segment(commit.as_str());
        assert(k[0] == self.service@ && k[1] == self.username@ && k[2] == self.repo_name@ && k[3]
            == self.branch_name@ && k[4] == commit@);
        if r {
            assert forall|i: int| 0 <= i < k.len() implies valid_segment(#[trigger] k[i]) by {
                if i == 0 {
                } else if i == 1 {
                } else if i == 2 {
                } else if i == 3 {
                } else {
                }
            }
        } else {
            assert(!valid_segment(k[0]) || !valid_segment(k[1]) || !valid_segment(k[2])
                || !valid_segment(k[3]) || !valid_segment(k[4]));
        }
        r
    }
}

/// What reading the lookup key from the cache gave.
pub enum CacheRead {
    /// No entry under the key.
    Missing,
    /// The entry exists but could not be read.
    Unreadable,
    /// The entry was read but does not decode as a branch detail.
    Undecodable,
    /// The entry was read and decoded.
    Decoded,
}

/// What the remote service answered.
pub enum RemoteOutcome {
    /// The call failed (network, authentication, API error).
    Failed,
    /// The service answered that there is no such branch.
    NotFound,
    /// The service answered with the branch detail; its head is this commit.
    Success { head_commit_id: String },
}

/// The outcome of the last action, handed back to the fetcher.
pub enum Event {
    CacheRead(CacheRead),
    Remote(RemoteOutcome),
    /// Whether storing the fetched detail succeeded.
    Stored(bool),
}

/// Where a query stands.
#[derive(PartialEq, Eq, Structural, Clone, Copy, Debug)]
pub enum Phase {
    ReadingCache,
    Fetching,
    Storing,
    Done,
}

/// What the caller is to do next.
pub enum Action {
    /// Read the entry under this key and decode it.
    Load(Vec<String>),
    /// Call the remote service.
    Fetch,
    /// Store the fetched detail under this key.
    Store(Vec<String>),
    /// Answer with the decoded cache entry.
    ReturnCached,
    /// Answer with the remote service's answer.
    ReturnRemote,
    /// Answer with the remote service's failure.
    ReturnRemoteError,
}

/// An action, with its key as character sequences.
pub enum ActionView {
    Load(Seq<Seq<char>>),
    Fetch,
    Store(Seq<Seq<char>>),
    ReturnCached,
    ReturnRemote,
    ReturnRemoteError,
}

impl Action {
    pub open spec fn view(&self) -> ActionView {
        match self {
            Action::Load(k) => ActionView::Load(strings_view(k@)),
            Action::Fetch => ActionView::Fetch,
            Action::Store(k) => ActionView::Store(strings_view(k@)),
            Action::ReturnCached => ActionView::ReturnCached,
            Action::ReturnRemote => ActionView::ReturnRemote,
            Action::ReturnRemoteError => ActionView::ReturnRemoteError,
        }
    }
}

/// The phase and first action of a query: the cache is consulted only when
/// the lookup key is valid; otherwise the query goes to the remote service.
pub open spec fn initial(q: BranchQuery) -> (Phase, ActionView) {
    if valid_key(q.lookup_key_spec()) {
        (Phase::ReadingCache, ActionView::Load(q.lookup_key_spec()))
    } else {
        (Phase::Fetching, ActionView::Fetch)
    }
}

/// Whether a query in phase `p` is waiting for event `e`.
pub open spec fn awaits(p: Phase, e: Event) -> bool {
    match e {
        Event::CacheRead(_) => p == Phase::ReadingCache,
        Event::Remote(_) => p == Phase::Fetching,
        Event::Stored(_) => p == Phase::Storing,
    }
}

/// The next phase and action of query `q` in phase `p` on event `e`, where
/// `awaits(p, e)`.
pub open spec fn transition(q: BranchQuery, p: Phase, e: Event) -> (Phase, ActionView) {
    match e {
        Event::CacheRead(CacheRead::Decoded) => (Phase::Done, ActionView::ReturnCached),
        Event::CacheRead(_) => (Phase::Fetching, ActionView::Fetch),
        Event::Remote(RemoteOutcome::Failed) => (Phase::Done, ActionView::ReturnRemoteError),
        Event::Remote(RemoteOutcome::NotFound) => (Phase::Done, ActionView::ReturnRemote),
        Event::Remote(RemoteOutcome::Success { head_commit_id }) => {
            if valid_key(q.canonical_key_spec(head_commit_id@)) {
                (Phase::Storing, ActionView::Store(q.canonical_key_spec(head_commit_id@)))
            } else {
                (Phase::Done, ActionView::ReturnRemote)
            }
        },
        Event::Stored(_) => (Phase::Done, ActionView::ReturnRemote),
    }
}

/// A query stores only what the remote service answered with success, and
/// only under the commit id that answer names: the lookup key is written
/// only when the answer's head is the commit that was asked for.
pub proof fn lemma_store_only_under_resolved_commit(q: BranchQuery, p: Phase, e: Event)
    requires
        awaits(p, e),
    ensures
        match transition(q, p, e).1 {
            ActionView::Store(k) => match e {
                Event::Remote(RemoteOutcome::Success { head_commit_id }) => {
                    &&& k == q.canonical_key_spec(head_commit_id@)
                    &&& k[4] == head_commit_id@
                    &&& (k == q.lookup_key_spec() <==> head_commit_id@ == q.commit_id@)
                },
                _ => false,
            },
            _ => true,
        },
{
    if let Event::Remote(RemoteOutcome::Success { head_commit_id }) = e {
        let k = q.canonical_key_spec(head_commit_id@);
        if head_commit_id@ == q.commit_id@ {
            assert(k =~= q.lookup_key_spec());
        }
        if k == q.lookup_key_spec() {
            assert(k[4] == q.lookup_key_spec()[4]);
        }
    }
}

/// An entry that is missing, unreadable or undecodable is treated as a miss:
/// the query goes on to the remote service instead of failing.
pub proof fn lemma_unusable_entry_falls_through(q: BranchQuery, read: CacheRead)
    requires
        !(read is Decoded),
    ensures
        transition(q, Phase::ReadingCache, Event::CacheRead(read)) == (
        Phase::Fetching,
        ActionView::Fetch,
        ),
{
}

/// A remote failure ends the query with that failure, and a finished query
/// takes no further event, so nothing is stored after it.
pub proof fn lemma_remote_failure_is_final(q: BranchQuery)
    ensures
        transition(q, Phase::Fetching, Event::Remote(RemoteOutcome::Failed)) == (
        Phase::Done,
        ActionView::ReturnRemoteError,
        ),
        forall|e: Event| !awaits(Phase::Done, e),
{
}

/// One cache-aside query in progress.
pub struct Fetcher {
    pub query: BranchQuery,
    pub phase: Phase,
}

impl Fetcher {
    /// Begins `query`, returning the fetcher and the first action.
    pub fn start(query: BranchQuery) -> (r: (Fetcher, Action))
        ensures
            r.0.query == query,
            (r.0.phase, r.1.view()) == initial(query),
    {
        if query.is_valid_with_commit(&query.commit_id) {
            proof {
                assert(query.lookup_key_spec().update(4, query.commit_id@)
                    =~= query.lookup_key_spec());
            }
            let key = query.lookup_key();
            (Fetcher { query, phase: Phase::ReadingCache }, Action::Load(key))
        } else {
            proof {
                assert(query.lookup_key_spec().update(4, query.commit_id@)
                    =~= query.lookup_key_spec());
            }
            (Fetcher { query, phase: Phase::Fetching }, Action::Fetch)
        }
    }

    /// Whether the query is answered.
    pub fn is_done(&self) -> (r: bool)
        ensures
            r == (self.phase == Phase::Done),
    {
        self.phase == Phase::Done
    }

    /// Whether the fetcher is waiting for `e`.
    pub fn awaits(&self, e: &Event) -> (r: bool)
        ensures
            r == awaits(self.phase, *e),
    {
        match e {
            Event::CacheRead(_) => self.phase == Phase::ReadingCache,
            Event::Remote(_) => self.phase == Phase::Fetching,
            Event::Stored(_) => self.phase == Phase::Storing,
        }
    }

    /// Takes the outcome of the last action and returns the next one.
    pub fn step(&mut self, e: Event) -> (a: Action)
        requires
            awaits(old(self).phase, e),
        ensures
            final(self).query == old(self).query,
            (final(self).phase, a.view()) == transition(old(self).query, old(self).phase, e),
    {
        match e {
            Event::CacheRead(CacheRead::Decoded) => {
                self.phase = Phase::Done;
                Action::ReturnCached
            },
            Event::CacheRead(_) => {
                self.phase = Phase::Fetching;
                Action::Fetch
            },
            Event::Remote(RemoteOutcome::Failed) => {
                self.phase = Phase::Done;
                Action::ReturnRemoteError
            },
            Event::Remote(RemoteOutcome::NotFound) => {
                self.phase = Phase::Done;
                Action::ReturnRemote
            },
            Event::Remote(RemoteOutcome::Success { head_commit_id }) => {
                if self.query.is_valid_with_commit(&head_commit_id) {
                    let key = self.query.canonical_key(&head_commit_id);
                    self.phase = Phase::Storing;
                    Action::Store(key)
                } else {
                    self.phase = Phase::Done;
                    Action::ReturnRemote
                }
            },
            Event::Stored(_) => {
                self.phase = Phase::Done;
                Action::ReturnRemote
            },
        }
    }
}

} // verus!
