use std::collections::HashMap;

use codecov_cache::fetch::{Action, BranchQuery, CacheRead, Event, Fetcher, RemoteOutcome};

fn query(commit: &str) -> BranchQuery {
    BranchQuery {
        service: "svc".to_string(),
        username: "u".to_string(),
        repo_name: "r".to_string(),
        branch_name: "main".to_string(),
        commit_id: commit.to_string(),
    }
}

fn key(parts: &[&str]) -> Vec<String> {
    parts.iter().map(|s| s.to_string()).collect()
}

#[derive(Debug, PartialEq)]
enum Answer {
    Cached(Vec<u8>),
    Remote(Vec<u8>),
    RemoteError,
}

/// Runs one query against an in-memory store. An entry decodes when it
/// starts with `{`; the remote answer is `remote`.
fn run(
    q: BranchQuery,
    store: &mut HashMap<Vec<String>, Vec<u8>>,
    remote: Option<Option<&str>>,
) -> (Answer, usize) {
    let (mut fetcher, mut action) = Fetcher::start(q);
    let mut loaded: Option<Vec<u8>> = None;
    let mut stores = 0;
    loop {
        let event = match action {
            Action::Load(k) => match store.get(&k) {
                None => Event::CacheRead(CacheRead::Missing),
                Some(bytes) if bytes.first() == Some(&b'{') => {
                    loaded = Some(bytes.clone());
                    Event::CacheRead(CacheRead::Decoded)
                }
                Some(_) => Event::CacheRead(CacheRead::Undecodable),
            },
            Action::Fetch => match remote {
                None => Event::Remote(RemoteOutcome::Failed),
                Some(None) => Event::Remote(RemoteOutcome::NotFound),
                Some(Some(head)) => Event::Remote(RemoteOutcome::Success {
                    head_commit_id: head.to_string(),
                }),
            },
            Action::Store(k) => {
                stores += 1;
                store.insert(k, b"{fresh}".to_vec());
                Event::Stored(true)
            }
            Action::ReturnCached => return (Answer::Cached(loaded.unwrap()), stores),
            Action::ReturnRemote => return (Answer::Remote(b"{fresh}".to_vec()), stores),
            Action::ReturnRemoteError => return (Answer::RemoteError, stores),
        };
        assert!(fetcher.awaits(&event));
        action = fetcher.step(event);
    }
}

#[test]
fn miss_stores_under_resolved_head_commit() {
    let mut store = HashMap::new();
    let (answer, stores) = run(query("c1"), &mut store, Some(Some("c2")));
    assert_eq!(answer, Answer::Remote(b"{fresh}".to_vec()));
    assert_eq!(stores, 1);
    assert!(store.contains_key(&key(&["svc", "u", "r", "main", "c2"])));
    assert!(!store.contains_key(&key(&["svc", "u", "r", "main", "c1"])));
}

#[test]
fn corrupt_entry_falls_through_to_remote() {
    let mut store = HashMap::new();
    store.insert(key(&["svc", "u", "r", "main", "c1"]), b"not json".to_vec());
    let (answer, _) = run(query("c1"), &mut store, Some(Some("c1")));
    assert_eq!(answer, Answer::Remote(b"{fresh}".to_vec()));
    assert_eq!(store.get(&key(&["svc", "u", "r", "main", "c1"])), Some(&b"{fresh}".to_vec()));
}

#[test]
fn remote_failure_is_returned_and_nothing_stored() {
    let mut store = HashMap::new();
    let (answer, stores) = run(query("c1"), &mut store, None);
    assert_eq!(answer, Answer::RemoteError);
    assert_eq!(stores, 0);
    assert!(store.is_empty());
}

#[test]
fn decoded_entry_is_served_without_remote_call() {
    let mut store = HashMap::new();
    store.insert(key(&["svc", "u", "r", "main", "c1"]), b"{cached}".to_vec());
    let (answer, stores) = run(query("c1"), &mut store, None);
    assert_eq!(answer, Answer::Cached(b"{cached}".to_vec()));
    assert_eq!(stores, 0);
}

#[test]
fn not_found_answer_is_returned_and_not_stored() {
    let mut store = HashMap::new();
    let (answer, stores) = run(query("c1"), &mut store, Some(None));
    assert_eq!(answer, Answer::Remote(b"{fresh}".to_vec()));
    assert_eq!(stores, 0);
}

#[test]
fn second_query_with_resolved_commit_hits() {
    let mut store = HashMap::new();
    run(query("c1"), &mut store, Some(Some("c2")));
    let (answer, stores) = run(query("c2"), &mut store, None);
    assert_eq!(answer, Answer::Cached(b"{fresh}".to_vec()));
    assert_eq!(stores, 0);
}

#[test]
fn query_without_commit_goes_live_first() {
    let (fetcher, action) = Fetcher::start(query(""));
    assert!(matches!(action, Action::Fetch));
    assert!(!fetcher.is_done());
    assert!(fetcher.awaits(&Event::Remote(RemoteOutcome::Failed)));
    assert!(!fetcher.awaits(&Event::CacheRead(CacheRead::Missing)));
}

#[test]
fn start_loads_lookup_key() {
    let (_, action) = Fetcher::start(query("c1"));
    match action {
        Action::Load(k) => assert_eq!(k, key(&["svc", "u", "r", "main", "c1"])),
        _ => panic!("expected a load"),
    }
}

#[test]
fn unusable_head_commit_is_not_stored() {
    let mut store = HashMap::new();
    let (answer, stores) = run(query("c1"), &mut store, Some(Some("")));
    assert_eq!(answer, Answer::Remote(b"{fresh}".to_vec()));
    assert_eq!(stores, 0);
    let (_, stores) = run(query("c1"), &mut store, Some(Some("a/b")));
    assert_eq!(stores, 0);
}

#[test]
fn finished_query_awaits_nothing() {
    let (mut fetcher, _) = Fetcher::start(query("c1"));
    let action = fetcher.step(Event::CacheRead(CacheRead::Missing));
    assert!(matches!(action, Action::Fetch));
    let action = fetcher.step(Event::Remote(RemoteOutcome::Failed));
    assert!(matches!(action, Action::ReturnRemoteError));
    assert!(fetcher.is_done());
    assert!(!fetcher.awaits(&Event::Stored(true)));
    assert!(!fetcher.awaits(&Event::Remote(RemoteOutcome::Failed)));
    assert!(!fetcher.awaits(&Event::CacheRead(CacheRead::Decoded)));
}

#[test]
fn keys_of_a_query() {
    let q = query("c1");
    assert_eq!(q.lookup_key(), key(&["svc", "u", "r", "main", "c1"]));
    assert_eq!(q.canonical_key(&"c9".to_string()), key(&["svc", "u", "r", "main", "c9"]));
}
