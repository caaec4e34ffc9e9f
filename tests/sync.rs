use mcl_rs::descriptor::{ResourceDescriptor, ResourceKind};
use mcl_rs::integrity::{assess, LocalFile, Validity};
use mcl_rs::sync::{needs_fetch, pending_bytes, select_pending, EntryAction, EntryEvent, EntryState, FetchScheduler};

fn descriptor(size: u64) -> ResourceDescriptor {
    ResourceDescriptor {
        url: "http://x/y".to_string(),
        sha1: "a9993e364706816aba3e25717850c26c9cd0d89d".to_string(),
        size,
        local_path: "/tmp/y".to_string(),
        kind: ResourceKind::AssetObject,
    }
}

#[test]
fn pending_selection() {
    let valid = vec![true, false, true, false];
    assert_eq!(select_pending(&valid, false), vec![1, 3]);
    assert_eq!(select_pending(&valid, true), vec![0, 1, 2, 3]);
    assert!(select_pending(&vec![], false).is_empty());
}

#[test]
fn second_sync_fetches_nothing() {
    let ds = vec![descriptor(3), descriptor(3)];
    let valid: Vec<bool> = ds
        .iter()
        .map(|d| assess(&LocalFile::Loaded { content: b"abc".to_vec() }, &d.sha1, d.size) == Validity::Valid)
        .collect();
    assert_eq!(valid, vec![true, true]);
    assert!(select_pending(&valid, false).is_empty());
}

#[test]
fn pending_bytes_sum_and_saturate() {
    let ds = vec![descriptor(10), descriptor(20), descriptor(u64::MAX)];
    assert_eq!(pending_bytes(&ds, &vec![0, 1]), 30);
    assert_eq!(pending_bytes(&ds, &vec![]), 0);
    assert_eq!(pending_bytes(&ds, &vec![1, 2]), u64::MAX);
}

#[test]
fn concurrency_limit_is_never_exceeded() {
    let mut s = FetchScheduler::new((0..1000).collect(), 16);
    let mut started = Vec::new();
    while let Some(i) = s.next_job() {
        started.push(i);
    }
    assert_eq!(started.len(), 16);
    assert_eq!(s.in_flight, 16);
    let mut max_in_flight = s.in_flight;
    let mut done = 0;
    while !s.is_finished() {
        s.job_finished(0, true);
        done += 1;
        while let Some(_) = s.next_job() {}
        max_in_flight = max_in_flight.max(s.in_flight);
        assert!(s.in_flight <= 16);
    }
    assert_eq!(done, 1000);
    assert_eq!(s.completed, 1000);
    assert_eq!(max_in_flight, 16);
}

#[test]
fn zero_limit_sets_no_bound() {
    let mut s = FetchScheduler::new(vec![5, 6, 7], 0);
    assert_eq!(s.next_job(), Some(5));
    assert_eq!(s.next_job(), Some(6));
    assert_eq!(s.next_job(), Some(7));
    assert_eq!(s.next_job(), None);
}

#[test]
fn failure_stops_scheduling() {
    let mut s = FetchScheduler::new((0..10).collect(), 3);
    assert_eq!(s.next_job(), Some(0));
    assert_eq!(s.next_job(), Some(1));
    assert_eq!(s.next_job(), Some(2));
    assert!(s.job_finished(1, false));
    assert_eq!(s.first_failure, Some(1));
    assert_eq!(s.next_job(), None);
    assert!(!s.is_finished());
    assert!(!s.job_finished(0, false));
    assert!(!s.job_finished(2, true));
    assert_eq!(s.first_failure, Some(1));
    assert!(s.is_finished());
    assert_eq!(s.next, 3);
}

#[test]
fn entry_states_of_a_plain_file() {
    let k = ResourceKind::LibraryArtifact;
    let s = EntryState::Unchecked;
    assert_eq!(s.action(), EntryAction::Check);
    assert_eq!(s.advance(k, EntryEvent::Checked { valid: true }), EntryState::Valid);
    let s = s.advance(k, EntryEvent::Checked { valid: false });
    assert_eq!(s, EntryState::Invalid);
    assert_eq!(s.action(), EntryAction::Fetch);
    let s = s.advance(k, EntryEvent::FetchStarted);
    assert_eq!(s, EntryState::Fetching);
    assert_eq!(s.advance(k, EntryEvent::FetchEnded { ok: false }), EntryState::Failed);
    let s = s.advance(k, EntryEvent::FetchEnded { ok: true });
    assert_eq!(s, EntryState::Done);
    assert!(s.is_terminal());
    assert_eq!(s.action(), EntryAction::Nothing);
}

#[test]
fn native_archive_is_extracted_after_fetch() {
    let k = ResourceKind::NativeArchive;
    let s = EntryState::Fetching.advance(k, EntryEvent::FetchEnded { ok: true });
    assert_eq!(s, EntryState::Extracting);
    assert!(!s.is_terminal());
    assert_eq!(s.action(), EntryAction::Extract);
    assert_eq!(s.advance(k, EntryEvent::ExtractEnded { ok: true }), EntryState::Done);
    assert_eq!(s.advance(k, EntryEvent::ExtractEnded { ok: false }), EntryState::Failed);
    // Events that do not apply leave the state as it is.
    assert_eq!(EntryState::Valid.advance(k, EntryEvent::FetchStarted), EntryState::Valid);
}

#[test]
fn native_archive_is_fetched_when_natives_are_missing() {
    assert!(needs_fetch(ResourceKind::NativeArchive, true, false));
    assert!(!needs_fetch(ResourceKind::NativeArchive, true, true));
    assert!(needs_fetch(ResourceKind::NativeArchive, false, true));
    assert!(!needs_fetch(ResourceKind::LibraryArtifact, true, false));
    assert!(needs_fetch(ResourceKind::AssetObject, false, true));
    let s = EntryState::Unchecked.advance(
        ResourceKind::NativeArchive,
        EntryEvent::Checked { valid: !needs_fetch(ResourceKind::NativeArchive, true, false) },
    );
    assert_eq!(s, EntryState::Invalid);
}
