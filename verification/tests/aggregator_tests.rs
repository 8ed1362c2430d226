use music_dl::aggregator::Aggregator;
use music_dl::track::{DlStatus, Track};

fn named(title: &str, artist: &str) -> Track {
    Track {
        title: title.to_string(),
        artist: artist.to_string(),
        album: String::new(),
        duration: 0,
        track_pos: None,
        cover_url: String::new(),
        is_album_track: false,
    }
}

fn batch(n: usize) -> Vec<Track> {
    let mut v = Vec::new();
    for i in 0..n {
        v.push(named(&format!("t{i}"), "a"));
    }
    v
}

#[test]
fn submit_creates_queued_records_with_fresh_handles() {
    let mut agg = Aggregator::new();
    let ids = agg.submit(batch(3));
    assert_eq!(ids, vec![0, 1, 2]);
    assert_eq!(agg.total, 3);
    assert_eq!(agg.done, 0);
    assert!(agg.active);
    for (i, rec) in agg.records.iter().enumerate() {
        assert_eq!(rec.id, ids[i]);
        assert_eq!(rec.status, DlStatus::Queued);
        assert_eq!(rec.progress, 0);
    }
}

#[test]
fn new_batch_clears_old_records_and_keeps_handles_fresh() {
    let mut agg = Aggregator::new();
    let first = agg.submit(batch(2));
    let second = agg.submit(batch(2));
    assert_eq!(agg.records.len(), 2);
    assert_eq!(second, vec![2, 3]);
    assert!(first.iter().all(|id| !second.contains(id)));
}

#[test]
fn empty_submission_changes_nothing() {
    let mut agg = Aggregator::new();
    let ids = agg.submit(Vec::new());
    assert!(ids.is_empty());
    assert_eq!(agg.total, 0);
    assert!(!agg.active);
}

#[test]
fn progress_updates_matching_record() {
    let mut agg = Aggregator::new();
    let ids = agg.submit(batch(2));
    agg.on_progress(ids[1], 4200);
    assert_eq!(agg.records[1].status, DlStatus::Active(4200));
    assert_eq!(agg.records[1].progress, 4200);
    assert_eq!(agg.records[0].status, DlStatus::Queued);
}

#[test]
fn progress_for_unknown_handle_is_dropped() {
    let mut agg = Aggregator::new();
    agg.submit(batch(1));
    agg.on_progress(99, 5000);
    assert_eq!(agg.records[0].status, DlStatus::Queued);
}

#[test]
fn progress_never_runs_backwards() {
    let mut agg = Aggregator::new();
    let ids = agg.submit(batch(1));
    agg.on_progress(ids[0], 5000);
    agg.on_progress(ids[0], 1000);
    assert_eq!(agg.records[0].progress, 5000);
    assert_eq!(agg.records[0].status, DlStatus::Active(5000));
}

#[test]
fn completion_counts_and_finishes_exactly_once() {
    let mut agg = Aggregator::new();
    let ids = agg.submit(batch(2));
    let (entry, finished) = agg.on_terminal(ids[0], Ok("log one".to_string()));
    assert!(entry.is_some());
    assert!(!finished);
    assert_eq!(agg.done, 1);
    let (_, finished) = agg.on_terminal(ids[1], Err("boom".to_string()));
    assert!(finished);
    assert_eq!(agg.done, 2);
    assert!(!agg.active);
    // A repeated terminal event never reports completion again.
    let (entry, finished) = agg.on_terminal(ids[1], Ok("late".to_string()));
    assert!(entry.is_none());
    assert!(!finished);
    assert_eq!(agg.done, 2);
}

#[test]
fn terminal_states_are_never_left() {
    let mut agg = Aggregator::new();
    let ids = agg.submit(batch(2));
    agg.on_terminal(ids[0], Ok("done".to_string()));
    agg.on_progress(ids[0], 5000);
    assert_eq!(agg.records[0].status, DlStatus::Done);
    assert_eq!(agg.records[0].progress, 10000);
    agg.on_terminal(ids[1], Err("e".to_string()));
    agg.on_terminal(ids[1], Ok("surprise".to_string()));
    assert_eq!(agg.records[1].status, DlStatus::Failed("e".to_string()));
}

#[test]
fn query_reports_status_and_progress_by_handle() {
    let mut agg = Aggregator::new();
    let ids = agg.submit(batch(2));
    agg.on_progress(ids[1], 4200);
    assert_eq!(agg.query(ids[0]), Some((DlStatus::Queued, 0)));
    assert_eq!(agg.query(ids[1]), Some((DlStatus::Active(4200), 4200)));
    assert_eq!(agg.query(999), None);
}

#[test]
fn log_entries_carry_labels_and_output() {
    let mut agg = Aggregator::new();
    let ids = agg.submit(vec![named("Song", "Artist"), named("Other", "Artist")]);
    let (entry, _) = agg.on_terminal(ids[0], Ok("raw output".to_string()));
    assert_eq!(entry.unwrap(), "=== Artist - Song ===\nraw output");
    let (entry, _) = agg.on_terminal(ids[1], Err("boom".to_string()));
    assert_eq!(entry.unwrap(), "=== fail: Artist - Other ===\nboom");
    assert_eq!(agg.logs.len(), 2);
}

#[test]
fn eta_matches_uniform_cost_formula() {
    // completed = 1 of total = 4 after 10 s: 30 s remain.
    let mut agg = Aggregator::new();
    let ids = agg.submit(batch(4));
    assert_eq!(agg.estimate_remaining(10_000), None);
    agg.on_terminal(ids[0], Ok(String::new()));
    assert_eq!(agg.estimate_remaining(10_000), Some(30));
    assert_eq!(agg.eta_string(10_000), "eta 00:30");
}

#[test]
fn eta_empty_without_batch_or_completion_or_remainder() {
    let mut agg = Aggregator::new();
    assert_eq!(agg.eta_string(10_000), "");
    let ids = agg.submit(batch(1));
    assert_eq!(agg.eta_string(10_000), "");
    agg.on_terminal(ids[0], Ok(String::new()));
    assert_eq!(agg.eta_string(10_000), "");
}

#[test]
fn eta_pads_minutes_and_seconds() {
    let mut agg = Aggregator::new();
    let ids = agg.submit(batch(2));
    agg.on_terminal(ids[0], Ok(String::new()));
    // 61 s elapsed for one item: 61 s remain.
    assert_eq!(agg.eta_string(61_000), "eta 01:01");
}

// A deterministic pseudo-random stream of events: whatever arrives and in
// whatever order, completed never exceeds total, no record leaves a terminal
// state, and the batch finishes at most once.
#[test]
fn random_event_sequences_respect_the_monotone_order() {
    let mut seed: u64 = 0x2545F4914F6CDD1D;
    let mut rand = move || {
        seed ^= seed << 13;
        seed ^= seed >> 7;
        seed ^= seed << 17;
        seed
    };
    for _round in 0..50 {
        let mut agg = Aggregator::new();
        let ids = agg.submit(batch(4));
        let mut terminal_seen: Vec<Option<DlStatus>> = vec![None; 4];
        let mut finishes = 0;
        for _step in 0..40 {
            let id = ids[(rand() % 4) as usize];
            let idx = agg.records.iter().position(|r| r.id == id).unwrap();
            match rand() % 4 {
                0 => agg.on_progress(id, (rand() % 12000) as u32),
                1 => {
                    let (_, fin) = agg.on_terminal(id, Ok("ok".to_string()));
                    if fin {
                        finishes += 1;
                    }
                }
                2 => {
                    let (_, fin) = agg.on_terminal(id, Err("err".to_string()));
                    if fin {
                        finishes += 1;
                    }
                }
                _ => agg.on_progress(9999, 100),
            }
            assert!(agg.done <= agg.total);
            let status = agg.records[idx].status.clone();
            match &terminal_seen[idx] {
                Some(frozen) => assert_eq!(&status, frozen),
                None => {
                    if matches!(status, DlStatus::Done | DlStatus::Failed(_)) {
                        terminal_seen[idx] = Some(status);
                    }
                }
            }
        }
        assert!(finishes <= 1);
    }
}
