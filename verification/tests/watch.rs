use osm_feed::state::{FetchFailure, StateInfo};
use osm_feed::timestamp::Timestamp;
use osm_feed::watch::{WatchAction, WatchEntry, WatchPhase, WatchStream, POLL_INTERVAL_SECS};

fn state(seqno: u64) -> StateInfo {
    StateInfo { seqno, timestamp: Timestamp { secs: 60 * seqno as i64, nanos: 0 } }
}

/// Drives a watch over a feed whose current record is `latest` and which has
/// every record but those in `missing`, until the watch is over or waits.
fn drive(
    start: u64,
    latest: u64,
    follow: bool,
    urls_only: bool,
    missing: &[u64],
) -> (Vec<WatchEntry>, WatchAction, Vec<u64>) {
    let mut watch = WatchStream::new(start, follow, urls_only);
    let mut entries = Vec::new();
    let mut fetched = Vec::new();
    for _ in 0..100_000 {
        match watch.action() {
            WatchAction::FetchCurrent { wait_secs: 0 } => watch = watch.fetched(Ok(state(latest))),
            WatchAction::FetchState(seqno) => {
                fetched.push(seqno);
                watch = if missing.contains(&seqno) {
                    watch.fetched(Err(FetchFailure::NotFound))
                } else {
                    watch.fetched(Ok(state(seqno)))
                };
            }
            WatchAction::Emit(entry) => {
                entries.push(entry);
                watch = watch.emitted();
            }
            other => return (entries, other, fetched),
        }
    }
    panic!("the watch did not come to rest");
}

#[test]
fn watch_from_the_latest_record_hands_out_nothing() {
    let (entries, end, fetched) = drive(1000, 1000, false, false, &[]);
    assert!(entries.is_empty());
    assert_eq!(end, WatchAction::Stop);
    assert!(fetched.is_empty());
}

#[test]
fn watch_from_beyond_the_latest_record_hands_out_nothing() {
    let (entries, end, _) = drive(1005, 1000, false, false, &[]);
    assert!(entries.is_empty());
    assert_eq!(end, WatchAction::Stop);
}

#[test]
fn watch_hands_out_every_number_up_to_the_latest_once() {
    let (entries, end, fetched) = drive(10, 25, false, false, &[]);
    assert_eq!(end, WatchAction::Stop);
    assert_eq!(entries.len(), 15);
    let numbers: Vec<u64> = entries.iter().map(|entry| entry.seqno).collect();
    assert_eq!(numbers, (11..=25).collect::<Vec<u64>>());
    assert_eq!(fetched, numbers);
    for entry in &entries {
        assert_eq!(entry.state, Some(state(entry.seqno)));
    }
}

#[test]
fn watch_of_addresses_fetches_no_state_records() {
    let (entries, end, fetched) = drive(0, 4, false, true, &[]);
    assert_eq!(end, WatchAction::Stop);
    assert!(fetched.is_empty());
    assert_eq!(
        entries,
        vec![
            WatchEntry { seqno: 1, state: None },
            WatchEntry { seqno: 2, state: None },
            WatchEntry { seqno: 3, state: None },
            WatchEntry { seqno: 4, state: None },
        ]
    );
}

#[test]
fn watch_that_follows_waits_when_the_feed_is_exhausted() {
    let (entries, end, _) = drive(7, 9, true, false, &[]);
    assert_eq!(entries.len(), 2);
    assert_eq!(end, WatchAction::FetchCurrent { wait_secs: 60 });
    assert_eq!(POLL_INTERVAL_SECS, 60);
}

#[test]
fn watch_that_follows_goes_on_when_the_feed_has_grown() {
    let mut watch = WatchStream::new(5, true, true);
    assert_eq!(watch.action(), WatchAction::FetchCurrent { wait_secs: 0 });
    watch = watch.fetched(Ok(state(5)));
    assert_eq!(watch.action(), WatchAction::FetchCurrent { wait_secs: 60 });
    // nothing new: wait again, hand out nothing
    watch = watch.fetched(Ok(state(5)));
    assert_eq!(watch.action(), WatchAction::FetchCurrent { wait_secs: 60 });
    assert_eq!(watch.cursor(), 5);
    watch = watch.fetched(Ok(state(7)));
    assert_eq!(watch.action(), WatchAction::Emit(WatchEntry { seqno: 6, state: None }));
    watch = watch.emitted();
    assert_eq!(watch.action(), WatchAction::Emit(WatchEntry { seqno: 7, state: None }));
    watch = watch.emitted();
    assert_eq!(watch.cursor(), 7);
    assert_eq!(watch.phase(), WatchPhase::Polling { wait: true });
}

#[test]
fn missing_state_record_fails_the_watch() {
    let (entries, end, fetched) = drive(0, 5, false, false, &[3]);
    assert_eq!(entries.len(), 2);
    assert_eq!(end, WatchAction::Fail(FetchFailure::NotFound));
    assert_eq!(fetched, vec![1, 2, 3]);
}

#[test]
fn current_record_that_cannot_be_fetched_fails_the_watch() {
    let watch = WatchStream::new(0, true, false).fetched(Err(FetchFailure::Transport));
    assert_eq!(watch.action(), WatchAction::Fail(FetchFailure::Transport));
    assert_eq!(watch.phase(), WatchPhase::Failed { failure: FetchFailure::Transport });
    // a failed watch stays failed
    let watch = watch.fetched(Ok(state(9))).emitted();
    assert_eq!(watch.action(), WatchAction::Fail(FetchFailure::Transport));
}

#[test]
fn entry_shows_the_number_that_the_record_reports() {
    let watch = WatchStream::new(41, false, false).fetched(Ok(state(42)));
    assert_eq!(watch.action(), WatchAction::FetchState(42));
    let watch = watch.fetched(Ok(state(40)));
    assert_eq!(watch.action(), WatchAction::Emit(WatchEntry { seqno: 42, state: Some(state(40)) }));
}

#[test]
fn reports_that_were_not_asked_for_change_nothing() {
    let watch = WatchStream::new(1, false, false).fetched(Ok(state(3)));
    assert_eq!(watch.action(), WatchAction::FetchState(2));
    // no entry is out yet
    let watch = watch.emitted();
    assert_eq!(watch.action(), WatchAction::FetchState(2));
    let watch = watch.fetched(Ok(state(2)));
    let entry = WatchEntry { seqno: 2, state: Some(state(2)) };
    assert_eq!(watch.action(), WatchAction::Emit(entry));
    // no fetch is asked for
    let watch = watch.fetched(Err(FetchFailure::Transport));
    assert_eq!(watch.action(), WatchAction::Emit(entry));
}

#[test]
fn watch_reaches_the_largest_sequence_number() {
    let (entries, end, _) = drive(u64::MAX - 2, u64::MAX, false, true, &[]);
    assert_eq!(end, WatchAction::Stop);
    let numbers: Vec<u64> = entries.iter().map(|entry| entry.seqno).collect();
    assert_eq!(numbers, vec![u64::MAX - 1, u64::MAX]);
}
