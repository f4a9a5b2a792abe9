use osm_feed::replication::{
    push_triplet_path, seqno_to_triplet, CliArgs, ReplicationServer, SeqnoOffset, StartPoint,
    StateFileFormat, UsageError,
};
use osm_feed::state::StateInfo;
use osm_feed::timestamp::Timestamp;
use osm_feed::watch::{WatchAction, WatchEntry};

fn args(since: Option<&str>, seqno: Option<u64>, server: &str) -> CliArgs {
    CliArgs {
        since: since.map(str::to_string),
        seqno,
        watch: false,
        urls_only: false,
        server: server.to_string(),
    }
}

fn path(seqno: u64) -> String {
    let mut out = String::new();
    push_triplet_path(&mut out, seqno);
    out
}

#[test]
fn sequence_number_splits_into_three_groups() {
    assert_eq!(seqno_to_triplet(1_234_567), (1, 234, 567));
    assert_eq!(path(1_234_567), "001/234/567");
}

#[test]
fn groups_of_small_and_large_numbers() {
    assert_eq!(seqno_to_triplet(0), (0, 0, 0));
    assert_eq!(seqno_to_triplet(999), (0, 0, 999));
    assert_eq!(seqno_to_triplet(1_000), (0, 1, 0));
    assert_eq!(seqno_to_triplet(999_999_999), (999, 999, 999));
    assert_eq!(seqno_to_triplet(1_000_000_000), (1000, 0, 0));
    assert_eq!(seqno_to_triplet(65_535_999_999), (65_535, 999, 999));
    // the millions are kept to 16 bits
    assert_eq!(seqno_to_triplet(65_536_000_001), (0, 0, 1));
    assert_eq!(seqno_to_triplet(u64::MAX), (46_573, 551, 615));
}

#[test]
fn path_pads_each_group_to_three_digits() {
    assert_eq!(path(0), "000/000/000");
    assert_eq!(path(7), "000/000/007");
    assert_eq!(path(42_010), "000/042/010");
    assert_eq!(path(999_999_999), "999/999/999");
    assert_eq!(path(1_000_000_000), "1000/000/000");
    assert_eq!(path(65_535_000_000), "65535/000/000");
}

#[test]
fn path_appends_to_what_is_there() {
    let mut out = String::from("x/");
    push_triplet_path(&mut out, 5_006_007);
    assert_eq!(out, "x/005/006/007");
}

#[test]
fn groups_read_back_give_the_sequence_number() {
    for seqno in [0u64, 1, 999, 1_000, 123_456, 1_234_567, 900_000_001, 999_999_999] {
        let text = path(seqno);
        let groups: Vec<u64> = text.split('/').map(|group| group.parse().unwrap()).collect();
        assert_eq!(groups.len(), 3);
        assert!(text.split('/').all(|group| group.len() == 3));
        assert_eq!(groups[0] * 1_000_000 + groups[1] * 1_000 + groups[2], seqno);
        let (hi, mid, lo) = seqno_to_triplet(seqno);
        assert_eq!((hi as u64, mid as u64, lo as u64), (groups[0], groups[1], groups[2]));
    }
}

#[test]
fn minute_feed_is_known_by_name() {
    let server = ReplicationServer::from_name("minute");
    assert_eq!(server.base_url, "https://planet.openstreetmap.org/replication/minute");
    assert_eq!(server.current_state_path, "state.txt");
    assert_eq!(server.state_file_format, StateFileFormat::Text);
    assert_eq!(server.state_file_extension, ".state.txt");
    assert_eq!(server.data_file_extension, ".osc.gz");
    assert_eq!(server.seqno_offset, SeqnoOffset::Unchanged);
}

#[test]
fn changesets_feed_is_known_by_name() {
    let server = ReplicationServer::from_name("changesets");
    assert_eq!(server.base_url, "https://planet.openstreetmap.org/replication/changesets");
    assert_eq!(server.current_state_path, "state.yaml");
    assert_eq!(server.state_file_format, StateFileFormat::Yaml);
    assert_eq!(server.state_file_extension, ".state.txt");
    assert_eq!(server.data_file_extension, ".osm.gz");
    assert_eq!(server.seqno_offset, SeqnoOffset::ByOne);
}

#[test]
fn any_other_name_is_an_address() {
    let server = ReplicationServer::from_name("https://example.org/replication/hour");
    assert_eq!(server.base_url, "https://example.org/replication/hour");
    assert_eq!(server.current_state_path, "state.txt");
    assert_eq!(server.state_file_format, StateFileFormat::Text);
    assert_eq!(server.state_file_extension, ".state.txt");
    assert_eq!(server.data_file_extension, ".osc.gz");
    assert_eq!(server.seqno_offset, SeqnoOffset::Unchanged);
    assert_eq!(ReplicationServer::from_name("Minute").base_url, "Minute");
    assert_eq!(ReplicationServer::from_name("").base_url, "");
}

#[test]
fn changesets_feed_under_its_address_is_off_by_one_too() {
    let server =
        ReplicationServer::from_name("https://planet.openstreetmap.org/replication/changesets");
    assert_eq!(server.seqno_offset, SeqnoOffset::ByOne);
    assert_eq!(server.state_file_format, StateFileFormat::Text);
    assert_eq!(server.seqno_for_url(10), 11);
    let other =
        ReplicationServer::from_name("https://planet.openstreetmap.org/replication/changesets/");
    assert_eq!(other.seqno_offset, SeqnoOffset::Unchanged);
}

#[test]
fn only_the_changesets_feed_numbers_its_addresses_one_higher() {
    let changesets = ReplicationServer::changesets();
    assert_eq!(changesets.seqno_for_url(0), 1);
    assert_eq!(changesets.seqno_for_url(1_234_567), 1_234_568);
    assert_eq!(changesets.seqno_for_url(u64::MAX - 1), u64::MAX);
    assert_eq!(changesets.seqno_for_url(u64::MAX), u64::MAX);
    let minute = ReplicationServer::minute();
    let custom = ReplicationServer::custom("https://example.org/feed");
    for seqno in [0u64, 1, 1_234_567, u64::MAX] {
        assert_eq!(minute.seqno_for_url(seqno), seqno);
        assert_eq!(custom.seqno_for_url(seqno), seqno);
    }
}

#[test]
fn addresses_of_the_minute_feed() {
    let server = ReplicationServer::minute();
    assert_eq!(
        server.latest_state_url(),
        "https://planet.openstreetmap.org/replication/minute/state.txt"
    );
    assert_eq!(
        server.state_url(1_234_567),
        "https://planet.openstreetmap.org/replication/minute/001/234/567.state.txt"
    );
    assert_eq!(
        server.data_url(1_234_567),
        "https://planet.openstreetmap.org/replication/minute/001/234/567.osc.gz"
    );
    assert_eq!(
        server.state_url(0),
        "https://planet.openstreetmap.org/replication/minute/000/000/000.state.txt"
    );
}

#[test]
fn addresses_of_the_changesets_feed_bear_the_next_number() {
    let server = ReplicationServer::changesets();
    assert_eq!(
        server.latest_state_url(),
        "https://planet.openstreetmap.org/replication/changesets/state.yaml"
    );
    assert_eq!(
        server.state_url(1_234_567),
        "https://planet.openstreetmap.org/replication/changesets/001/234/568.state.txt"
    );
    assert_eq!(
        server.data_url(1_234_567),
        "https://planet.openstreetmap.org/replication/changesets/001/234/568.osm.gz"
    );
    assert_eq!(
        server.data_url(999),
        "https://planet.openstreetmap.org/replication/changesets/000/001/000.osm.gz"
    );
}

#[test]
fn addresses_of_a_feed_put_together_by_hand() {
    let server = ReplicationServer {
        base_url: "http://localhost:8080/r".to_string(),
        current_state_path: "now/state.yaml".to_string(),
        state_file_format: StateFileFormat::Yaml,
        state_file_extension: ".yaml".to_string(),
        data_file_extension: "".to_string(),
        seqno_offset: SeqnoOffset::Unchanged,
    };
    assert_eq!(server.latest_state_url(), "http://localhost:8080/r/now/state.yaml");
    assert_eq!(server.state_url(12), "http://localhost:8080/r/000/000/012.yaml");
    assert_eq!(server.data_url(12), "http://localhost:8080/r/000/000/012");
}

#[test]
fn line_of_an_entry_with_its_record() {
    let server = ReplicationServer::minute();
    let entry = WatchEntry {
        seqno: 5_912_545,
        state: Some(StateInfo {
            seqno: 5_912_545,
            timestamp: Timestamp { secs: 1_704_553_486, nanos: 0 },
        }),
    };
    assert_eq!(
        server.line(&entry).as_deref(),
        Some(
            "5912545 2024-01-06T15:04:46Z \
             https://planet.openstreetmap.org/replication/minute/005/912/545.osc.gz"
        )
    );
}

#[test]
fn line_of_an_entry_without_a_record_is_the_address() {
    let server = ReplicationServer::minute();
    let entry = WatchEntry { seqno: 3, state: None };
    assert_eq!(
        server.line(&entry).as_deref(),
        Some("https://planet.openstreetmap.org/replication/minute/000/000/003.osc.gz")
    );
}

#[test]
fn line_shows_the_number_of_the_record_and_the_address_of_the_file() {
    let server = ReplicationServer::changesets();
    let entry = WatchEntry {
        seqno: 1_234_567,
        state: Some(StateInfo { seqno: 1_234_567, timestamp: Timestamp { secs: 0, nanos: 0 } }),
    };
    assert_eq!(
        server.line(&entry).as_deref(),
        Some(
            "1234567 1970-01-01T00:00:00Z \
             https://planet.openstreetmap.org/replication/changesets/001/234/568.osm.gz"
        )
    );
    let minute_like = ReplicationServer { seqno_offset: SeqnoOffset::Unchanged, ..server };
    let line = minute_like.line(&entry).unwrap();
    assert!(line.starts_with("1234567 1970-01-01T00:00:00Z "));
    assert!(line.ends_with("/001/234/567.osm.gz"));
}

#[test]
fn line_of_a_record_dated_outside_the_calendar_cannot_be_written() {
    let server = ReplicationServer::minute();
    let entry = WatchEntry {
        seqno: 1,
        state: Some(StateInfo { seqno: 1, timestamp: Timestamp { secs: i64::MAX, nanos: 0 } }),
    };
    assert_eq!(server.line(&entry), None);
}

#[test]
fn run_starts_at_the_time_given() {
    let start = args(Some("2024-01-01T00:00:00Z"), None, "minute").start();
    assert_eq!(start, Ok(StartPoint::Since(Timestamp { secs: 1_704_067_200, nanos: 0 })));
    let start = args(Some("Mon, 1 Jan 2024 00:00:00 +0000"), Some(5), "minute").start();
    assert_eq!(start, Ok(StartPoint::Since(Timestamp { secs: 1_704_067_200, nanos: 0 })));
}

#[test]
fn run_starts_at_the_sequence_number_given() {
    assert_eq!(args(None, Some(77), "minute").start(), Ok(StartPoint::Seqno(77)));
}

#[test]
fn run_without_a_start_is_refused() {
    assert_eq!(args(None, None, "minute").start(), Err(UsageError::MissingStart));
}

#[test]
fn run_with_a_time_that_is_no_date_is_refused() {
    assert_eq!(args(Some("last week"), None, "minute").start(), Err(UsageError::BadTimestamp));
    assert_eq!(args(Some("last week"), Some(5), "minute").start(), Err(UsageError::BadTimestamp));
}

#[test]
fn starting_point_is_picked_from_what_was_read() {
    let at = Timestamp { secs: 1, nanos: 2 };
    assert_eq!(StartPoint::pick(Some(Some(at)), Some(9)), Ok(StartPoint::Since(at)));
    assert_eq!(StartPoint::pick(Some(None), Some(9)), Err(UsageError::BadTimestamp));
    assert_eq!(StartPoint::pick(None, Some(9)), Ok(StartPoint::Seqno(9)));
    assert_eq!(StartPoint::pick(None, None), Err(UsageError::MissingStart));
}

#[test]
fn command_line_names_the_feed_and_makes_the_watch() {
    let mut given = args(None, Some(3), "changesets");
    assert_eq!(given.server().state_file_format, StateFileFormat::Yaml);
    given.watch = true;
    given.urls_only = true;
    let watch = given.stream(3);
    assert_eq!(watch.cursor(), 3);
    let watch = watch.fetched(Ok(StateInfo { seqno: 4, timestamp: Timestamp { secs: 0, nanos: 0 } }));
    assert_eq!(watch.action(), WatchAction::Emit(WatchEntry { seqno: 4, state: None }));
    let watch = watch.emitted();
    assert_eq!(watch.action(), WatchAction::FetchCurrent { wait_secs: 60 });
}

#[test]
fn dated_line_puts_number_date_and_address_together() {
    let server = ReplicationServer::minute();
    let entry = WatchEntry {
        seqno: 12,
        state: Some(StateInfo { seqno: 13, timestamp: Timestamp { secs: 0, nanos: 0 } }),
    };
    assert_eq!(
        server.line_dated(&entry, Some("D")).as_deref(),
        Some("13 D https://planet.openstreetmap.org/replication/minute/000/000/012.osc.gz")
    );
    assert_eq!(server.line_dated(&entry, None), None);
    let bare = WatchEntry { seqno: 12, state: None };
    let address = "https://planet.openstreetmap.org/replication/minute/000/000/012.osc.gz";
    assert_eq!(server.line_dated(&bare, Some("D")).as_deref(), Some(address));
    assert_eq!(server.line_dated(&bare, None).as_deref(), Some(address));
}
