use chrono::NaiveDateTime;
use circles::aggregate::circle::event::{CircleCreated, CircleUpdated, Event, EventData};
use circles::aggregate::circle::Circle;
use circles::aggregate::value_object::circle_id::CircleId;
use circles::aggregate::value_object::event_id::EventId;
use circles::aggregate::value_object::version::Version;
use circles::infrastructure::circle_repository::{
    check_store, event_of_row, events_of_rows, find_by_id, from_circle_event_data,
    get_latest_snapshot, rebuild, row_of_event, save_snapshot, snapshot_after_store,
    snapshot_due, store, stream_version, tail_base, Error, SNAPSHOT_INTERVAL,
};
use circles::infrastructure::circle_store::CircleStore;
use circles::infrastructure::event_log::EventLog;
use circles::infrastructure::maria_db_schema;
use circles::infrastructure::maria_db_schema::circle_data::CircleData;
use circles::infrastructure::maria_db_schema::circle_event_data::CircleEventData;
use circles::infrastructure::maria_db_schema::circle_protection_data::CircleProtectionData;
use circles::infrastructure::maria_db_schema::circle_snapshot_data::{
    restore_from_snapshot, CircleSnapshotData, State,
};
use circles::infrastructure::maria_db_schema::member_data::MemberData;
use circles::aggregate::member::Member;
use circles::aggregate::value_object::grade::Grade;

const ID_A: &str = "aaaaaaaaaaaaaaaaaaaaaaaaaaaaaaaaaaaa";
const ID_B: &str = "bbbbbbbbbbbbbbbbbbbbbbbbbbbbbbbbbbbb";

fn moment() -> NaiveDateTime {
    chrono::DateTime::from_timestamp(1_700_000_000, 0).unwrap().naive_utc()
}

fn circle_id(text: &str) -> CircleId {
    text.parse().unwrap()
}

fn creation(id: &str, version: u32, name: &str, capacity: i16) -> Event {
    Event {
        circle_id: circle_id(id),
        data: EventData::CircleCreated(CircleCreated { name: name.to_string(), capacity }),
        id: EventId::gen(),
        occurred_at: moment(),
        version: Version::from(version),
    }
}

fn change(id: &str, version: u32, name: Option<&str>, capacity: Option<i16>) -> Event {
    Event {
        circle_id: circle_id(id),
        data: EventData::CircleUpdated(CircleUpdated {
            name: name.map(|n| n.to_string()),
            capacity,
        }),
        id: EventId::gen(),
        occurred_at: moment(),
        version: Version::from(version),
    }
}

fn stream_of(id: &str, n: u32) -> Vec<Event> {
    let mut events = vec![creation(id, 1, "v1", 10)];
    for v in 2..=n {
        events.push(change(id, v, Some(&format!("v{}", v)), Some(10 + v as i16)));
    }
    events
}

fn circle_at(id: &str, name: &str, capacity: i16, version: u32) -> Circle {
    restore_from_snapshot(circle_id(id), name.to_string(), capacity, Version::from(version))
}

fn versions(events: &[Event]) -> Vec<u32> {
    events.iter().map(|e| u32::from(e.version)).collect()
}

#[test]
fn rebuild_without_snapshot_or_events_finds_nothing() {
    assert_eq!(rebuild(None, vec![]).unwrap_err(), Error::NotFound);
}

#[test]
fn rebuild_without_snapshot_replays_the_whole_stream() {
    let circle = rebuild(None, stream_of(ID_A, 3)).unwrap();
    assert_eq!(circle, circle_at(ID_A, "v3", 13, 3));
}

#[test]
fn rebuild_without_snapshot_demands_a_stream_from_version_one() {
    let from_two = vec![creation(ID_A, 2, "A", 3), change(ID_A, 3, None, None)];
    assert_eq!(rebuild(None, from_two).unwrap_err(), Error::Corrupt);
    let no_creation = vec![change(ID_A, 1, None, None)];
    assert_eq!(rebuild(None, no_creation).unwrap_err(), Error::Corrupt);
}

#[test]
fn rebuild_reports_a_missing_version_as_corrupt() {
    let mut events = stream_of(ID_A, 4);
    events.remove(2);
    assert_eq!(versions(&events), vec![1, 2, 4]);
    assert_eq!(rebuild(None, events).unwrap_err(), Error::Corrupt);
}

#[test]
fn rebuild_from_snapshot_applies_the_tail() {
    let snapshot = circle_at(ID_A, "v5", 15, 5);
    let tail = vec![change(ID_A, 6, Some("six"), None), change(ID_A, 7, None, Some(40))];
    let circle = rebuild(Some((snapshot, Version::from(5))), tail).unwrap();
    assert_eq!(circle, circle_at(ID_A, "six", 40, 7));
}

#[test]
fn rebuild_from_snapshot_alone_gives_the_snapshot() {
    let snapshot = circle_at(ID_A, "v5", 15, 5);
    let circle = rebuild(Some((snapshot.clone(), Version::from(5))), vec![]).unwrap();
    assert_eq!(circle, snapshot);
}

#[test]
fn rebuild_from_snapshot_refuses_a_tail_with_a_gap() {
    let snapshot = circle_at(ID_A, "v5", 15, 5);
    let skipped = vec![change(ID_A, 7, None, None)];
    assert_eq!(
        rebuild(Some((snapshot.clone(), Version::from(5))), skipped).unwrap_err(),
        Error::Corrupt
    );
    let overlapping = vec![change(ID_A, 5, None, None)];
    assert_eq!(
        rebuild(Some((snapshot.clone(), Version::from(5))), overlapping).unwrap_err(),
        Error::Corrupt
    );
    let later_gap = vec![change(ID_A, 6, None, None), change(ID_A, 8, None, None)];
    assert_eq!(
        rebuild(Some((snapshot, Version::from(5))), later_gap).unwrap_err(),
        Error::Corrupt
    );
}

#[test]
fn rebuild_refuses_a_snapshot_that_is_not_at_its_version() {
    let snapshot = circle_at(ID_A, "v5", 15, 4);
    assert_eq!(
        rebuild(Some((snapshot.clone(), Version::from(5))), vec![]).unwrap_err(),
        Error::Corrupt
    );
    assert_eq!(
        rebuild(Some((snapshot, Version::from(5))), vec![change(ID_A, 6, None, None)])
            .unwrap_err(),
        Error::Corrupt
    );
}

#[test]
fn snapshot_at_any_version_reads_like_the_whole_stream() {
    let full = rebuild(None, stream_of(ID_A, 8)).unwrap();
    for at in 1..=8usize {
        let mut head = stream_of(ID_A, 8);
        let tail: Vec<Event> = head.split_off(at);
        let snapshot = Circle::replay(head).unwrap();
        let read = rebuild(Some((snapshot, Version::from(at as u32))), tail).unwrap();
        assert_eq!(read.name, full.name);
        assert_eq!(read.capacity, full.capacity);
        assert_eq!(read.version, full.version);
    }
}

#[test]
fn row_of_an_event_carries_its_tag() {
    let event = creation(ID_A, 1, "Music club", 10);
    let row = row_of_event(&event).unwrap();
    assert_eq!(row.event_type, "circle_created");
    assert_eq!(row.circle_id, ID_A);
    assert_eq!(row.id, event.id.to_string());
    assert_eq!(row.version, 1);
    assert_eq!(row.payload, event.data);
    assert_eq!(row.occurred_at, moment());
    let event = change(ID_A, 2, None, Some(4));
    let row = CircleEventData::try_from(event).unwrap();
    assert_eq!(row.event_type, "circle_updated");
    assert_eq!(row.version, 2);
}

#[test]
fn row_of_an_event_refuses_a_version_beyond_the_column() {
    let event = change(ID_A, i32::MAX as u32 + 1, None, None);
    assert_eq!(row_of_event(&event).unwrap_err(), Error::Corrupt);
    assert_eq!(CircleEventData::try_from(event).unwrap_err(), Error::Corrupt);
    let event = change(ID_A, i32::MAX as u32, None, None);
    assert_eq!(row_of_event(&event).unwrap().version, i32::MAX);
}

#[test]
fn event_written_to_a_row_reads_back_the_same() {
    let event = change(ID_A, 9, Some("nine"), Some(9));
    let row = row_of_event(&event).unwrap();
    let back = event_of_row(&row).unwrap();
    assert_eq!(back.id, event.id);
    assert_eq!(back.circle_id, event.circle_id);
    assert_eq!(back.version, event.version);
    assert_eq!(back.data, event.data);
    assert_eq!(back.occurred_at, event.occurred_at);
    let moved = from_circle_event_data(row.clone()).unwrap();
    assert_eq!(moved.id, event.id);
    assert_eq!(row.clone().payload, row.payload);
}

#[test]
fn row_with_a_negative_version_or_a_bad_circle_is_corrupt() {
    let good = row_of_event(&change(ID_A, 2, None, None)).unwrap();
    let mut negative = good.clone();
    negative.version = -1;
    assert_eq!(event_of_row(&negative).unwrap_err(), Error::Corrupt);
    let mut short = good.clone();
    short.circle_id = "0".to_string();
    assert_eq!(event_of_row(&short).unwrap_err(), Error::Corrupt);
    assert_eq!(from_circle_event_data(short.clone()).unwrap_err(), Error::Corrupt);
    assert_eq!(events_of_rows(&vec![good.clone(), short]).unwrap_err(), Error::Corrupt);
    let mut zero = good;
    zero.version = 0;
    assert_eq!(u32::from(event_of_row(&zero).unwrap().version), 0);
}

#[test]
fn events_of_rows_keeps_the_order() {
    let events = stream_of(ID_A, 5);
    let rows: Vec<CircleEventData> = events.iter().map(|e| row_of_event(e).unwrap()).collect();
    let back = events_of_rows(&rows).unwrap();
    assert_eq!(versions(&back), vec![1, 2, 3, 4, 5]);
    for (a, b) in back.iter().zip(events.iter()) {
        assert_eq!(a.id, b.id);
        assert_eq!(a.data, b.data);
    }
    assert!(events_of_rows(&vec![]).unwrap().is_empty());
}

#[test]
fn find_by_id_reads_rows_with_and_without_snapshot() {
    let rows: Vec<CircleEventData> =
        stream_of(ID_A, 7).iter().map(|e| row_of_event(e).unwrap()).collect();
    let full = find_by_id(None, rows.clone()).unwrap();
    assert_eq!(full, circle_at(ID_A, "v7", 17, 7));
    let snapshot = circle_at(ID_A, "v5", 15, 5);
    let tail = rows[5..].to_vec();
    let read = find_by_id(Some((snapshot, Version::from(5))), tail).unwrap();
    assert_eq!(read, full);
    assert_eq!(find_by_id(None, vec![]).unwrap_err(), Error::NotFound);
}

#[test]
fn find_by_id_reports_a_missing_version_three_as_corrupt() {
    let mut rows: Vec<CircleEventData> =
        stream_of(ID_A, 4).iter().map(|e| row_of_event(e).unwrap()).collect();
    rows.remove(2);
    assert_eq!(find_by_id(None, rows).unwrap_err(), Error::Corrupt);
    let other: Vec<CircleEventData> =
        stream_of(ID_B, 2).iter().map(|e| row_of_event(e).unwrap()).collect();
    assert_eq!(store(Some(Version::from(2)), 2, vec![change(ID_B, 3, None, None)])
        .unwrap()
        .len(), 1);
    assert_eq!(find_by_id(None, other).unwrap(), circle_at(ID_B, "v2", 12, 2));
}

#[test]
fn find_by_id_reports_an_undecodable_row_as_corrupt() {
    let mut rows: Vec<CircleEventData> =
        stream_of(ID_A, 2).iter().map(|e| row_of_event(e).unwrap()).collect();
    rows[1].circle_id = "short".to_string();
    assert_eq!(find_by_id(None, rows).unwrap_err(), Error::Corrupt);
}

#[test]
fn check_store_accepts_an_empty_batch_whatever_is_expected() {
    assert_eq!(check_store(None, 3, &vec![]), Ok(()));
    assert_eq!(check_store(Some(Version::from(9)), 3, &vec![]), Ok(()));
    assert!(store(Some(Version::from(9)), 3, vec![]).unwrap().is_empty());
}

#[test]
fn check_store_holds_the_expected_version_against_the_stream() {
    let batch = vec![change(ID_A, 4, None, None)];
    assert_eq!(check_store(Some(Version::from(3)), 3, &batch), Ok(()));
    assert_eq!(check_store(Some(Version::from(2)), 3, &batch), Err(Error::VersionConflict));
    assert_eq!(check_store(Some(Version::from(4)), 3, &batch), Err(Error::VersionConflict));
    assert_eq!(check_store(Some(Version::from(0)), 3, &batch), Err(Error::VersionConflict));
    assert_eq!(check_store(None, 3, &batch), Ok(()));
}

#[test]
fn check_store_refuses_gaps_and_repeats() {
    assert_eq!(check_store(None, 0, &vec![creation(ID_A, 1, "A", 3)]), Ok(()));
    assert_eq!(check_store(None, 0, &vec![creation(ID_A, 2, "A", 3)]), Err(Error::Corrupt));
    assert_eq!(check_store(None, 1, &vec![creation(ID_A, 1, "A", 3)]), Err(Error::Corrupt));
    assert_eq!(check_store(None, 0, &vec![creation(ID_A, 0, "A", 3)]), Err(Error::Corrupt));
    let batch = vec![change(ID_A, 4, None, None), change(ID_A, 6, None, None)];
    assert_eq!(check_store(Some(Version::from(3)), 3, &batch), Err(Error::Corrupt));
    let batch = vec![change(ID_A, 4, None, None), change(ID_A, 4, None, None)];
    assert_eq!(check_store(Some(Version::from(3)), 3, &batch), Err(Error::Corrupt));
    let batch = vec![change(ID_A, 5, None, None), change(ID_A, 4, None, None)];
    assert_eq!(check_store(Some(Version::from(3)), 3, &batch), Err(Error::Corrupt));
    let batch = vec![change(ID_A, 4, None, None), change(ID_A, 5, None, None)];
    assert_eq!(check_store(Some(Version::from(3)), 3, &batch), Ok(()));
}

#[test]
fn check_store_refuses_versions_beyond_the_column() {
    let top = i32::MAX as u32;
    assert_eq!(check_store(None, top - 1, &vec![change(ID_A, top, None, None)]), Ok(()));
    assert_eq!(
        check_store(None, top, &vec![change(ID_A, top + 1, None, None)]),
        Err(Error::Corrupt)
    );
    assert_eq!(
        check_store(None, u32::MAX, &vec![change(ID_A, 0, None, None)]),
        Err(Error::Corrupt)
    );
    assert_eq!(
        check_store(Some(Version::from(top)), top, &vec![change(ID_A, top + 1, None, None)]),
        Err(Error::Corrupt)
    );
}

#[test]
fn store_gives_the_rows_in_order() {
    let batch = vec![change(ID_A, 4, Some("x"), None), change(ID_A, 5, None, Some(8))];
    let ids: Vec<String> = batch.iter().map(|e| e.id.to_string()).collect();
    let rows = store(Some(Version::from(3)), 3, batch).unwrap();
    assert_eq!(rows.len(), 2);
    assert_eq!(rows[0].version, 4);
    assert_eq!(rows[1].version, 5);
    assert_eq!(rows[0].id, ids[0]);
    assert_eq!(rows[1].id, ids[1]);
    assert_eq!(rows[0].event_type, "circle_updated");
    assert_eq!(
        store(Some(Version::from(2)), 3, vec![change(ID_A, 4, None, None)]).unwrap_err(),
        Error::VersionConflict
    );
    assert_eq!(
        store(None, 3, vec![change(ID_A, 5, None, None)]).unwrap_err(),
        Error::Corrupt
    );
}

#[test]
fn snapshots_are_due_at_every_fifth_version() {
    assert_eq!(SNAPSHOT_INTERVAL, 5);
    let due: Vec<u32> = (1..=21).filter(|v| snapshot_due(Version::from(*v))).collect();
    assert_eq!(due, vec![5, 10, 15, 20]);
    assert!(snapshot_due(Version::from(4294967295)));
    assert!(!snapshot_due(Version::from(4294967294)));
}

#[test]
fn save_snapshot_holds_the_whole_state() {
    let circle = circle_at(ID_A, "Music club", 10, 5);
    let snapshot = save_snapshot(&circle).unwrap();
    assert_eq!(snapshot.circle_id, ID_A);
    assert_eq!(snapshot.version, 5);
    assert_eq!(snapshot.state.id, ID_A);
    assert_eq!(snapshot.state.name, "Music club");
    assert_eq!(snapshot.state.capacity, 10);
    assert_eq!(snapshot.state.version, 5);
    let too_far = circle_at(ID_A, "x", 3, i32::MAX as u32 + 1);
    assert_eq!(save_snapshot(&too_far).unwrap_err(), Error::Corrupt);
}

#[test]
fn snapshot_after_store_only_when_due() {
    assert!(snapshot_after_store(&circle_at(ID_A, "x", 3, 4)).is_none());
    assert!(snapshot_after_store(&circle_at(ID_A, "x", 3, 6)).is_none());
    let snapshot = snapshot_after_store(&circle_at(ID_A, "x", 3, 10)).unwrap();
    assert_eq!(snapshot.version, 10);
    assert_eq!(snapshot.state.name, "x");
    assert!(snapshot_after_store(&circle_at(ID_A, "x", 3, 4294967295)).is_none());
}

fn snapshot_row(id: &str, version: i32, state_version: i32) -> CircleSnapshotData {
    CircleSnapshotData {
        id: 1,
        circle_id: id.to_string(),
        version,
        state: State {
            id: id.to_string(),
            name: "kept".to_string(),
            capacity: 12,
            version: state_version,
        },
        created_at: moment(),
    }
}

#[test]
fn latest_snapshot_is_decoded_or_left_aside() {
    assert!(get_latest_snapshot(None).is_none());
    let (circle, version) = get_latest_snapshot(Some(snapshot_row(ID_A, 5, 5))).unwrap();
    assert_eq!(circle, circle_at(ID_A, "kept", 12, 5));
    assert_eq!(u32::from(version), 5);
    assert!(get_latest_snapshot(Some(snapshot_row("short", 5, 5))).is_none());
    assert!(get_latest_snapshot(Some(snapshot_row(ID_A, -1, 5))).is_none());
    assert!(get_latest_snapshot(Some(snapshot_row(ID_A, 5, -5))).is_none());
    let (circle, version) = get_latest_snapshot(Some(snapshot_row(ID_A, 5, 4))).unwrap();
    assert_eq!(u32::from(circle.version), 4);
    assert_eq!(u32::from(version), 5);
    assert_eq!(rebuild(Some((circle, version)), vec![]).unwrap_err(), Error::Corrupt);
}

#[test]
fn tail_is_fetched_after_the_snapshot() {
    assert_eq!(tail_base(&None), Ok(0));
    let snapshot = Some((circle_at(ID_A, "x", 3, 5), Version::from(5)));
    assert_eq!(tail_base(&snapshot), Ok(5));
    let beyond = Some((circle_at(ID_A, "x", 3, 5), Version::from(u32::MAX)));
    assert_eq!(tail_base(&beyond), Err(Error::Corrupt));
}

#[test]
fn state_round_trip() {
    let circle = circle_at(ID_A, "Music club", 10, 6);
    let state = State::from_circle(&circle).unwrap();
    assert_eq!(state.id, ID_A);
    assert_eq!(state.version, 6);
    assert_eq!(state.clone().to_circle().unwrap(), circle);
    let far = circle_at(ID_A, "x", 3, u32::MAX);
    assert_eq!(
        State::from_circle(&far).unwrap_err(),
        maria_db_schema::Error::VersionOutOfRange
    );
    let bad_id = State { id: "x".to_string(), name: "n".to_string(), capacity: 3, version: 1 };
    assert_eq!(bad_id.to_circle().unwrap_err(), maria_db_schema::Error::MalformedId);
    let bad_version =
        State { id: ID_A.to_string(), name: "n".to_string(), capacity: 3, version: -1 };
    assert_eq!(bad_version.to_circle().unwrap_err(), maria_db_schema::Error::VersionOutOfRange);
}

#[test]
fn circle_data_round_trip() {
    let circle = circle_at(ID_A, "Music club", 10, 6);
    let data = CircleData::from(circle.clone());
    assert_eq!(data.id, ID_A);
    assert_eq!(data.name, "Music club");
    assert_eq!(data.capacity, 10);
    assert_eq!(data.version, 6);
    assert_eq!(Circle::try_from(data).unwrap(), circle);
    let bad = CircleData { id: "1".to_string(), name: "n".to_string(), capacity: 3, version: 1 };
    assert_eq!(Circle::try_from(bad).unwrap_err(), maria_db_schema::Error::MalformedId);
}

#[test]
fn circle_projection_row_round_trip() {
    let circle = circle_at(ID_A, "Music club", 10, 6);
    let row = CircleProtectionData::try_from(circle.clone()).unwrap();
    assert_eq!(row.circle_id, ID_A);
    assert_eq!(row.version, 6);
    assert_eq!(Circle::try_from(row).unwrap(), circle);
    let far = circle_at(ID_A, "x", 3, i32::MAX as u32 + 1);
    assert_eq!(
        CircleProtectionData::try_from(far).unwrap_err(),
        maria_db_schema::Error::VersionOutOfRange
    );
    let negative = CircleProtectionData {
        circle_id: ID_A.to_string(),
        name: "n".to_string(),
        capacity: 3,
        version: -3,
    };
    assert_eq!(Circle::try_from(negative).unwrap_err(), maria_db_schema::Error::VersionOutOfRange);
    let bad = CircleProtectionData {
        circle_id: "".to_string(),
        name: "n".to_string(),
        capacity: 3,
        version: 3,
    };
    assert_eq!(Circle::try_from(bad).unwrap_err(), maria_db_schema::Error::MalformedId);
}

#[test]
fn member_row_round_trip() {
    let row = MemberData {
        id: "m1".to_string(),
        name: "John".to_string(),
        age: 21,
        grade: 3,
        major: "Music".to_string(),
        version: 2,
    };
    let member = Member::try_from(row.clone()).unwrap();
    assert_eq!(member.grade, Grade::Third);
    assert_eq!(member.name, "John");
    let back = MemberData::from(member);
    assert_eq!(back.id, "m1");
    assert_eq!(back.grade, 3);
    assert_eq!(back.major, "Music");
    assert_eq!(back.version, 2);
    let mut bad = row;
    bad.grade = 5;
    assert_eq!(Member::try_from(bad).unwrap_err(), maria_db_schema::Error::GradeOutOfRange);
}

#[test]
fn log_starts_empty_and_counts_its_events() {
    let mut log = EventLog::new();
    assert_eq!(log.current_version(), 0);
    assert!(log.events().is_empty());
    assert_eq!(log.find_by_id(None).unwrap_err(), Error::NotFound);
    assert_eq!(log.append(None, vec![creation(ID_A, 1, "A", 3)]), Ok(()));
    assert_eq!(log.current_version(), 1);
    assert_eq!(
        log.append(Some(Version::from(1)), vec![change(ID_A, 2, None, None), change(ID_A, 3, None, None)]),
        Ok(())
    );
    assert_eq!(log.current_version(), 3);
    assert_eq!(versions(&log.events()), vec![1, 2, 3]);
}

#[test]
fn log_versions_stay_one_to_n_whatever_is_tried() {
    let mut log = EventLog::new();
    let attempts: Vec<(Option<u32>, Vec<Event>)> = vec![
        (None, vec![creation(ID_A, 1, "A", 3)]),
        (None, vec![creation(ID_A, 1, "again", 3)]),
        (Some(1), vec![change(ID_A, 3, None, None)]),
        (Some(1), vec![change(ID_A, 2, None, None)]),
        (Some(1), vec![change(ID_A, 3, None, None)]),
        (Some(2), vec![change(ID_A, 3, None, None), change(ID_A, 5, None, None)]),
        (Some(2), vec![change(ID_A, 3, None, None), change(ID_A, 4, None, None)]),
        (Some(7), vec![]),
        (None, vec![change(ID_A, 5, None, None)]),
    ];
    for (expected, batch) in attempts {
        let _ = log.append(expected.map(Version::from), batch);
        let n = log.current_version();
        assert_eq!(versions(&log.events()), (1..=n).collect::<Vec<u32>>());
    }
    assert_eq!(log.current_version(), 5);
}

#[test]
fn log_refuses_a_batch_as_a_whole() {
    let mut log = EventLog::new();
    log.append(None, stream_of(ID_A, 2)).unwrap();
    let batch = vec![change(ID_A, 3, None, None), change(ID_A, 5, None, None)];
    assert_eq!(log.append(Some(Version::from(2)), batch), Err(Error::Corrupt));
    assert_eq!(log.current_version(), 2);
    assert_eq!(
        log.append(Some(Version::from(1)), vec![change(ID_A, 3, None, None)]),
        Err(Error::VersionConflict)
    );
    assert_eq!(log.current_version(), 2);
}

#[test]
fn of_two_writers_with_the_same_expectation_one_wins() {
    let mut log = EventLog::new();
    log.append(None, vec![creation(ID_A, 1, "Music club", 10)]).unwrap();
    let loaded = log.find_by_id(None).unwrap();
    let (_, first) = loaded.clone().update(Some("Football club".to_string()), Some(20)).unwrap();
    let (_, second) = loaded.update(Some("Chess club".to_string()), None).unwrap();
    let expected = Some(Version::from(1));
    assert_eq!(log.append(expected, vec![first]), Ok(()));
    assert_eq!(log.append(expected, vec![second]), Err(Error::VersionConflict));
    assert_eq!(log.events().len(), 2);
    assert_eq!(log.find_by_id(None).unwrap().name, "Football club");
}

#[test]
fn log_hands_out_the_tail_after_a_version() {
    let mut log = EventLog::new();
    log.append(None, stream_of(ID_A, 6)).unwrap();
    assert_eq!(versions(&log.events_after(Version::from(0))), vec![1, 2, 3, 4, 5, 6]);
    assert_eq!(versions(&log.events_after(Version::from(4))), vec![5, 6]);
    assert!(log.events_after(Version::from(6)).is_empty());
    assert!(log.events_after(Version::from(60)).is_empty());
    assert!(log.events_after(Version::from(u32::MAX)).is_empty());
}

#[test]
fn log_reads_through_a_snapshot_without_touching_older_events() {
    let mut log = EventLog::new();
    log.append(None, stream_of(ID_A, 6)).unwrap();
    let full = log.find_by_id(None).unwrap();
    assert_eq!(full, circle_at(ID_A, "v6", 16, 6));
    let snapshot = save_snapshot(&circle_at(ID_A, "v5", 15, 5)).unwrap();
    let row = CircleSnapshotData {
        id: 1,
        circle_id: snapshot.circle_id,
        version: snapshot.version,
        state: snapshot.state,
        created_at: moment(),
    };
    let start = get_latest_snapshot(Some(row));
    assert_eq!(tail_base(&start), Ok(5));
    assert_eq!(log.events_after(Version::from(5)).len(), 1);
    assert_eq!(log.find_by_id(start).unwrap(), full);
    let at_head = Some((full.clone(), Version::from(6)));
    assert!(log.events_after(Version::from(6)).is_empty());
    assert_eq!(log.find_by_id(at_head).unwrap(), full);
}

#[test]
fn log_with_a_snapshot_ahead_of_it_is_corrupt() {
    let mut log = EventLog::new();
    log.append(None, stream_of(ID_A, 2)).unwrap();
    let stale = Some((circle_at(ID_A, "x", 3, 1), Version::from(2)));
    assert_eq!(log.find_by_id(stale).unwrap_err(), Error::Corrupt);
}

#[test]
fn streams_of_different_circles_do_not_touch_each_other() {
    let mut a = EventLog::new();
    let mut b = EventLog::new();
    a.append(None, stream_of(ID_A, 2)).unwrap();
    assert_eq!(
        a.append(Some(Version::from(2)), vec![change(ID_A, 4, None, None)]),
        Err(Error::Corrupt)
    );
    assert_eq!(b.append(None, stream_of(ID_B, 3)), Ok(()));
    assert_eq!(b.append(Some(Version::from(3)), vec![change(ID_B, 4, None, Some(5))]), Ok(()));
    assert_eq!(b.find_by_id(None).unwrap().capacity, 5);
    assert_eq!(a.current_version(), 2);
}

#[test]
fn store_takes_a_snapshot_at_every_fifth_version() {
    let mut store = CircleStore::new();
    assert!(store.latest().is_none());
    assert_eq!(store.find_by_id().unwrap_err(), Error::NotFound);
    store.store(None, vec![creation(ID_A, 1, "v1", 10)]).unwrap();
    for v in 2..=4u32 {
        store
            .store(Some(Version::from(v - 1)), vec![change(ID_A, v, None, Some(v as i16 + 10))])
            .unwrap();
        assert!(store.latest().is_none());
    }
    store.store(Some(Version::from(4)), vec![change(ID_A, 5, Some("five"), None)]).unwrap();
    let (snapshot, at) = store.latest().unwrap();
    assert_eq!(u32::from(at), 5);
    assert_eq!(snapshot, circle_at(ID_A, "five", 14, 5));
    store.store(Some(Version::from(5)), vec![change(ID_A, 6, None, Some(60))]).unwrap();
    let (snapshot, at) = store.latest().unwrap();
    assert_eq!(u32::from(at), 5);
    assert_eq!(snapshot.capacity, 14);
    assert_eq!(store.find_by_id().unwrap(), circle_at(ID_A, "five", 60, 6));
    assert_eq!(store.current_version(), 6);
}

#[test]
fn store_reads_the_same_with_and_without_its_snapshot() {
    let mut store = CircleStore::new();
    let mut log = EventLog::new();
    for (i, event) in stream_of(ID_A, 23).into_iter().enumerate() {
        let expected = if i == 0 { None } else { Some(Version::from(i as u32)) };
        log.append(expected, vec![event.clone()]).unwrap();
        store.store(expected, vec![event]).unwrap();
        assert_eq!(store.find_by_id().unwrap(), log.find_by_id(None).unwrap());
        let due = (i as u32 + 1) / 5 * 5;
        assert_eq!(store.latest().map(|(_, v)| u32::from(v)), if due == 0 { None } else { Some(due) });
    }
}

#[test]
fn store_keeps_its_snapshot_when_an_append_is_refused() {
    let mut store = CircleStore::new();
    store.store(None, stream_of(ID_A, 5)).unwrap();
    assert_eq!(store.latest().map(|(_, v)| u32::from(v)), Some(5));
    assert_eq!(
        store.store(Some(Version::from(4)), vec![change(ID_A, 6, None, None)]),
        Err(Error::VersionConflict)
    );
    assert_eq!(
        store.store(Some(Version::from(5)), vec![change(ID_A, 7, None, None)]),
        Err(Error::Corrupt)
    );
    assert_eq!(store.store(Some(Version::from(99)), vec![]), Ok(()));
    assert_eq!(store.current_version(), 5);
    assert_eq!(store.latest().map(|(_, v)| u32::from(v)), Some(5));
}

#[test]
fn store_without_a_creation_takes_no_snapshot() {
    let mut store = CircleStore::new();
    let batch: Vec<Event> = (1..=5).map(|v| change(ID_A, v, None, None)).collect();
    assert_eq!(store.store(None, batch), Ok(()));
    assert_eq!(store.current_version(), 5);
    assert!(store.latest().is_none());
    assert_eq!(store.find_by_id().unwrap_err(), Error::Corrupt);
}

#[test]
fn stream_without_events_stands_at_zero() {
    assert_eq!(stream_version(None), Ok(0));
    assert_eq!(stream_version(Some(0)), Ok(0));
    assert_eq!(stream_version(Some(7)), Ok(7));
    assert_eq!(stream_version(Some(u32::MAX as i64)), Ok(u32::MAX));
    assert_eq!(stream_version(Some(u32::MAX as i64 + 1)), Err(Error::Corrupt));
    assert_eq!(stream_version(Some(-1)), Err(Error::Corrupt));
}
