use std::path::PathBuf;

use librecollect::daemon::check_due;
use librecollect::daemon::merge;
use librecollect::daemon::tick;
use librecollect::Event;
use librecollect::JsonStorage;
use librecollect::Poll;
use librecollect::RecollectError;
use librecollect::Storage;
use librecollect::Timestamp;

const NOON: &str = "0 0 12 * * * *";
const MIDNIGHT: &str = "0 0 0 * * * *";
// 2024-01-01T00:00:00Z
const NEW_YEAR: i64 = 1_704_067_200;

fn at(secs: i64) -> Timestamp {
    Timestamp::new(secs, 0)
}

fn event(schedule: &str, summary: &str, disabled: bool, due: Option<i64>) -> Event {
    Event::restore(schedule, summary, "body", disabled, due.map(at)).unwrap()
}

fn dues(events: &[Event]) -> Vec<Option<Timestamp>> {
    events.iter().map(|event| event.due()).collect()
}

#[test]
fn one_disabled_and_one_enabled_both_overdue() {
    let hour_ago = NEW_YEAR - 3600;
    let mut storage = JsonStorage::new(PathBuf::from("recollect.json"));
    storage.events().push(event(NOON, "off", true, Some(hour_ago)));
    storage.events().push(event(NOON, "on", false, Some(hour_ago)));

    let outcome = tick(&mut storage, false, Poll::Skipped, at(NEW_YEAR));

    assert_eq!(outcome.notices.len(), 1);
    assert_eq!(outcome.notices[0].summary, "on");
    assert_eq!(outcome.notices[0].body, "body");
    assert!(!outcome.stop);
    assert!(outcome.persist);
    assert!(outcome.warning.is_none());
    let events = storage.into_inner();
    assert_eq!(
        dues(&events),
        vec![Some(at(hour_ago)), Some(at(NEW_YEAR + 12 * 3600))]
    );
}

#[test]
fn a_second_tick_does_not_fire_again() {
    let mut storage = JsonStorage::new(PathBuf::from("recollect.json"));
    storage.events().push(event(NOON, "on", false, Some(NEW_YEAR - 3600)));
    let first = tick(&mut storage, false, Poll::Skipped, at(NEW_YEAR));
    assert_eq!(first.notices.len(), 1);
    let second = tick(&mut storage, false, Poll::Skipped, at(NEW_YEAR + 1));
    assert!(second.notices.is_empty());
    assert!(!second.persist);
    let third = tick(&mut storage, false, Poll::Skipped, at(NEW_YEAR + 12 * 3600));
    assert_eq!(third.notices.len(), 1);
    assert!(third.persist);
}

#[test]
fn notices_come_in_the_order_of_the_list() {
    let mut events = vec![
        event(NOON, "first", false, Some(NEW_YEAR - 10)),
        event(NOON, "not yet", false, Some(NEW_YEAR + 10)),
        event(MIDNIGHT, "second", false, Some(NEW_YEAR)),
        event(NOON, "off", true, Some(NEW_YEAR - 10)),
        event(NOON, "fresh", false, None),
    ];
    let sweep = check_due(&mut events, at(NEW_YEAR));
    let sent: Vec<&str> = sweep.notices.iter().map(|n| n.summary.as_str()).collect();
    assert_eq!(sent, vec!["first", "second"]);
    assert!(sweep.changed);
    assert_eq!(
        dues(&events),
        vec![
            Some(at(NEW_YEAR + 12 * 3600)),
            Some(at(NEW_YEAR + 10)),
            Some(at(NEW_YEAR + 86_400)),
            Some(at(NEW_YEAR - 10)),
            Some(at(NEW_YEAR + 12 * 3600)),
        ]
    );
    let summaries: Vec<&str> = events.iter().map(|e| e.summary_text()).collect();
    assert_eq!(summaries, vec!["first", "not yet", "second", "off", "fresh"]);
}

#[test]
fn a_check_that_moves_nothing_reports_no_change() {
    let mut events = vec![
        event(NOON, "not yet", false, Some(NEW_YEAR + 10)),
        event(NOON, "off", true, None),
    ];
    let sweep = check_due(&mut events, at(NEW_YEAR));
    assert!(sweep.notices.is_empty());
    assert!(!sweep.changed);
    assert_eq!(dues(&events), vec![Some(at(NEW_YEAR + 10)), None]);
    let mut none: Vec<Event> = Vec::new();
    let sweep = check_due(&mut none, at(NEW_YEAR));
    assert!(sweep.notices.is_empty());
    assert!(!sweep.changed);
}

#[test]
fn a_schedule_that_ran_out_fires_its_last_time_and_rests() {
    let mut events = vec![event("0 0 0 1 1 * 2015", "once", false, Some(1_420_070_400))];
    let sweep = check_due(&mut events, at(NEW_YEAR));
    assert_eq!(sweep.notices.len(), 1);
    assert_eq!(dues(&events), vec![None]);
    let sweep = check_due(&mut events, at(NEW_YEAR + 1));
    assert!(sweep.notices.is_empty());
    assert!(!sweep.changed);
}

#[test]
fn merge_without_change_keeps_every_due_instant() {
    let mut kept = vec![
        event(NOON, "a", false, Some(NEW_YEAR + 5)),
        event(MIDNIGHT, "b", true, None),
        event(MIDNIGHT, "c", false, Some(NEW_YEAR - 5)),
    ];
    // The file holds other due instants, or none: they do not count.
    let loaded = vec![
        event(NOON, "a", false, None),
        event(MIDNIGHT, "b", true, Some(7)),
        event(MIDNIGHT, "c", false, Some(9)),
    ];
    let changed = merge(&mut kept, loaded);
    assert!(!changed);
    assert_eq!(
        dues(&kept),
        vec![Some(at(NEW_YEAR + 5)), None, Some(at(NEW_YEAR - 5))]
    );
}

#[test]
fn merge_resets_an_edited_schedule() {
    let mut kept = vec![
        event(NOON, "a", false, Some(NEW_YEAR + 5)),
        event(NOON, "b", false, Some(NEW_YEAR + 6)),
    ];
    // "0 0 12 * * *" has the same occurrences as NOON, but is another text.
    let loaded = vec![
        event("0 0 12 * * *", "a", false, None),
        event(NOON, "b", false, None),
    ];
    let changed = merge(&mut kept, loaded);
    assert!(changed);
    assert_eq!(dues(&kept), vec![None, Some(at(NEW_YEAR + 6))]);
    assert_eq!(kept[0].schedule_text(), "0 0 12 * * *");
}

#[test]
fn merge_resets_an_edited_summary_or_body() {
    let mut kept = vec![
        event(NOON, "a", false, Some(NEW_YEAR + 5)),
        event(NOON, "b", false, Some(NEW_YEAR + 6)),
    ];
    let loaded = vec![
        event(NOON, "a2", false, Some(3)),
        Event::restore(NOON, "b", "other body", false, Some(at(4))).unwrap(),
    ];
    assert!(merge(&mut kept, loaded));
    assert_eq!(dues(&kept), vec![None, None]);
    assert_eq!(kept[0].summary_text(), "a2");
    assert_eq!(kept[1].body_text(), "other body");
}

#[test]
fn merge_takes_the_disabled_flag_and_keeps_the_due_instant() {
    let mut kept = vec![event(NOON, "a", false, Some(NEW_YEAR + 5))];
    let loaded = vec![event(NOON, "a", true, None)];
    assert!(merge(&mut kept, loaded));
    assert!(kept[0].is_disabled());
    assert_eq!(dues(&kept), vec![Some(at(NEW_YEAR + 5))]);
}

#[test]
fn merge_takes_new_events_without_a_due_instant() {
    let mut kept = vec![event(NOON, "a", false, Some(NEW_YEAR + 5))];
    let loaded = vec![
        event(NOON, "a", false, None),
        event(MIDNIGHT, "new", false, Some(3)),
    ];
    assert!(merge(&mut kept, loaded));
    assert_eq!(dues(&kept), vec![Some(at(NEW_YEAR + 5)), None]);
    assert_eq!(kept[1].summary_text(), "new");
}

#[test]
fn merge_drops_what_the_file_no_longer_holds() {
    let mut kept = vec![
        event(NOON, "a", false, Some(NEW_YEAR + 5)),
        event(MIDNIGHT, "b", false, Some(NEW_YEAR + 6)),
    ];
    // "a" was removed: "b" is now at the place where "a" was.
    let loaded = vec![event(MIDNIGHT, "b", false, None)];
    assert!(merge(&mut kept, loaded));
    assert_eq!(kept.len(), 1);
    assert_eq!(kept[0].summary_text(), "b");
    assert_eq!(dues(&kept), vec![None]);
    let mut left = vec![event(NOON, "a", false, None)];
    assert!(merge(&mut left, Vec::new()));
    assert!(left.is_empty());
}

#[test]
fn tick_takes_a_reload_in_before_it_checks() {
    let mut storage = JsonStorage::new(PathBuf::from("recollect.json"));
    storage.events().push(event(NOON, "a", false, Some(NEW_YEAR - 5)));
    let loaded = vec![
        event(NOON, "a", true, None),
        event(MIDNIGHT, "new", false, None),
    ];
    let outcome = tick(&mut storage, false, Poll::Loaded(loaded), at(NEW_YEAR));
    // "a" is now disabled, and "new" is not due before midnight.
    assert!(outcome.notices.is_empty());
    assert!(outcome.persist);
    assert!(!outcome.stop);
    let events = storage.into_inner();
    assert_eq!(
        dues(&events),
        vec![Some(at(NEW_YEAR - 5)), Some(at(NEW_YEAR + 86_400))]
    );
    assert!(events[0].is_disabled());
}

#[test]
fn tick_keeps_the_list_when_the_reload_failed() {
    let mut storage = JsonStorage::new(PathBuf::from("recollect.json"));
    storage.events().push(event(NOON, "a", false, Some(NEW_YEAR + 5)));
    let error = RecollectError::from(std::io::Error::new(
        std::io::ErrorKind::NotFound,
        "gone for now",
    ));
    let outcome = tick(&mut storage, false, Poll::Failed(error), at(NEW_YEAR));
    match outcome.warning {
        Some(RecollectError::LoadError(_)) => {}
        other => panic!("unexpected: {:?}", other),
    }
    assert!(outcome.notices.is_empty());
    assert!(!outcome.persist);
    assert!(!outcome.stop);
    let events = storage.into_inner();
    assert_eq!(events.len(), 1);
    assert_eq!(dues(&events), vec![Some(at(NEW_YEAR + 5))]);
}

#[test]
fn tick_still_fires_when_the_reload_failed() {
    let mut storage = JsonStorage::new(PathBuf::from("recollect.json"));
    storage.events().push(event(NOON, "a", false, Some(NEW_YEAR - 5)));
    let broken = serde_json::from_str::<serde_json::Value>("[{").unwrap_err();
    let outcome = tick(
        &mut storage,
        false,
        Poll::Failed(RecollectError::from(broken)),
        at(NEW_YEAR),
    );
    match outcome.warning {
        Some(RecollectError::ParseStorageError(_)) => {}
        other => panic!("unexpected: {:?}", other),
    }
    assert_eq!(outcome.notices.len(), 1);
    assert!(outcome.persist);
}

#[test]
fn tick_on_shutdown_only_asks_to_write_and_stop() {
    let mut storage = JsonStorage::new(PathBuf::from("recollect.json"));
    storage.events().push(event(NOON, "a", false, Some(NEW_YEAR - 5)));
    let loaded = vec![event(MIDNIGHT, "other", false, None)];
    let outcome = tick(&mut storage, true, Poll::Loaded(loaded), at(NEW_YEAR));
    assert!(outcome.stop);
    assert!(outcome.persist);
    assert!(outcome.notices.is_empty());
    assert!(outcome.warning.is_none());
    assert_eq!(storage.path(), &PathBuf::from("recollect.json"));
    let events = storage.into_inner();
    assert_eq!(events.len(), 1);
    assert_eq!(events[0].summary_text(), "a");
    assert_eq!(dues(&events), vec![Some(at(NEW_YEAR - 5))]);
}

#[test]
fn tick_on_an_empty_list_does_nothing() {
    let mut storage = JsonStorage::new(PathBuf::from("recollect.json"));
    let outcome = tick(&mut storage, false, Poll::Skipped, at(NEW_YEAR));
    assert!(outcome.notices.is_empty());
    assert!(!outcome.persist);
    assert!(!outcome.stop);
    assert!(outcome.warning.is_none());
}
