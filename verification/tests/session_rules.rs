use working_hours::clock::Clock;
use working_hours::duration::Duration;
use working_hours::moment::Moment;
use working_hours::event::{Event, Status};
use working_hours::session::{Report, Session};

const DAY_START: i64 = 1_484_611_200;

fn at(hour: i64, minute: i64) -> Moment {
    Moment::from_timestamp(DAY_START + hour * 3600 + minute * 60, 0).unwrap()
}

fn session_of(start: Moment, events: &[Event]) -> Session {
    let mut session = Session::new(start);
    for event in events {
        session.event(*event);
    }
    session
}

fn closed_report(start: Moment, events: &[Event]) -> Report {
    let session = session_of(start, events);
    assert!(!session.is_session_running());
    session.get_report(&Clock::system())
}

#[test]
fn a_fresh_session_is_running_and_has_not_rested() {
    let session = Session::new(at(8, 0));
    assert!(session.is_session_running());
    assert_eq!(session.events(), &vec![Event::Create(at(8, 0))]);
    let report = session.get_report(&Clock::fixed(at(8, 0)));
    assert_eq!(
        report,
        Report {
            start: Some(at(8, 0)),
            end: None,
            total: Duration::zero(),
            working: Duration::zero(),
            resting: Duration::zero(),
        }
    );
    let later = session.get_report(&Clock::system());
    assert_eq!(later.resting, Duration::zero());
    assert_eq!(later.working, later.total);
    assert_eq!(later.end, None);
}

#[test]
fn a_session_closed_as_it_starts_has_no_length() {
    let report = closed_report(at(8, 0), &[Event::Close(at(8, 0))]);
    assert_eq!(
        report,
        Report {
            start: Some(at(8, 0)),
            end: Some(at(8, 0)),
            total: Duration::zero(),
            working: Duration::zero(),
            resting: Duration::zero(),
        }
    );
}

#[test]
fn an_open_session_is_measured_against_the_clock() {
    let session = Session::new(at(8, 0));
    let report = session.get_report(&Clock::fixed(at(14, 0)));
    assert!(session.is_session_running());
    assert_eq!(report.total, Duration::hours(6));
    assert_eq!(report.working, Duration::hours(6));
    assert_eq!(report.resting, Duration::zero());
    assert_eq!(report.end, None);
}

#[test]
fn an_open_pause_rests_until_the_clock() {
    let session = session_of(at(8, 0), &[Event::Lock(at(13, 0))]);
    let report = session.get_report(&Clock::fixed(at(15, 0)));
    assert!(session.is_session_running());
    assert_eq!(report.total, Duration::hours(7));
    assert_eq!(report.working, Duration::hours(5));
    assert_eq!(report.resting, Duration::hours(2));
}

#[test]
fn report_at_takes_the_moment_itself() {
    let session = session_of(
        at(8, 0),
        &[Event::Lock(at(13, 0)), Event::Unlock(at(14, 0))],
    );
    let report = session.report_at(at(15, 30));
    assert_eq!(
        report,
        Report {
            start: Some(at(8, 0)),
            end: None,
            total: Duration::minutes(7 * 60 + 30),
            working: Duration::minutes(6 * 60 + 30),
            resting: Duration::hours(1),
        }
    );
    assert_eq!(report, session.get_report(&Clock::fixed(at(15, 30))));
}

#[test]
fn a_report_leaves_the_session_as_it_was() {
    let session = session_of(at(8, 0), &[Event::Lock(at(13, 0))]);
    let before = session.events().clone();
    let _ = session.get_report(&Clock::fixed(at(15, 0)));
    assert_eq!(session.events(), &before);
    assert!(session.is_session_running());
}

#[test]
fn a_repeated_pause_is_dropped() {
    let session = session_of(
        at(8, 0),
        &[
            Event::Lock(at(13, 0)),
            Event::Lock(at(13, 10)),
            Event::Unlock(at(14, 0)),
            Event::Close(at(16, 0)),
        ],
    );
    assert_eq!(
        session.events(),
        &vec![
            Event::Create(at(8, 0)),
            Event::Lock(at(13, 0)),
            Event::Unlock(at(14, 0)),
            Event::Close(at(16, 0)),
        ]
    );
    let single = closed_report(
        at(8, 0),
        &[
            Event::Lock(at(13, 0)),
            Event::Unlock(at(14, 0)),
            Event::Close(at(16, 0)),
        ],
    );
    assert_eq!(session.get_report(&Clock::system()), single);
    assert_eq!(single.total, Duration::hours(8));
    assert_eq!(single.working, Duration::hours(7));
    assert_eq!(single.resting, Duration::hours(1));
}

#[test]
fn a_repeated_resumption_is_dropped() {
    let session = session_of(
        at(8, 0),
        &[
            Event::Lock(at(13, 0)),
            Event::Unlock(at(14, 0)),
            Event::Unlock(at(15, 0)),
        ],
    );
    assert_eq!(
        session.events(),
        &vec![
            Event::Create(at(8, 0)),
            Event::Lock(at(13, 0)),
            Event::Unlock(at(14, 0)),
        ]
    );
}

#[test]
fn a_resumption_without_a_pause_is_dropped() {
    let session = session_of(at(8, 0), &[Event::Unlock(at(9, 0))]);
    assert_eq!(session.events(), &vec![Event::Create(at(8, 0))]);
    assert!(session.is_session_running());
}

#[test]
fn a_second_start_is_dropped() {
    let session = session_of(
        at(8, 0),
        &[
            Event::Create(at(9, 0)),
            Event::Lock(at(13, 0)),
            Event::Create(at(13, 30)),
            Event::Close(at(16, 0)),
        ],
    );
    assert_eq!(
        session.events(),
        &vec![
            Event::Create(at(8, 0)),
            Event::Lock(at(13, 0)),
            Event::Close(at(16, 0)),
        ]
    );
    let report = session.get_report(&Clock::system());
    assert_eq!(report.start, Some(at(8, 0)));
    assert_eq!(report.working, Duration::hours(5));
    assert_eq!(report.resting, Duration::hours(3));
}

#[test]
fn a_closed_session_takes_nothing_more() {
    let mut session = session_of(at(8, 0), &[Event::Close(at(16, 0))]);
    let closed = session.events().clone();
    let report = session.get_report(&Clock::system());
    for event in [
        Event::Close(at(17, 0)),
        Event::Lock(at(17, 0)),
        Event::Unlock(at(17, 0)),
        Event::Create(at(17, 0)),
    ] {
        session.event(event);
        assert_eq!(session.events(), &closed);
        assert!(!session.is_session_running());
        assert_eq!(session.get_report(&Clock::system()), report);
    }
    assert_eq!(report.end, Some(at(16, 0)));
    assert_eq!(report.total, Duration::hours(8));
}

#[test]
fn a_session_can_close_while_it_rests() {
    let report = closed_report(
        at(8, 0),
        &[Event::Lock(at(13, 0)), Event::Close(at(16, 0))],
    );
    assert_eq!(report.total, Duration::hours(8));
    assert_eq!(report.working, Duration::hours(5));
    assert_eq!(report.resting, Duration::hours(3));
    assert_eq!(report.end, Some(at(16, 0)));
}

#[test]
fn each_event_is_taken_or_dropped_by_the_last_one() {
    let t = at(9, 0);
    let kinds = [
        Event::Create(t),
        Event::Lock(t),
        Event::Unlock(t),
        Event::Close(t),
    ];
    // Rows: the last event taken. Columns: the event that comes in.
    let table = [
        [false, true, false, true],
        [false, false, true, true],
        [false, true, false, true],
        [false, false, false, false],
    ];
    for (last, row) in kinds.iter().zip(table) {
        for (incoming, expected) in kinds.iter().zip(row) {
            assert_eq!(incoming.accepted_after(last), expected);
        }
    }
}

#[test]
fn a_delta_is_work_after_a_start_or_a_resumption() {
    let close = Event::Close(at(16, 0));
    assert_eq!(
        close.delta_from(&Event::Create(at(8, 0))),
        (Status::Working, Duration::hours(8))
    );
    assert_eq!(
        close.delta_from(&Event::Unlock(at(14, 0))),
        (Status::Working, Duration::hours(2))
    );
    assert_eq!(
        close.delta_from(&Event::Lock(at(13, 0))),
        (Status::Resting, Duration::hours(3))
    );
    assert_eq!(
        close.delta_from(&Event::Close(at(15, 45))),
        (Status::Resting, Duration::minutes(15))
    );
    assert_eq!(
        Event::Lock(at(8, 0)).delta_from(&Event::Unlock(at(9, 0))),
        (Status::Working, Duration::hours(-1))
    );
}

#[test]
fn intervals_of_no_length_add_nothing() {
    let report = closed_report(
        at(8, 0),
        &[
            Event::Lock(at(8, 0)),
            Event::Unlock(at(8, 0)),
            Event::Lock(at(12, 0)),
            Event::Unlock(at(12, 0)),
            Event::Close(at(16, 0)),
        ],
    );
    assert_eq!(report.total, Duration::hours(8));
    assert_eq!(report.working, Duration::hours(8));
    assert_eq!(report.resting, Duration::zero());
}

#[test]
fn events_out_of_order_give_signed_spans() {
    let report = closed_report(
        at(8, 0),
        &[
            Event::Lock(at(13, 0)),
            Event::Unlock(at(12, 0)),
            Event::Close(at(16, 0)),
        ],
    );
    assert_eq!(report.total, Duration::hours(8));
    assert_eq!(report.working, Duration::hours(9));
    assert_eq!(report.resting, Duration::hours(-1));
}

#[test]
fn working_and_resting_make_the_total() {
    let histories: [&[Event]; 6] = [
        &[],
        &[Event::Lock(at(13, 0))],
        &[Event::Lock(at(13, 0)), Event::Unlock(at(14, 7))],
        &[Event::Close(at(16, 0))],
        &[
            Event::Lock(at(13, 0)),
            Event::Unlock(at(12, 0)),
            Event::Lock(at(7, 0)),
            Event::Close(at(3, 0)),
        ],
        &[
            Event::Lock(at(9, 0)),
            Event::Unlock(at(9, 5)),
            Event::Lock(at(10, 0)),
            Event::Unlock(at(10, 5)),
            Event::Lock(at(11, 0)),
        ],
    ];
    let nows = [
        Moment::from_timestamp(DAY_START + 20 * 3600, 123_456_789).unwrap(),
        Moment::from_timestamp(DAY_START - 5, 999_999_999).unwrap(),
        Moment::from_timestamp(working_hours::moment::MAX_TIMESTAMP, 999_999_999).unwrap(),
        Moment::from_timestamp(working_hours::moment::MIN_TIMESTAMP, 0).unwrap(),
    ];
    for events in histories {
        for now in nows {
            let report = session_of(at(8, 0), events).get_report(&Clock::fixed(now));
            assert_eq!(report.working.add(report.resting), report.total);
        }
    }
}

#[test]
fn working_and_resting_make_the_total_to_the_nanosecond() {
    let start = Moment::from_timestamp(DAY_START, 999_999_999).unwrap();
    let lock = Moment::from_timestamp(DAY_START + 10, 1).unwrap();
    let unlock = Moment::from_timestamp(DAY_START + 20, 500_000_000).unwrap();
    let close = Moment::from_timestamp(DAY_START + 30, 2).unwrap();
    let report = closed_report(
        start,
        &[Event::Lock(lock), Event::Unlock(unlock), Event::Close(close)],
    );
    assert_eq!(report.total, Duration::new(29, 3));
    assert_eq!(report.working, Duration::new(9, 2).add(Duration::new(9, 500_000_002)));
    assert_eq!(report.resting, Duration::new(10, 499_999_999));
    assert_eq!(report.working.add(report.resting), report.total);
}

#[test]
fn a_closed_session_reports_the_same_at_any_time() {
    let session = session_of(
        at(8, 0),
        &[
            Event::Lock(at(13, 0)),
            Event::Unlock(at(14, 0)),
            Event::Close(at(16, 0)),
        ],
    );
    let first = session.get_report(&Clock::system());
    let second = session.get_report(&Clock::system());
    let held = session.get_report(&Clock::fixed(at(23, 0)));
    let earlier = session.get_report(&Clock::fixed(at(1, 0)));
    assert_eq!(first, second);
    assert_eq!(first, held);
    assert_eq!(first, earlier);
    assert_eq!(first, session.report_at(at(5, 0)));
}

#[test]
fn a_long_history_is_summed_without_loss() {
    let mut session = Session::new(at(0, 0));
    let mut minute = 0;
    for _ in 0..300 {
        minute += 1;
        session.event(Event::Lock(at(0, minute)));
        minute += 2;
        session.event(Event::Unlock(at(0, minute)));
    }
    session.event(Event::Close(at(0, minute)));
    assert_eq!(session.events().len(), 602);
    let report = session.get_report(&Clock::system());
    assert_eq!(report.working, Duration::minutes(300));
    assert_eq!(report.resting, Duration::minutes(600));
    assert_eq!(report.total, Duration::minutes(900));
}

#[test]
fn sums_beyond_three_hundred_million_years_stay_exact() {
    let first = Moment::from_timestamp(working_hours::moment::MIN_TIMESTAMP, 0).unwrap();
    let last = Moment::from_timestamp(working_hours::moment::MAX_TIMESTAMP, 0).unwrap();
    let mut session = Session::new(first);
    for _ in 0..1000 {
        session.event(Event::Lock(last));
        session.event(Event::Unlock(first));
    }
    session.event(Event::Close(last));
    let span = i128::from(working_hours::moment::MAX_TIMESTAMP)
        - i128::from(working_hours::moment::MIN_TIMESTAMP);
    let report = session.get_report(&Clock::system());
    assert_eq!(report.working.whole_seconds(), 1001 * span);
    assert_eq!(report.resting.whole_seconds(), -1000 * span);
    assert_eq!(report.total.whole_seconds(), span);
    assert_eq!(report.working.add(report.resting), report.total);
}

#[test]
fn an_event_tells_its_time() {
    assert_eq!(Event::Create(at(8, 0)).time(), at(8, 0));
    assert_eq!(Event::Lock(at(13, 0)).time(), at(13, 0));
    assert_eq!(Event::Unlock(at(14, 0)).time(), at(14, 0));
    assert_eq!(Event::Close(at(16, 0)).time(), at(16, 0));
}
