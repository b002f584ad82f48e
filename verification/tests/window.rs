use chrono::DateTime;
use repo_activity::Activity;
use repo_activity::Event;
use repo_activity::IActivity;
use repo_activity::Instant;
use repo_activity::Issue;
use repo_activity::IssueStateReason;
use repo_activity::PullRequest;
use repo_activity::TimeRange;

fn at(text: &str) -> Instant {
    let time = DateTime::parse_from_rfc3339(text).unwrap();
    Instant::from_timestamp(time.timestamp(), time.timestamp_subsec_nanos()).unwrap()
}

fn pull_request(created: Option<&str>, merged: Option<&str>) -> PullRequest {
    PullRequest {
        number: 7,
        user: Some("octocat".to_string()),
        title: Some("Add a thing".to_string()),
        html_url: Some("https://example.org/pull/7".to_string()),
        created_at: created.map(at),
        updated_at: None,
        closed_at: merged.map(at),
        merged_at: merged.map(at),
    }
}

fn issue(created: &str, closed: Option<&str>, reason: Option<IssueStateReason>) -> Issue {
    Issue {
        number: 11,
        user: "hubot".to_string(),
        title: "Something is off".to_string(),
        html_url: "https://example.org/issues/11".to_string(),
        created_at: at(created),
        updated_at: at(created),
        closed_at: closed.map(at),
        state_reason: reason,
        pull_request: false,
    }
}

fn window(start: Option<&str>, end: Option<&str>) -> TimeRange {
    TimeRange { start: start.map(at), end: end.map(at) }
}

#[test]
fn instant_keeps_its_timestamp() {
    let time = Instant::from_timestamp(1704153600, 25).unwrap();
    assert_eq!(time.timestamp(), 1704153600);
    assert_eq!(time.timestamp_subsec_nanos(), 25);
}

#[test]
fn instant_refuses_what_chrono_refuses() {
    assert!(Instant::from_timestamp(0, 0).is_some());
    assert!(Instant::from_timestamp(0, 2_000_000_000).is_none());
    assert!(Instant::from_timestamp(0, 1_500_000_000).is_none());
    assert!(Instant::from_timestamp(59, 1_500_000_000).is_some());
    assert!(Instant::from_timestamp(i64::MAX, 0).is_none());
    assert!(Instant::from_timestamp(i64::MIN, 0).is_none());
}

#[test]
fn instants_are_ordered_by_seconds_then_nanoseconds() {
    let early = Instant::from_timestamp(10, 999_999_999).unwrap();
    let late = Instant::from_timestamp(11, 0).unwrap();
    let later = Instant::from_timestamp(11, 1).unwrap();
    assert!(early.before(&late));
    assert!(late.before(&later));
    assert!(early.before(&later));
    assert!(!late.before(&early));
    assert!(!late.before(&late));
}

#[test]
fn instants_are_ordered_as_chrono_orders_them() {
    let texts = [
        "1969-12-31T23:59:59.5Z",
        "1970-01-01T00:00:00Z",
        "2023-12-31T00:00:00Z",
        "2024-01-01T00:00:00Z",
        "2024-01-01T00:00:00.000000001Z",
    ];
    for a in texts {
        for b in texts {
            let expected = DateTime::parse_from_rfc3339(a).unwrap()
                < DateTime::parse_from_rfc3339(b).unwrap();
            assert_eq!(at(a).before(&at(b)), expected);
        }
    }
}

#[test]
fn window_without_bounds_holds_every_instant() {
    let range = window(None, None);
    assert!(range.contains(&at("1970-01-01T00:00:00Z")));
    assert!(range.contains(&at("2999-01-01T00:00:00Z")));
}

#[test]
fn bounds_of_a_window_are_outside_it() {
    let range = window(Some("2024-01-01T00:00:00Z"), Some("2024-02-01T00:00:00Z"));
    assert!(!range.contains(&at("2024-01-01T00:00:00Z")));
    assert!(range.contains(&at("2024-01-01T00:00:00.000000001Z")));
    assert!(range.contains(&at("2024-01-15T12:00:00Z")));
    assert!(range.contains(&at("2024-01-31T23:59:59.999999999Z")));
    assert!(!range.contains(&at("2024-02-01T00:00:00Z")));
    assert!(!range.contains(&at("2023-12-31T23:59:59Z")));
    assert!(!range.contains(&at("2024-02-01T00:00:01Z")));
}

#[test]
fn absent_event_is_in_no_window() {
    let record = Activity(pull_request(Some("2024-01-02T00:00:00Z"), None));
    let windows = [
        window(None, None),
        window(Some("2000-01-01T00:00:00Z"), None),
        window(None, Some("2999-01-01T00:00:00Z")),
        window(Some("2000-01-01T00:00:00Z"), Some("2999-01-01T00:00:00Z")),
    ];
    for range in windows.iter() {
        assert!(!record.event_between(Event::Merge, range));
        assert!(!record.event_between(Event::Close, range));
        assert!(!record.event_between(Event::Update, range));
        assert!(record.event_between(Event::Open, range));
    }
}

#[test]
fn start_only_window_matches_strictly_later_events() {
    let range = window(Some("2024-01-01T00:00:00Z"), None);
    let later = Activity(pull_request(Some("2024-01-01T00:00:01Z"), None));
    let same = Activity(pull_request(Some("2024-01-01T00:00:00Z"), None));
    let earlier = Activity(pull_request(Some("2023-12-31T23:59:59Z"), None));
    assert!(later.event_between(Event::Open, &range));
    assert!(!same.event_between(Event::Open, &range));
    assert!(!earlier.event_between(Event::Open, &range));
}

#[test]
fn end_only_window_matches_strictly_earlier_events() {
    let range = window(None, Some("2024-01-01T00:00:00Z"));
    let later = Activity(pull_request(Some("2024-01-01T00:00:01Z"), None));
    let same = Activity(pull_request(Some("2024-01-01T00:00:00Z"), None));
    let earlier = Activity(pull_request(Some("2023-12-31T23:59:59Z"), None));
    assert!(!later.event_between(Event::Open, &range));
    assert!(!same.event_between(Event::Open, &range));
    assert!(earlier.event_between(Event::Open, &range));
}

#[test]
fn two_sided_window_matches_events_strictly_between() {
    let range = window(Some("2024-01-01T00:00:00Z"), Some("2024-01-03T00:00:00Z"));
    let inside = Activity(pull_request(Some("2024-01-02T00:00:00Z"), None));
    let at_start = Activity(pull_request(Some("2024-01-01T00:00:00Z"), None));
    let at_end = Activity(pull_request(Some("2024-01-03T00:00:00Z"), None));
    assert!(inside.event_between(Event::Open, &range));
    assert!(!at_start.event_between(Event::Open, &range));
    assert!(!at_end.event_between(Event::Open, &range));
}

#[test]
fn pull_request_opened_inside_and_merged_before_the_window() {
    let range = window(Some("2024-01-01T00:00:00Z"), None);
    let record =
        Activity(pull_request(Some("2024-01-02T00:00:00Z"), Some("2023-12-31T00:00:00Z")));
    assert!(record.event_between(Event::Open, &range));
    assert!(!record.event_between(Event::Merge, &range));
}

#[test]
fn pull_request_event_times() {
    let record = PullRequest {
        number: 1,
        user: None,
        title: None,
        html_url: Some("https://example.org/pull/1".to_string()),
        created_at: Some(at("2024-01-01T00:00:00Z")),
        updated_at: Some(at("2024-01-02T00:00:00Z")),
        closed_at: Some(at("2024-01-03T00:00:00Z")),
        merged_at: Some(at("2024-01-04T00:00:00Z")),
    };
    assert_eq!(record.event_time(Event::Open), Some(at("2024-01-01T00:00:00Z")));
    assert_eq!(record.event_time(Event::Update), Some(at("2024-01-02T00:00:00Z")));
    assert_eq!(record.event_time(Event::Close), Some(at("2024-01-03T00:00:00Z")));
    assert_eq!(record.event_time(Event::Merge), Some(at("2024-01-04T00:00:00Z")));
}

#[test]
fn pull_request_without_author_and_title() {
    let record = PullRequest {
        number: 3,
        user: None,
        title: None,
        html_url: Some("https://example.org/pull/3".to_string()),
        created_at: None,
        updated_at: None,
        closed_at: None,
        merged_at: None,
    };
    assert_eq!(PullRequest::name(), "PR");
    assert_eq!(record.number(), 3);
    assert_eq!(record.author(), "");
    assert_eq!(record.title(), "");
    assert_eq!(record.url(), "https://example.org/pull/3");
    assert!(record.is_unique());
    assert_eq!(record.event_time(Event::Open), None);
}

#[test]
fn pull_request_getters() {
    let record = Activity(pull_request(None, None));
    assert_eq!(Activity::<PullRequest>::name(), "PR");
    assert_eq!(record.number(), 7);
    assert_eq!(record.author(), "octocat");
    assert_eq!(record.title(), "Add a thing");
    assert_eq!(record.url(), "https://example.org/pull/7");
    assert!(record.is_unique());
}

#[test]
fn issue_getters() {
    let record = Activity(issue("2024-01-01T00:00:00Z", None, None));
    assert_eq!(Activity::<Issue>::name(), "issue");
    assert_eq!(Issue::name(), "issue");
    assert_eq!(record.number(), 11);
    assert_eq!(record.author(), "hubot");
    assert_eq!(record.title(), "Something is off");
    assert_eq!(record.url(), "https://example.org/issues/11");
    assert!(record.is_unique());
}

#[test]
fn issue_that_is_a_pull_request_is_not_unique() {
    let mut record = issue("2024-01-01T00:00:00Z", None, None);
    record.pull_request = true;
    assert!(!record.is_unique());
    assert!(!Activity(record).is_unique());
}

#[test]
fn issue_event_times() {
    let record = issue(
        "2024-01-01T00:00:00Z",
        Some("2024-01-05T00:00:00Z"),
        Some(IssueStateReason::Completed),
    );
    assert_eq!(record.event_time(Event::Open), Some(at("2024-01-01T00:00:00Z")));
    assert_eq!(record.event_time(Event::Update), Some(at("2024-01-01T00:00:00Z")));
    assert_eq!(record.event_time(Event::Close), Some(at("2024-01-05T00:00:00Z")));
    assert_eq!(record.event_time(Event::Merge), Some(at("2024-01-05T00:00:00Z")));
}

#[test]
fn issue_closed_as_not_planned_is_never_merged() {
    let record = Activity(issue(
        "2024-01-01T00:00:00Z",
        Some("2024-01-05T00:00:00Z"),
        Some(IssueStateReason::NotPlanned),
    ));
    assert_eq!(record.event_time(Event::Close), Some(at("2024-01-05T00:00:00Z")));
    assert_eq!(record.event_time(Event::Merge), None);
    let windows = [
        window(None, None),
        window(Some("2024-01-01T00:00:00Z"), None),
        window(None, Some("2024-02-01T00:00:00Z")),
        window(Some("2024-01-01T00:00:00Z"), Some("2024-02-01T00:00:00Z")),
    ];
    for range in windows.iter() {
        assert!(!record.event_between(Event::Merge, range));
        assert!(record.event_between(Event::Close, range));
    }
}

#[test]
fn issue_closed_without_a_reason_or_for_another_is_not_merged() {
    for reason in [None, Some(IssueStateReason::Reopened), Some(IssueStateReason::Other)] {
        let record = issue("2024-01-01T00:00:00Z", Some("2024-01-05T00:00:00Z"), reason);
        assert_eq!(record.event_time(Event::Merge), None);
    }
}

#[test]
fn issue_marked_completed_but_not_closed_is_not_merged() {
    let record = issue("2024-01-01T00:00:00Z", None, Some(IssueStateReason::Completed));
    assert_eq!(record.event_time(Event::Merge), None);
}

#[test]
fn issue_that_was_never_closed() {
    let record = Activity(issue("2024-01-10T00:00:00Z", None, None));
    for start in ["1970-01-01T00:00:00Z", "2024-01-01T00:00:00Z", "2024-01-09T23:59:59.999999999Z"]
    {
        assert!(record.event_between(Event::Open, &window(Some(start), None)));
    }
    assert!(record.event_between(Event::Open, &window(None, None)));
    let windows = [
        window(None, None),
        window(Some("1970-01-01T00:00:00Z"), None),
        window(None, Some("2999-01-01T00:00:00Z")),
        window(Some("1970-01-01T00:00:00Z"), Some("2999-01-01T00:00:00Z")),
    ];
    for range in windows.iter() {
        assert!(!record.event_between(Event::Close, range));
    }
}

#[test]
fn lossy_instant_of_a_timestamp_that_chrono_has() {
    let time = Instant::from_timestamp_lossy(1704153600, 25);
    assert_eq!(time, Instant::from_timestamp(1704153600, 25).unwrap());
    let leap = Instant::from_timestamp_lossy(59, 1_500_000_000);
    assert_eq!(leap.timestamp(), 59);
    assert_eq!(leap.timestamp_subsec_nanos(), 1_500_000_000);
}

#[test]
fn lossy_instant_of_a_timestamp_that_chrono_lacks() {
    let clipped = Instant::from_timestamp_lossy(30, 1_500_000_000);
    assert_eq!(clipped.timestamp(), 30);
    assert_eq!(clipped.timestamp_subsec_nanos(), 999_999_999);
    let clipped = Instant::from_timestamp_lossy(30, u32::MAX);
    assert_eq!(clipped, Instant::from_timestamp(30, 999_999_999).unwrap());
    assert_eq!(Instant::from_timestamp_lossy(i64::MAX, 0), Instant::earliest());
    assert_eq!(Instant::from_timestamp_lossy(i64::MIN, 5), Instant::earliest());
}
