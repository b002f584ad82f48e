use repo_activity::report::digit_str;
use repo_activity::report::push_decimal;
use repo_activity::report::push_detail_line;
use repo_activity::report::push_header_line;
use repo_activity::report::push_past_tense;
use repo_activity::Activity;
use repo_activity::Event;
use repo_activity::Instant;
use repo_activity::Issue;
use repo_activity::IssueStateReason;
use repo_activity::PullRequest;
use repo_activity::TimeRange;

fn at(secs: i64) -> Instant {
    Instant::from_timestamp(secs, 0).unwrap()
}

fn pull_request(number: u64, created: i64, merged: Option<i64>) -> PullRequest {
    PullRequest {
        number,
        user: Some(format!("user{}", number)),
        title: Some(format!("Change {}", number)),
        html_url: Some(format!("https://example.org/pull/{}", number)),
        created_at: Some(at(created)),
        updated_at: None,
        closed_at: merged.map(at),
        merged_at: merged.map(at),
    }
}

fn decimal(n: u64) -> String {
    let mut out = String::new();
    push_decimal(&mut out, n);
    out
}

#[test]
fn digits() {
    let all: Vec<&str> = (0..10u64).map(digit_str).collect();
    assert_eq!(all, vec!["0", "1", "2", "3", "4", "5", "6", "7", "8", "9"]);
}

#[test]
fn decimal_numbers() {
    assert_eq!(decimal(0), "0");
    assert_eq!(decimal(7), "7");
    assert_eq!(decimal(10), "10");
    assert_eq!(decimal(42), "42");
    assert_eq!(decimal(1001), "1001");
    assert_eq!(decimal(u64::MAX), "18446744073709551615");
}

#[test]
fn decimal_numbers_as_std_prints_them() {
    for n in [0u64, 1, 9, 10, 11, 99, 100, 12345, 9_999_999_999, u64::MAX - 1] {
        assert_eq!(decimal(n), n.to_string());
    }
}

#[test]
fn decimal_is_written_at_the_end() {
    let mut out = String::from("#");
    push_decimal(&mut out, 305);
    assert_eq!(out, "#305");
}

#[test]
fn past_tense_is_written_at_the_end() {
    let mut out = String::from("(");
    push_past_tense(&mut out, Event::Open);
    out.push(' ');
    push_past_tense(&mut out, Event::Merge);
    assert_eq!(out, "(opened merged");
}

#[test]
fn header_lines() {
    let mut out = String::new();
    push_header_line(&mut out, 3, "PR", Event::Merge);
    push_header_line(&mut out, 12, "issue", Event::Open);
    assert_eq!(out, "3 PRs merged\n12 issues opened\n");
}

#[test]
fn local_time_of_an_instant() {
    assert_eq!(at(1704153600).local_text(), "2024-01-02 00:00:00");
    assert_eq!(at(0).local_text(), "1970-01-01 00:00:00");
    assert_eq!(
        Instant::from_timestamp(1704153600, 500_000_000).unwrap().local_text(),
        "2024-01-02 00:00:00.500"
    );
}

#[test]
fn detail_line_of_a_pull_request() {
    let record = Activity(pull_request(17, 1704153600, None));
    let mut out = String::new();
    push_detail_line(&mut out, &record, Event::Open);
    assert_eq!(out, "\t#17 (opened 2024-01-02 00:00:00) by @user17: Change 17\n");
}

#[test]
fn detail_line_of_an_issue() {
    let record = Activity(Issue {
        number: 4,
        user: "hubot".to_string(),
        title: "It: broke".to_string(),
        html_url: "https://example.org/issues/4".to_string(),
        created_at: at(1704067200),
        updated_at: at(1704067200),
        closed_at: Some(at(1704153600 + 3661)),
        state_reason: Some(IssueStateReason::Completed),
        pull_request: false,
    });
    let mut out = String::new();
    push_detail_line(&mut out, &record, Event::Close);
    assert_eq!(out, "\t#4 (closed 2024-01-02 01:01:01) by @hubot: It: broke\n");
}

#[test]
fn report_on_no_records() {
    let range = TimeRange { start: None, end: None };
    let pulls = Activity::<PullRequest>::list(Vec::new());
    assert_eq!(pulls.events_between(Event::Open, &range).render(), "0 PRs opened\n");
    assert_eq!(pulls.events_between(Event::Merge, &range).render(), "0 PRs merged\n");
    let issues = Activity::<Issue>::list(Vec::new());
    assert_eq!(issues.events_between(Event::Open, &range).render(), "0 issues opened\n");
    assert_eq!(issues.events_between(Event::Close, &range).render(), "0 issues closed\n");
}

#[test]
fn report_counts_opened_but_not_merged() {
    let range = TimeRange { start: Some(at(1704067200)), end: None };
    let list = Activity::list(vec![pull_request(1, 1704153600, Some(1703980800))]);
    let opened = list.events_between(Event::Open, &range);
    assert_eq!(opened.all.len(), 1);
    assert_eq!(
        opened.render(),
        "1 PRs opened\n\t#1 (opened 2024-01-02 00:00:00) by @user1: Change 1\n"
    );
    let merged = list.events_between(Event::Merge, &range);
    assert_eq!(merged.all.len(), 0);
    assert_eq!(merged.render(), "0 PRs merged\n");
}

#[test]
fn report_lists_the_matching_records_in_order() {
    let range = TimeRange { start: Some(at(1704067200)), end: Some(at(1704067200 + 10 * 86400)) };
    let list = Activity::list(vec![
        pull_request(1, 1704067200 + 86400, Some(1704067200 + 2 * 86400)),
        pull_request(2, 1704067200 - 86400, Some(1704067200 + 3 * 86400)),
        pull_request(3, 1704067200 + 4 * 86400, None),
        pull_request(4, 1704067200 + 5 * 86400, Some(1704067200 + 11 * 86400)),
    ]);
    let opened = list.events_between(Event::Open, &range);
    assert_eq!(opened.event, Event::Open);
    assert_eq!(
        opened.render(),
        "3 PRs opened\n\
         \t#1 (opened 2024-01-02 00:00:00) by @user1: Change 1\n\
         \t#3 (opened 2024-01-05 00:00:00) by @user3: Change 3\n\
         \t#4 (opened 2024-01-06 00:00:00) by @user4: Change 4\n"
    );
    let merged = list.events_between(Event::Merge, &range);
    assert_eq!(
        merged.render(),
        "2 PRs merged\n\
         \t#1 (merged 2024-01-03 00:00:00) by @user1: Change 1\n\
         \t#2 (merged 2024-01-04 00:00:00) by @user2: Change 2\n"
    );
}

#[test]
fn selection_keeps_its_window() {
    let range = TimeRange { start: Some(at(5)), end: Some(at(9)) };
    let list = Activity::list(vec![pull_request(1, 7, None)]);
    let selection = list.events_between(Event::Open, &range);
    assert_eq!(selection.time_range.start, Some(at(5)));
    assert_eq!(selection.time_range.end, Some(at(9)));
    assert_eq!(selection.all.len(), 1);
    assert_eq!(selection.all[0].number(), 1);
}
