//! The two kinds of record: pull requests and issues.

use crate::activity::Activity;
use crate::activity::IActivity;
use crate::event::Event;
use crate::time::Instant;
use crate::time::TimeRange;
use vstd::prelude::*;

verus! {

/// A pull request, with what a report reads of it.
#[derive(Clone, Debug)]
pub struct PullRequest {
    pub number: u64,
    /// The login of the author, where the record names one.
    pub user: Option<String>,
    pub title: Option<String>,
    pub html_url: Option<String>,
    pub created_at: Option<Instant>,
    pub updated_at: Option<Instant>,
    pub closed_at: Option<Instant>,
    pub merged_at: Option<Instant>,
}

/// Why an issue was closed or opened again.
#[derive(Clone, Copy, Debug, PartialEq, Eq, Structural)]
pub enum IssueStateReason {
    Completed,
    NotPlanned,
    Reopened,
    /// A reason that has no name here.
    Other,
}

/// An issue, with what a report reads of it.
#[derive(Clone, Debug)]
pub struct Issue {
    pub number: u64,
    /// The login of the author.
    pub user: String,
    pub title: String,
    pub html_url: String,
    pub created_at: Instant,
    pub updated_at: Instant,
    pub closed_at: Option<Instant>,
    pub state_reason: Option<IssueStateReason>,
    /// Whether the record points back to a pull request: the listing of
    /// issues holds the pull requests too.
    pub pull_request: bool,
}

/// The text of an optional string; empty where there is none.
pub open spec fn text_or_empty(text: Option<String>) -> Seq<char> {
    match text {
        Some(s) => s@,
        None => Seq::<char>::empty(),
    }
}

/// The text of an optional string, or the empty string.
pub fn str_or_empty(text: &Option<String>) -> (r: &str)
    ensures
        r@ == text_or_empty(*text),
{
    match text {
        Some(s) => s.as_str(),
        None => {
            proof {
                reveal_strlit("");
                assert(""@ =~= Seq::<char>::empty());
            }
            ""
        },
    }
}

impl IActivity for PullRequest {
    open spec fn spec_name() -> Seq<char> {
        "PR"@
    }

    open spec fn spec_is_unique(&self) -> bool {
        true
    }

    open spec fn spec_number(&self) -> u64 {
        self.number
    }

    open spec fn spec_author(&self) -> Seq<char> {
        text_or_empty(self.user)
    }

    open spec fn spec_title(&self) -> Seq<char> {
        text_or_empty(self.title)
    }

    open spec fn spec_has_url(&self) -> bool {
        self.html_url is Some
    }

    open spec fn spec_url(&self) -> Seq<char> {
        text_or_empty(self.html_url)
    }

    open spec fn spec_event_time(&self, event: Event) -> Option<Instant> {
        match event {
            Event::Open => self.created_at,
            Event::Update => self.updated_at,
            Event::Close => self.closed_at,
            Event::Merge => self.merged_at,
        }
    }

    fn name() -> (r: &'static str) {
        "PR"
    }

    fn is_unique(&self) -> (r: bool) {
        true
    }

    fn number(&self) -> (r: u64) {
        self.number
    }

    fn author(&self) -> (r: &str) {
        str_or_empty(&self.user)
    }

    fn title(&self) -> (r: &str) {
        str_or_empty(&self.title)
    }

    fn url(&self) -> (r: &str) {
        str_or_empty(&self.html_url)
    }

    fn event_time(&self, event: Event) -> (r: Option<Instant>) {
        match event {
            Event::Open => self.created_at,
            Event::Update => self.updated_at,
            Event::Close => self.closed_at,
            Event::Merge => self.merged_at,
        }
    }
}

impl IActivity for Issue {
    open spec fn spec_name() -> Seq<char> {
        "issue"@
    }

    /// The listing of issues counts pull requests as issues too, so an
    /// issue that is also a pull request does not stand for itself.
    open spec fn spec_is_unique(&self) -> bool {
        !self.pull_request
    }

    open spec fn spec_number(&self) -> u64 {
        self.number
    }

    open spec fn spec_author(&self) -> Seq<char> {
        self.user@
    }

    open spec fn spec_title(&self) -> Seq<char> {
        self.title@
    }

    open spec fn spec_has_url(&self) -> bool {
        true
    }

    open spec fn spec_url(&self) -> Seq<char> {
        self.html_url@
    }

    /// An issue is merged when it was closed as completed, and then at the
    /// time of its closing.
    open spec fn spec_event_time(&self, event: Event) -> Option<Instant> {
        match event {
            Event::Open => Some(self.created_at),
            Event::Update => Some(self.updated_at),
            Event::Close => self.closed_at,
            Event::Merge => if self.state_reason == Some(IssueStateReason::Completed) {
                self.closed_at
            } else {
                None
            },
        }
    }

    fn name() -> (r: &'static str) {
        "issue"
    }

    fn is_unique(&self) -> (r: bool) {
        !self.pull_request
    }

    fn number(&self) -> (r: u64) {
        self.number
    }

    fn author(&self) -> (r: &str) {
        self.user.as_str()
    }

    fn title(&self) -> (r: &str) {
        self.title.as_str()
    }

    fn url(&self) -> (r: &str) {
        self.html_url.as_str()
    }

    fn event_time(&self, event: Event) -> (r: Option<Instant>) {
        match event {
            Event::Open => Some(self.created_at),
            Event::Update => Some(self.updated_at),
            Event::Close => self.closed_at,
            Event::Merge => match self.state_reason {
                Some(IssueStateReason::Completed) => self.closed_at,
                _ => None,
            },
        }
    }
}

/// An issue that was closed as not planned matches no filter on the merge
/// event, whatever the window and although the time of its closing is
/// there.
pub proof fn lemma_not_planned_never_merged(issue: Issue, time_range: TimeRange)
    requires
        issue.state_reason == Some(IssueStateReason::NotPlanned),
    ensures
        !Activity(issue).spec_event_between(Event::Merge, time_range),
        issue.spec_event_time(Event::Close) == issue.closed_at,
{
}

/// An issue is merged inside a window exactly when it was closed as
/// completed and its closing lies inside the window.
pub proof fn lemma_issue_merged_iff_completed(issue: Issue, time_range: TimeRange)
    ensures
        Activity(issue).spec_event_between(Event::Merge, time_range) <==> (issue.state_reason
            == Some(IssueStateReason::Completed) && issue.closed_at is Some
            && time_range.spec_contains(issue.closed_at->0)),
{
}

/// An issue that was never closed matches the open event in every window
/// that starts before its creation and has no end, and the close event in
/// no window.
pub proof fn lemma_open_issue(issue: Issue, time_range: TimeRange)
    requires
        issue.closed_at is None,
    ensures
        !Activity(issue).spec_event_between(Event::Close, time_range),
        time_range.end is None && (time_range.start matches Some(start) ==> start.is_before(
            issue.created_at,
        )) ==> Activity(issue).spec_event_between(Event::Open, time_range),
{
}

/// Every pull request stands for itself, so the selection keeps them all.
pub proof fn lemma_pull_requests_all_unique(items: Seq<PullRequest>)
    ensures
        crate::activity::unique_only(items) == items,
    decreases items.len(),
{
    reveal(Seq::filter);
    if items.len() > 0 {
        lemma_pull_requests_all_unique(items.drop_last());
        assert(items.drop_last().push(items.last()) =~= items);
    }
}

} // verus!
