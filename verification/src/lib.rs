//! Activity digest for one repository: pull requests and issues are
//! collected page by page, classified by lifecycle event, filtered into a
//! time window and rendered as text.

pub mod activity;
pub mod auth;
pub mod event;
pub mod fetch;
pub mod records;
pub mod repo;
pub mod report;
pub mod time;
pub mod when;

pub use crate::activity::Activity;
pub use crate::activity::ActivityFilteredList;
pub use crate::activity::ActivityList;
pub use crate::activity::IActivity;
pub use crate::event::Event;
pub use crate::records::Issue;
pub use crate::records::IssueStateReason;
pub use crate::records::PullRequest;
pub use crate::repo::RepoRef;
pub use crate::time::Instant;
pub use crate::time::Span;
pub use crate::time::TimeRange;
