//! The data that the orchestration reads and records.

use vstd::prelude::*;

verus! {

/// Snapshot of a repository, taken from the triggering event.
#[derive(Debug, Clone)]
pub struct Repository {
    pub id: i64,
    pub name: String,
    pub full_name: String,
    pub owner: String,
    pub default_branch: String,
}

/// A pull request as the hosting platform reports it.
#[derive(Debug, Clone)]
pub struct PullRequest {
    pub id: i64,
    pub number: i32,
    pub title: String,
    pub head_branch: String,
    pub base_branch: String,
    pub repository: Repository,
    pub state: String,
    pub mergeable: Option<bool>,
}

/// Lifecycle state of a try-merge job.
#[derive(Debug, Clone, Copy, PartialEq, Eq, Structural)]
pub enum JobStatus {
    Pending,
    Running,
    Completed,
    Failed,
}

/// The stored name of each status.
pub open spec fn status_name(s: JobStatus) -> Seq<char> {
    match s {
        JobStatus::Pending => "pending"@,
        JobStatus::Running => "running"@,
        JobStatus::Completed => "completed"@,
        JobStatus::Failed => "failed"@,
    }
}

impl JobStatus {
    /// The name under which the status is stored.
    pub fn as_str(&self) -> (r: &'static str)
        ensures
            r@ == status_name(*self),
    {
        match self {
            JobStatus::Pending => "pending",
            JobStatus::Running => "running",
            JobStatus::Completed => "completed",
            JobStatus::Failed => "failed",
        }
    }

    /// Reads a stored status name; `None` for any other text.
    pub fn parse(s: &str) -> (r: Option<JobStatus>)
        ensures
            r matches Some(st) ==> status_name(st) == s@,
            r is None ==> forall|st: JobStatus| status_name(st) != s@,
    {
        let owned = String::from_str(s);
        if owned == String::from_str("pending") {
            Some(JobStatus::Pending)
        } else if owned == String::from_str("running") {
            Some(JobStatus::Running)
        } else if owned == String::from_str("completed") {
            Some(JobStatus::Completed)
        } else if owned == String::from_str("failed") {
            Some(JobStatus::Failed)
        } else {
            proof {
                assert forall|st: JobStatus| status_name(st) != s@ by {
                    match st {
                        JobStatus::Pending => {},
                        JobStatus::Running => {},
                        JobStatus::Completed => {},
                        JobStatus::Failed => {},
                    }
                }
            }
            None
        }
    }
}

/// One attempt to validate a pull request on a try-branch.
#[derive(Debug, Clone)]
pub struct TryMergeJob {
    /// Globally unique identity (the 128 bits of a UUID).
    pub id: u128,
    pub repository_id: i64,
    pub pr_number: i32,
    pub branch_name: String,
    pub status: JobStatus,
    /// Milliseconds since the Unix epoch.
    pub created_at: i64,
    /// Milliseconds since the Unix epoch.
    pub updated_at: i64,
    pub error_message: Option<String>,
}

impl TryMergeJob {
    /// An error message is present, and non-empty, exactly when the job failed.
    pub open spec fn wf(&self) -> bool {
        (self.status == JobStatus::Failed) <==> (self.error_message matches Some(m) && m@.len() > 0)
    }
}

/// Settings that the service starts with.
#[derive(Debug, Clone)]
pub struct Config {
    pub github_token: String,
    pub webhook_secret: String,
    pub database_url: String,
    pub bind_address: String,
    pub bot_name: String,
}

} // verus!
