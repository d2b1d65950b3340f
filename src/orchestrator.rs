//! The try-merge orchestration as a state machine. Each call of `advance`
//! takes the outcome of the previous action and names the next one; the
//! caller performs the platform and store calls that an action asks for.

use vstd::prelude::*;
use crate::commands::{branch_name, branch_name_spec, command_prefix, prefix_of};
use crate::model::{JobStatus, Repository, TryMergeJob};
use crate::registry::{job_key, job_key_spec, lemma_job_key_injective, JobRegistry};

verus! {

/// Seconds to wait after the merge before the combined status is read.
pub const STATUS_DELAY_SECS: u64 = 5;

/// Where a run stands: the outcome it waits for next.
#[derive(Debug, Clone, Copy, PartialEq, Eq, Structural)]
pub enum Phase {
    /// The new job is being written to the store.
    Recording,
    FetchingPullRequest,
    FetchingBaseSha,
    FetchingHeadSha,
    /// Best-effort removal of an earlier try-branch of the same name.
    DeletingStale,
    CreatingBranch,
    Merging,
    Waiting,
    Polling,
    /// The terminal job state is being written to the store.
    Finishing,
    Done,
}

/// What the caller performs next, and reports on with an outcome.
#[derive(Debug, Clone)]
pub enum Action {
    /// Insert the run's job into the store.
    CreateRecord,
    /// Read the pull request; report its head branch name.
    FetchPullRequest { repo: String, number: i32 },
    /// Read a branch; report its head commit id.
    FetchBranchSha { repo: String, branch: String },
    /// Delete a branch; the outcome is not looked at.
    DeleteBranch { repo: String, branch: String },
    /// Create `branch` pointing at commit `sha`.
    CreateBranch { repo: String, branch: String, sha: String },
    /// Merge commit `head` into branch `base`.
    MergeBranch { repo: String, base: String, head: String, message: String },
    /// Sleep; the outcome is not looked at.
    Wait { seconds: u64 },
    /// Read the combined status of the branch's head; report its state.
    PollStatus { repo: String, branch: String },
    /// Write the run's job, now in a terminal state, to the store.
    UpdateRecord,
    /// Free the registry slot `key`; `error` is a store failure to surface.
    Release { key: String, error: Option<String> },
}

/// One try-merge attempt in progress.
#[derive(Debug)]
pub struct TryMergeRun {
    pub job: TryMergeJob,
    pub key: String,
    pub repo_full_name: String,
    pub default_branch: String,
    pub phase: Phase,
    pub head_branch: String,
    pub base_sha: String,
    pub head_sha: String,
}

impl TryMergeRun {
    pub open spec fn wf(&self) -> bool {
        &&& self.job.wf()
        &&& self.key@ == job_key_spec(self.repo_full_name@, self.job.pr_number as int)
        &&& (self.phase != Phase::Finishing && self.phase != Phase::Done) ==> self.job.status
            == JobStatus::Running
    }

    /// Whether the run has nothing left to do.
    pub fn is_done(&self) -> (r: bool)
        ensures
            r == (self.phase == Phase::Done),
    {
        self.phase == Phase::Done
    }
}

/// Commit message of the merge into a try-branch.
pub open spec fn merge_message_spec(target: Seq<char>) -> Seq<char> {
    "Try merge into "@ + target
}

/// Builds the commit message of the merge into `target`.
pub fn merge_message(target: &str) -> (r: String)
    ensures
        r@ == merge_message_spec(target@),
{
    String::from_str("Try merge into ").concat(target)
}

/// The error recorded for a failed step; an empty cause is named.
pub open spec fn failure_text(cause: Seq<char>) -> Seq<char> {
    if cause.len() == 0 {
        "unknown failure"@
    } else {
        cause
    }
}

/// The error recorded when the combined status is not a success.
pub open spec fn status_failure_text(state: Seq<char>) -> Seq<char> {
    "Try merge failed with status: "@ + state
}

fn failure_message(cause: String) -> (r: String)
    ensures
        r@ == failure_text(cause@),
        r@.len() > 0,
{
    if cause.unicode_len() == 0 {
        proof { reveal_strlit("unknown failure"); }
        String::from_str("unknown failure")
    } else {
        cause
    }
}

/// The fields that no step changes.
pub open spec fn keeps_identity(pre: TryMergeRun, post: TryMergeRun) -> bool {
    &&& post.key == pre.key
    &&& post.repo_full_name == pre.repo_full_name
    &&& post.default_branch == pre.default_branch
    &&& post.job.id == pre.job.id
    &&& post.job.repository_id == pre.job.repository_id
    &&& post.job.pr_number == pre.job.pr_number
    &&& post.job.branch_name == pre.job.branch_name
    &&& post.job.created_at == pre.job.created_at
}

/// The run moves on to `phase` with its job untouched.
pub open spec fn proceeds(pre: TryMergeRun, post: TryMergeRun, phase: Phase) -> bool {
    post.phase == phase && post.job == pre.job
}

/// The job fails with `message` at time `now`, and is to be written.
pub open spec fn fails(pre: TryMergeRun, post: TryMergeRun, message: Seq<char>, now: i64, a: Action) -> bool {
    &&& post.phase == Phase::Finishing
    &&& post.job.status == JobStatus::Failed
    &&& (post.job.error_message matches Some(m) && m@ == message)
    &&& post.job.updated_at == now
    &&& a is UpdateRecord
}

/// The job completes at time `now`, and is to be written.
pub open spec fn completes(pre: TryMergeRun, post: TryMergeRun, now: i64, a: Action) -> bool {
    &&& post.phase == Phase::Finishing
    &&& post.job.status == JobStatus::Completed
    &&& post.job.error_message is None
    &&& post.job.updated_at == now
    &&& a is UpdateRecord
}

/// One step of the protocol: from `pre`, on `outcome` at time `now`, the run
/// becomes `post` and asks for `a`.
pub open spec fn step(pre: TryMergeRun, post: TryMergeRun, outcome: Result<String, String>, now: i64, a: Action) -> bool {
    &&& keeps_identity(pre, post)
    &&& match pre.phase {
        Phase::Recording => match outcome {
            Ok(_) => proceeds(pre, post, Phase::FetchingPullRequest) && (a matches Action::FetchPullRequest { repo, number }
                && repo@ == pre.repo_full_name@ && number == pre.job.pr_number),
            Err(e) => post.phase == Phase::Done && post.job == pre.job && (a matches Action::Release { key, error }
                && key@ == pre.key@ && (error matches Some(m) && m@ == e@)),
        },
        Phase::FetchingPullRequest => match outcome {
            Ok(head) => proceeds(pre, post, Phase::FetchingBaseSha) && post.head_branch@ == head@
                && (a matches Action::FetchBranchSha { repo, branch } && repo@ == pre.repo_full_name@
                && branch@ == pre.default_branch@),
            Err(e) => fails(pre, post, failure_text(e@), now, a),
        },
        Phase::FetchingBaseSha => match outcome {
            Ok(sha) => proceeds(pre, post, Phase::FetchingHeadSha) && post.head_branch == pre.head_branch
                && post.base_sha@ == sha@ && (a matches Action::FetchBranchSha { repo, branch }
                && repo@ == pre.repo_full_name@ && branch@ == pre.head_branch@),
            Err(e) => fails(pre, post, failure_text(e@), now, a),
        },
        Phase::FetchingHeadSha => match outcome {
            Ok(sha) => proceeds(pre, post, Phase::DeletingStale) && post.base_sha == pre.base_sha
                && post.head_sha@ == sha@ && (a matches Action::DeleteBranch { repo, branch }
                && repo@ == pre.repo_full_name@ && branch@ == pre.job.branch_name@),
            Err(e) => fails(pre, post, failure_text(e@), now, a),
        },
        Phase::DeletingStale => proceeds(pre, post, Phase::CreatingBranch) && post.head_sha == pre.head_sha
            && (a matches Action::CreateBranch { repo, branch, sha } && repo@ == pre.repo_full_name@
            && branch@ == pre.job.branch_name@ && sha@ == pre.base_sha@),
        Phase::CreatingBranch => match outcome {
            Ok(_) => proceeds(pre, post, Phase::Merging) && (a matches Action::MergeBranch { repo, base, head, message }
                && repo@ == pre.repo_full_name@ && base@ == pre.job.branch_name@ && head@ == pre.head_sha@
                && message@ == merge_message_spec(pre.job.branch_name@)),
            Err(e) => fails(pre, post, failure_text(e@), now, a),
        },
        Phase::Merging => match outcome {
            Ok(_) => proceeds(pre, post, Phase::Waiting) && (a matches Action::Wait { seconds }
                && seconds == STATUS_DELAY_SECS),
            Err(e) => fails(pre, post, failure_text(e@), now, a),
        },
        Phase::Waiting => proceeds(pre, post, Phase::Polling) && (a matches Action::PollStatus { repo, branch }
            && repo@ == pre.repo_full_name@ && branch@ == pre.job.branch_name@),
        Phase::Polling => match outcome {
            Ok(state) => if state@ == "success"@ {
                completes(pre, post, now, a)
            } else {
                fails(pre, post, status_failure_text(state@), now, a)
            },
            Err(e) => fails(pre, post, failure_text(e@), now, a),
        },
        Phase::Finishing => post.phase == Phase::Done && post.job == pre.job && (a matches Action::Release { key, error }
            && key@ == pre.key@ && match outcome {
                Ok(_) => error is None,
                Err(e) => (error matches Some(m) && m@ == e@),
            }),
        Phase::Done => false,
    }
}

impl TryMergeRun {
    fn fail(&mut self, message: String, now: i64) -> (a: Action)
        requires
            message@.len() > 0,
        ensures
            fails(*old(self), *final(self), message@, now, a),
            keeps_identity(*old(self), *final(self)),
            final(self).job.wf(),
    {
        self.job.status = JobStatus::Failed;
        self.job.error_message = Some(message);
        self.job.updated_at = now;
        self.phase = Phase::Finishing;
        Action::UpdateRecord
    }

    /// Takes the outcome of the last action, reported at time `now`, and
    /// returns the next action. Every failure of a step but the deletion and
    /// the wait ends the attempt: the job fails with the cause as its error.
    pub fn advance(&mut self, outcome: Result<String, String>, now: i64) -> (a: Action)
        requires
            old(self).wf(),
            old(self).phase != Phase::Done,
        ensures
            final(self).wf(),
            step(*old(self), *final(self), outcome, now, a),
    {
        let repo = self.repo_full_name.clone();
        match self.phase {
            Phase::Recording => match outcome {
                Ok(_) => {
                    self.phase = Phase::FetchingPullRequest;
                    Action::FetchPullRequest { repo, number: self.job.pr_number }
                },
                Err(e) => {
                    self.phase = Phase::Done;
                    Action::Release { key: self.key.clone(), error: Some(e) }
                },
            },
            Phase::FetchingPullRequest => match outcome {
                Ok(head) => {
                    self.head_branch = head;
                    self.phase = Phase::FetchingBaseSha;
                    Action::FetchBranchSha { repo, branch: self.default_branch.clone() }
                },
                Err(e) => self.fail(failure_message(e), now),
            },
            Phase::FetchingBaseSha => match outcome {
                Ok(sha) => {
                    self.base_sha = sha;
                    self.phase = Phase::FetchingHeadSha;
                    Action::FetchBranchSha { repo, branch: self.head_branch.clone() }
                },
                Err(e) => self.fail(failure_message(e), now),
            },
            Phase::FetchingHeadSha => match outcome {
                Ok(sha) => {
                    self.head_sha = sha;
                    self.phase = Phase::DeletingStale;
                    Action::DeleteBranch { repo, branch: self.job.branch_name.clone() }
                },
                Err(e) => self.fail(failure_message(e), now),
            },
            Phase::DeletingStale => {
                self.phase = Phase::CreatingBranch;
                Action::CreateBranch {
                    repo,
                    branch: self.job.branch_name.clone(),
                    sha: self.base_sha.clone(),
                }
            },
            Phase::CreatingBranch => match outcome {
                Ok(_) => {
                    self.phase = Phase::Merging;
                    Action::MergeBranch {
                        repo,
                        base: self.job.branch_name.clone(),
                        head: self.head_sha.clone(),
                        message: merge_message(self.job.branch_name.as_str()),
                    }
                },
                Err(e) => self.fail(failure_message(e), now),
            },
            Phase::Merging => match outcome {
                Ok(_) => {
                    self.phase = Phase::Waiting;
                    Action::Wait { seconds: STATUS_DELAY_SECS }
                },
                Err(e) => self.fail(failure_message(e), now),
            },
            Phase::Waiting => {
                self.phase = Phase::Polling;
                Action::PollStatus { repo, branch: self.job.branch_name.clone() }
            },
            Phase::Polling => match outcome {
                Ok(state) => {
                    if state == String::from_str("success") {
                        self.job.status = JobStatus::Completed;
                        self.job.error_message = None;
                        self.job.updated_at = now;
                        self.phase = Phase::Finishing;
                        Action::UpdateRecord
                    } else {
                        proof { reveal_strlit("Try merge failed with status: "); }
                        let message = String::from_str("Try merge failed with status: ").concat(
                            state.as_str(),
                        );
                        self.fail(message, now)
                    }
                },
                Err(e) => self.fail(failure_message(e), now),
            },
            Phase::Finishing => {
                self.phase = Phase::Done;
                match outcome {
                    Ok(_) => Action::Release { key: self.key.clone(), error: None },
                    Err(e) => Action::Release { key: self.key.clone(), error: Some(e) },
                }
            },
            Phase::Done => Action::Release { key: self.key.clone(), error: None },
        }
    }
}

/// Relies on uuid::Uuid::new_v4 and Uuid::as_u128: a random identity.
#[verifier::external_body]
fn new_job_id() -> (r: u128) {
    uuid::Uuid::new_v4().as_u128()
}

/// Relies on chrono::Utc::now and DateTime::timestamp_millis: the time now,
/// in milliseconds since the Unix epoch.
#[verifier::external_body]
fn now_millis() -> (r: i64) {
    chrono::Utc::now().timestamp_millis()
}

/// What a dispatch of `command` for pull request `pr_number` of `repo` does,
/// with the registry holding `held` before and `held_after` after it.
/// An unknown command does nothing. A known one takes the pull request's
/// slot; if the slot was free, a run starts whose job is `running` and is
/// first to be recorded, and otherwise nothing else happens.
pub open spec fn dispatched(
    held: Set<Seq<char>>,
    held_after: Set<Seq<char>>,
    repo: Repository,
    pr_number: i32,
    command: Seq<char>,
    r: Option<(TryMergeRun, Action)>,
) -> bool {
    match prefix_of(command) {
        None => r is None && held_after == held,
        Some(prefix) => {
            let key = job_key_spec(repo.full_name@, pr_number as int);
            &&& held_after == held.insert(key)
            &&& (r is Some <==> !held.contains(key))
            &&& (r matches Some((run, a)) ==> {
                &&& run.wf()
                &&& run.phase == Phase::Recording
                &&& a is CreateRecord
                &&& run.key@ == key
                &&& run.repo_full_name@ == repo.full_name@
                &&& run.default_branch@ == repo.default_branch@
                &&& run.job.repository_id == repo.id
                &&& run.job.pr_number == pr_number
                &&& run.job.branch_name@ == branch_name_spec(prefix, pr_number as int)
                &&& run.job.status == JobStatus::Running
                &&& run.job.error_message is None
                &&& run.job.created_at == run.job.updated_at
            })
        },
    }
}

/// Dispatches `command` for pull request `pr_number` of `repo`; a started
/// job gets identity `id` and time `now`.
pub fn begin_with(
    registry: &mut JobRegistry,
    repo: &Repository,
    pr_number: i32,
    command: &str,
    id: u128,
    now: i64,
) -> (r: Option<(TryMergeRun, Action)>)
    requires
        old(registry).wf(),
    ensures
        final(registry).wf(),
        dispatched(old(registry)@, final(registry)@, *repo, pr_number, command@, r),
        r matches Some((run, a)) ==> run.job.id == id && run.job.created_at == now,
{
    let prefix = match command_prefix(command) {
        Some(p) => p,
        None => return None,
    };
    let key = job_key(repo.full_name.as_str(), pr_number);
    if !registry.try_acquire(key.as_str()) {
        return None;
    }
    let job = TryMergeJob {
        id,
        repository_id: repo.id,
        pr_number,
        branch_name: branch_name(prefix, pr_number),
        status: JobStatus::Running,
        created_at: now,
        updated_at: now,
        error_message: None,
    };
    let run = TryMergeRun {
        job,
        key,
        repo_full_name: repo.full_name.clone(),
        default_branch: repo.default_branch.clone(),
        phase: Phase::Recording,
        head_branch: String::new(),
        base_sha: String::new(),
        head_sha: String::new(),
    };
    Some((run, Action::CreateRecord))
}

/// Dispatches `command` for pull request `pr_number` of `repo`, with a
/// fresh random identity and the current time for a started job.
pub fn begin(registry: &mut JobRegistry, repo: &Repository, pr_number: i32, command: &str) -> (r: Option<
    (TryMergeRun, Action),
>)
    requires
        old(registry).wf(),
    ensures
        final(registry).wf(),
        dispatched(old(registry)@, final(registry)@, *repo, pr_number, command@, r),
{
    let id = new_job_id();
    let now = now_millis();
    begin_with(registry, repo, pr_number, command, id, now)
}

impl TryMergeRun {
    /// `advance` at the current time.
    pub fn advance_now(&mut self, outcome: Result<String, String>) -> (a: Action)
        requires
            old(self).wf(),
            old(self).phase != Phase::Done,
        ensures
            final(self).wf(),
            exists|now: i64| step(*old(self), *final(self), outcome, now, a),
    {
        let now = now_millis();
        self.advance(outcome, now)
    }
}

/// Dispatches `commands[i]`, one after another, for pull request
/// `pr_number` of `repo`: the registry holds `held[i]` before dispatch `i`
/// and `held[i + 1]` after it, which returned `results[i]`.
pub open spec fn dispatch_chain(
    held: Seq<Set<Seq<char>>>,
    repo: Repository,
    pr_number: i32,
    commands: Seq<Seq<char>>,
    results: Seq<Option<(TryMergeRun, Action)>>,
) -> bool {
    &&& held.len() == commands.len() + 1
    &&& results.len() == commands.len()
    &&& forall|i: int|
        0 <= i < commands.len() ==> #[trigger] dispatched(
            held[i],
            held[i + 1],
            repo,
            pr_number,
            commands[i],
            results[i],
        )
}

proof fn lemma_chain_keeps_slot(
    held: Seq<Set<Seq<char>>>,
    repo: Repository,
    pr_number: i32,
    commands: Seq<Seq<char>>,
    results: Seq<Option<(TryMergeRun, Action)>>,
    i: int,
    j: int,
)
    requires
        dispatch_chain(held, repo, pr_number, commands, results),
        0 <= i <= j < held.len(),
        held[i].contains(job_key_spec(repo.full_name@, pr_number as int)),
    ensures
        held[j].contains(job_key_spec(repo.full_name@, pr_number as int)),
    decreases j - i,
{
    if i < j {
        lemma_chain_keeps_slot(held, repo, pr_number, commands, results, i, j - 1);
        let k = j - 1;
        assert(dispatched(held[k], held[k + 1], repo, pr_number, commands[k], results[k]));
    }
}

/// Of any number of dispatches for one pull request, made while no run for
/// it finishes, at most one starts a run; if its slot was free, the first
/// dispatch of a known command is the one.
pub proof fn lemma_one_run_per_pull_request(
    held: Seq<Set<Seq<char>>>,
    repo: Repository,
    pr_number: i32,
    commands: Seq<Seq<char>>,
    results: Seq<Option<(TryMergeRun, Action)>>,
)
    requires
        dispatch_chain(held, repo, pr_number, commands, results),
    ensures
        forall|i: int, j: int|
            0 <= i < j < results.len() && #[trigger] results[i] is Some ==> #[trigger] results[j] is None,
        forall|i: int|
            0 <= i < results.len() && !held[0].contains(job_key_spec(repo.full_name@, pr_number as int))
                && prefix_of(commands[i]) is Some && (forall|k: int| 0 <= k < i ==> prefix_of(
                #[trigger] commands[k],
            ) is None) ==> #[trigger] results[i] is Some,
{
    let key = job_key_spec(repo.full_name@, pr_number as int);
    assert forall|i: int, j: int|
        0 <= i < j < results.len() && #[trigger] results[i] is Some implies #[trigger] results[j] is None by {
        assert(dispatched(held[i], held[i + 1], repo, pr_number, commands[i], results[i]));
        assert(held[i + 1].contains(key));
        lemma_chain_keeps_slot(held, repo, pr_number, commands, results, i + 1, j);
        assert(dispatched(held[j], held[j + 1], repo, pr_number, commands[j], results[j]));
    }
    assert forall|i: int|
        0 <= i < results.len() && !held[0].contains(key) && prefix_of(commands[i]) is Some && (
        forall|k: int| 0 <= k < i ==> prefix_of(#[trigger] commands[k]) is None) implies #[trigger] results[i] is Some by {
        lemma_chain_unchanged(held, repo, pr_number, commands, results, i);
        assert(dispatched(held[i], held[i + 1], repo, pr_number, commands[i], results[i]));
    }
}

proof fn lemma_chain_unchanged(
    held: Seq<Set<Seq<char>>>,
    repo: Repository,
    pr_number: i32,
    commands: Seq<Seq<char>>,
    results: Seq<Option<(TryMergeRun, Action)>>,
    i: int,
)
    requires
        dispatch_chain(held, repo, pr_number, commands, results),
        0 <= i < held.len(),
        forall|k: int| 0 <= k < i ==> prefix_of(#[trigger] commands[k]) is None,
    ensures
        held[i] == held[0],
    decreases i,
{
    if i > 0 {
        lemma_chain_unchanged(held, repo, pr_number, commands, results, i - 1);
        assert(prefix_of(commands[i - 1]) is None);
        let k = i - 1;
        assert(dispatched(held[k], held[k + 1], repo, pr_number, commands[k], results[k]));
    }
}

/// A dispatch for a pull request whose run is in flight, by an earlier
/// dispatch of any command, is a no-op: nothing starts, the registry stays.
pub proof fn lemma_second_dispatch_is_noop(
    held: Set<Seq<char>>,
    held1: Set<Seq<char>>,
    held2: Set<Seq<char>>,
    repo: Repository,
    pr_number: i32,
    first: Seq<char>,
    second: Seq<char>,
    r1: Option<(TryMergeRun, Action)>,
    r2: Option<(TryMergeRun, Action)>,
)
    requires
        dispatched(held, held1, repo, pr_number, first, r1),
        r1 is Some,
        dispatched(held1, held2, repo, pr_number, second, r2),
    ensures
        r2 is None,
        held2 == held1,
{
    let key = job_key_spec(repo.full_name@, pr_number as int);
    assert(held1.contains(key));
    if prefix_of(second) is Some {
        assert(held1.insert(key) =~= held1);
    }
}

/// Dispatches for distinct pull requests are independent: a dispatch for
/// one pull request leaves the slot of every other one as it was.
pub proof fn lemma_distinct_pull_requests_independent(
    held: Set<Seq<char>>,
    held_after: Set<Seq<char>>,
    repo: Repository,
    pr_number: i32,
    command: Seq<char>,
    r: Option<(TryMergeRun, Action)>,
    other_full_name: Seq<char>,
    other_pr_number: i32,
)
    requires
        dispatched(held, held_after, repo, pr_number, command, r),
        other_full_name != repo.full_name@ || other_pr_number != pr_number,
    ensures
        held_after.contains(job_key_spec(other_full_name, other_pr_number as int)) == held.contains(
            job_key_spec(other_full_name, other_pr_number as int),
        ),
{
    let mine = job_key_spec(repo.full_name@, pr_number as int);
    let other = job_key_spec(other_full_name, other_pr_number as int);
    if mine == other {
        lemma_job_key_injective(repo.full_name@, pr_number as int, other_full_name, other_pr_number as int);
    }
}

/// Two runs for the same pull request number and command work on the same
/// try-branch.
pub proof fn lemma_branch_name_determined(
    held_a: Set<Seq<char>>,
    after_a: Set<Seq<char>>,
    held_b: Set<Seq<char>>,
    after_b: Set<Seq<char>>,
    repo_a: Repository,
    repo_b: Repository,
    pr_number: i32,
    command: Seq<char>,
    ra: Option<(TryMergeRun, Action)>,
    rb: Option<(TryMergeRun, Action)>,
)
    requires
        dispatched(held_a, after_a, repo_a, pr_number, command, ra),
        dispatched(held_b, after_b, repo_b, pr_number, command, rb),
        ra is Some,
        rb is Some,
    ensures
        (ra->0).0.job.branch_name@ == (rb->0).0.job.branch_name@,
{
}

/// A failed branch creation ends the attempt: no merge is asked for, the
/// job fails, and the only step left releases the slot.
pub proof fn lemma_failed_creation_skips_merge(
    pre: TryMergeRun,
    post: TryMergeRun,
    cause: String,
    now: i64,
    a: Action,
)
    requires
        pre.phase == Phase::CreatingBranch,
        step(pre, post, Err(cause), now, a),
    ensures
        !(a is MergeBranch),
        post.job.status == JobStatus::Failed,
        forall|next: TryMergeRun, o: Result<String, String>, t: i64, b: Action|
            #[trigger] step(post, next, o, t, b) ==> b is Release,
{
}

/// The polled state decides the job: exactly `success` completes it; any
/// other state fails it, with that state at the end of the error message.
pub proof fn lemma_status_decides_job(
    pre: TryMergeRun,
    post: TryMergeRun,
    state: String,
    now: i64,
    a: Action,
)
    requires
        pre.phase == Phase::Polling,
        step(pre, post, Ok(state), now, a),
    ensures
        (post.job.status == JobStatus::Completed) <==> state@ == "success"@,
        state@ != "success"@ ==> {
            &&& post.job.status == JobStatus::Failed
            &&& post.job.error_message matches Some(m)
            &&& m@.len() >= state@.len()
            &&& m@.subrange(m@.len() - state@.len(), m@.len() as int) == state@
        },
{
    if state@ != "success"@ {
        let m = post.job.error_message->0;
        assert(m@ == status_failure_text(state@));
        assert(m@.subrange(m@.len() - state@.len(), m@.len() as int) =~= state@);
    }
}

/// When a run finishes, success or failure, it releases its pull request's
/// slot; a dispatch of a known command for the same pull request after that
/// release starts a new run.
pub proof fn lemma_finished_run_frees_slot(
    pre: TryMergeRun,
    post: TryMergeRun,
    outcome: Result<String, String>,
    now: i64,
    a: Action,
    held: Set<Seq<char>>,
    held_after: Set<Seq<char>>,
    repo: Repository,
    command: Seq<char>,
    r: Option<(TryMergeRun, Action)>,
)
    requires
        pre.wf(),
        pre.phase == Phase::Finishing,
        step(pre, post, outcome, now, a),
        repo.full_name@ == pre.repo_full_name@,
        prefix_of(command) is Some,
        dispatched(held.remove(pre.key@), held_after, repo, pre.job.pr_number, command, r),
    ensures
        post.phase == Phase::Done,
        a matches Action::Release { key, error } && key@ == job_key_spec(
            pre.repo_full_name@,
            pre.job.pr_number as int,
        ),
        r is Some,
{
}

} // verus!
