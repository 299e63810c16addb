//! What the cluster's answers mean to the gatekeeper: which failures pass,
//! which are conflicts, and when a job has given up.

use vstd::prelude::*;
use crate::orchestrator::{ClusterReply, JobStatus};
use crate::reconciler::PatchReply;
use crate::text::same_text;

verus! {

/// The status code of a version conflict and of a name that is taken.
pub const CODE_CONFLICT: u16 = 409;

/// The status code of an object that does not exist.
pub const CODE_NOT_FOUND: u16 = 404;

/// A request that the cluster did not carry out. A request that never
/// reached the cluster has the code 0.
#[derive(Clone, Debug, PartialEq, Eq)]
pub struct ApiFailure {
    pub code: u16,
    pub reason: String,
}

/// One condition in a job's status.
#[derive(Clone, Debug, PartialEq, Eq)]
pub struct JobCondition {
    /// The type of the condition, such as `Failed` or `Complete`.
    pub kind: String,
    /// `True`, `False` or `Unknown`.
    pub status: String,
    pub reason: String,
}

/// Whether a condition says that the job gave up: it is of type `Failed`, it
/// holds, and its reason is that the backoff limit was exceeded.
pub open spec fn gave_up(kind: Seq<char>, status: Seq<char>, reason: Seq<char>) -> bool {
    kind == "Failed"@ && status == "True"@ && reason == "BackoffLimitExceeded"@
}

/// Whether any of the conditions says that the job gave up.
pub open spec fn any_gave_up(conditions: Seq<JobCondition>) -> bool {
    exists|i: int|
        0 <= i < conditions.len() && gave_up(
            (#[trigger] conditions[i]).kind@,
            conditions[i].status@,
            conditions[i].reason@,
        )
}

/// A count as the cluster reports it: absent and negative counts are zero.
pub open spec fn count_of(n: Option<i32>) -> u32 {
    match n {
        Some(n) => if n > 0 {
            n as u32
        } else {
            0
        },
        None => 0,
    }
}

/// What the answer to the patch of a workload means: applied if the cluster
/// carried it out, a conflict on status 409, and a passing failure otherwise.
pub fn patch_reply(failure: Option<&ApiFailure>) -> (reply: PatchReply)
    ensures
        reply == (match failure {
            None => PatchReply::Applied,
            Some(f) => if f.code == 409 {
                PatchReply::Conflict
            } else {
                PatchReply::Unavailable
            },
        }),
{
    match failure {
        None => PatchReply::Applied,
        Some(f) => if f.code == CODE_CONFLICT {
            PatchReply::Conflict
        } else {
            PatchReply::Unavailable
        },
    }
}

/// What the answer to the creation of a job means: created if the cluster
/// carried it out, already there on status 409, and a passing failure
/// otherwise.
pub fn create_reply(failure: Option<&ApiFailure>) -> (reply: ClusterReply)
    ensures
        reply == (match failure {
            None => ClusterReply::Created,
            Some(f) => if f.code == 409 {
                ClusterReply::AlreadyExists
            } else {
                ClusterReply::Unavailable
            },
        }),
{
    match failure {
        None => ClusterReply::Created,
        Some(f) => if f.code == CODE_CONFLICT {
            ClusterReply::AlreadyExists
        } else {
            ClusterReply::Unavailable
        },
    }
}

/// What the answer to the look-up of a job means. `job` is the status of the
/// job that came back, if one did. Status 404 and an answer without a job
/// both mean that the job does not exist; any other failure passes.
pub fn get_reply(job: Option<JobStatus>, failure: Option<&ApiFailure>) -> (reply: ClusterReply)
    ensures
        reply == (match failure {
            Some(f) => if f.code == 404 {
                ClusterReply::NotFound
            } else {
                ClusterReply::Unavailable
            },
            None => match job {
                Some(status) => ClusterReply::Found(status),
                None => ClusterReply::NotFound,
            },
        }),
{
    match failure {
        Some(f) => if f.code == CODE_NOT_FOUND {
            ClusterReply::NotFound
        } else {
            ClusterReply::Unavailable
        },
        None => match job {
            Some(status) => ClusterReply::Found(status),
            None => ClusterReply::NotFound,
        },
    }
}

fn count(n: Option<i32>) -> (c: u32)
    ensures
        c == count_of(n),
{
    match n {
        Some(n) => if n > 0 {
            n as u32
        } else {
            0
        },
        None => 0,
    }
}

/// Reads a job's status: how many pods succeeded and failed, and whether one
/// of its conditions says that the job gave up.
pub fn job_status(succeeded: Option<i32>, failed: Option<i32>, conditions: &Vec<JobCondition>) -> (status:
    JobStatus)
    ensures
        status == (JobStatus {
            succeeded: count_of(succeeded),
            failed: count_of(failed),
            backoff_limit_exceeded: any_gave_up(conditions@),
        }),
{
    let mut gave_up_seen = false;
    let mut i: usize = 0;
    while i < conditions.len()
        invariant
            i <= conditions.len(),
            gave_up_seen == any_gave_up(conditions@.take(i as int)),
        decreases conditions.len() - i,
    {
        let c = &conditions[i];
        let here = same_text(c.kind.as_str(), "Failed") && same_text(c.status.as_str(), "True")
            && same_text(c.reason.as_str(), "BackoffLimitExceeded");
        proof {
            let before = conditions@.take(i as int);
            let after = conditions@.take(i + 1);
            assert(after.drop_last() =~= before);
            if here {
                assert(gave_up(after[i as int].kind@, after[i as int].status@, after[i as int].reason@));
            }
            if any_gave_up(before) {
                let j = choose|j: int|
                    0 <= j < before.len() && gave_up(
                        (#[trigger] before[j]).kind@,
                        before[j].status@,
                        before[j].reason@,
                    );
                assert(gave_up(after[j].kind@, after[j].status@, after[j].reason@));
            }
            if any_gave_up(after) && !here {
                let j = choose|j: int|
                    0 <= j < after.len() && gave_up(
                        (#[trigger] after[j]).kind@,
                        after[j].status@,
                        after[j].reason@,
                    );
                assert(j < i);
                assert(gave_up(before[j].kind@, before[j].status@, before[j].reason@));
            }
        }
        gave_up_seen = gave_up_seen || here;
        i += 1;
    }
    proof {
        assert(conditions@.take(i as int) =~= conditions@);
    }
    JobStatus { succeeded: count(succeeded), failed: count(failed), backoff_limit_exceeded: gave_up_seen }
}

} // verus!
