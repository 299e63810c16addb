//! The fetch job: the cluster object that brings one dataset to one node.
//!
//! A typed description of the job, built from the workload that triggered it.
//! Whoever talks to the cluster turns it into the cluster's own schema.

use vstd::prelude::*;
use crate::config::{Config, ConfigView};
use crate::text::clone_texts;
use crate::workload::{Request, RequestView, Workload, WorkloadView};

verus! {

/// Seconds a finished job is kept before the cluster removes it.
pub const JOB_TTL_SECONDS: u32 = 30;

/// What the cluster does with a container that exits.
#[derive(Clone, Copy, Debug, PartialEq, Eq, Structural)]
pub enum RestartPolicy {
    Never,
    OnFailure,
}

impl RestartPolicy {
    /// The policy as the cluster spells it.
    pub fn name(&self) -> (s: &'static str)
        ensures
            s@ == (match self {
                RestartPolicy::Never => "Never"@,
                RestartPolicy::OnFailure => "OnFailure"@,
            }),
    {
        match self {
            RestartPolicy::Never => "Never",
            RestartPolicy::OnFailure => "OnFailure",
        }
    }
}

/// A back-reference from a job to the workload it serves: when the workload
/// is deleted, the cluster's garbage collector deletes the job.
#[derive(Clone, Debug, PartialEq, Eq)]
pub struct OwnerReference {
    pub api_version: String,
    pub kind: String,
    pub name: String,
    pub uid: String,
    pub controller: bool,
    pub block_owner_deletion: bool,
}

/// An owner reference as a mathematical value.
pub struct OwnerReferenceView {
    pub api_version: Seq<char>,
    pub kind: Seq<char>,
    pub name: Seq<char>,
    pub uid: Seq<char>,
    pub controller: bool,
    pub block_owner_deletion: bool,
}

impl View for OwnerReference {
    type V = OwnerReferenceView;

    open spec fn view(&self) -> OwnerReferenceView {
        OwnerReferenceView {
            api_version: self.api_version@,
            kind: self.kind@,
            name: self.name@,
            uid: self.uid@,
            controller: self.controller,
            block_owner_deletion: self.block_owner_deletion,
        }
    }
}

/// The downloader that a fetch job runs: the core prescribes neither.
#[derive(Clone, Debug, PartialEq, Eq)]
pub struct Fetcher {
    pub image: String,
    pub command: Vec<String>,
}

/// A downloader as a mathematical value.
pub struct FetcherView {
    pub image: Seq<char>,
    pub command: Seq<Seq<char>>,
}

impl View for Fetcher {
    type V = FetcherView;

    open spec fn view(&self) -> FetcherView {
        FetcherView { image: self.image@, command: self.command.deep_view() }
    }
}

/// The description of one fetch job.
#[derive(Clone, Debug, PartialEq, Eq)]
pub struct FetchJob {
    pub name: String,
    pub namespace: String,
    pub owner: OwnerReference,
    pub ttl_seconds_after_finished: u32,
    /// The node the job's pod is bound to.
    pub node_name: String,
    pub restart_policy: RestartPolicy,
    pub image: String,
    pub command: Vec<String>,
    /// The dataset identifier and the path to write it to, in this order.
    pub args: Vec<String>,
    /// The object-store endpoint for the downloader, if one is configured.
    pub s3_endpoint: Option<String>,
    /// The node's cache root, which the container sees under the same path.
    pub cache_root: String,
}

/// A fetch job as a mathematical value.
pub struct FetchJobView {
    pub name: Seq<char>,
    pub namespace: Seq<char>,
    pub owner: OwnerReferenceView,
    pub ttl_seconds_after_finished: u32,
    pub node_name: Seq<char>,
    pub restart_policy: RestartPolicy,
    pub image: Seq<char>,
    pub command: Seq<Seq<char>>,
    pub args: Seq<Seq<char>>,
    pub s3_endpoint: Option<Seq<char>>,
    pub cache_root: Seq<char>,
}

impl View for FetchJob {
    type V = FetchJobView;

    open spec fn view(&self) -> FetchJobView {
        FetchJobView {
            name: self.name@,
            namespace: self.namespace@,
            owner: self.owner@,
            ttl_seconds_after_finished: self.ttl_seconds_after_finished,
            node_name: self.node_name@,
            restart_policy: self.restart_policy,
            image: self.image@,
            command: self.command.deep_view(),
            args: self.args.deep_view(),
            s3_endpoint: match self.s3_endpoint {
                Some(e) => Some(e@),
                None => None,
            },
            cache_root: self.cache_root@,
        }
    }
}

/// The owner reference that points at a workload: it names the workload's
/// kind, name and identity, marks it as the controller and blocks its
/// deletion until the job is gone.
pub open spec fn owner_of(w: WorkloadView) -> OwnerReferenceView {
    OwnerReferenceView {
        api_version: "v1"@,
        kind: "Pod"@,
        name: w.name,
        uid: w.uid,
        controller: true,
        block_owner_deletion: true,
    }
}

/// The fetch job that serves `request` on behalf of the workload `w`.
pub open spec fn fetch_job_of(
    w: WorkloadView,
    request: RequestView,
    cfg: ConfigView,
    fetcher: FetcherView,
) -> FetchJobView {
    FetchJobView {
        name: request.job_name,
        namespace: w.namespace,
        owner: owner_of(w),
        ttl_seconds_after_finished: 30,
        node_name: request.node,
        restart_policy: RestartPolicy::Never,
        image: fetcher.image,
        command: fetcher.command,
        args: seq![request.did, request.path],
        s3_endpoint: cfg.s3_endpoint,
        cache_root: cfg.cache_root,
    }
}

/// Builds the owner reference that points at `w`.
pub fn owner_reference(w: &Workload) -> (owner: OwnerReference)
    ensures
        owner@ == owner_of(w@),
{
    OwnerReference {
        api_version: "v1".to_owned(),
        kind: "Pod".to_owned(),
        name: w.name.clone(),
        uid: w.uid.clone(),
        controller: true,
        block_owner_deletion: true,
    }
}

/// Builds the fetch job that serves `request` on behalf of the workload `w`:
/// named after the cache key, in the workload's namespace, bound to the target
/// node, never restarted, removed thirty seconds after it finished, and owned
/// by the workload.
pub fn build_fetch_job(w: &Workload, request: &Request, cfg: &Config, fetcher: &Fetcher) -> (job:
    FetchJob)
    ensures
        job@ == fetch_job_of(w@, request@, cfg@, fetcher@),
        job@.owner.uid == w@.uid,
        job@.owner.name == w@.name,
        job@.owner.controller,
        job@.owner.block_owner_deletion,
{
    let mut args: Vec<String> = Vec::new();
    args.push(request.did.clone());
    args.push(request.path.clone());
    assert(args.deep_view() =~= seq![request@.did, request@.path]);
    let s3_endpoint = match &cfg.s3_endpoint {
        Some(e) => Some(e.clone()),
        None => None,
    };
    FetchJob {
        name: request.job_name.clone(),
        namespace: w.namespace.clone(),
        owner: owner_reference(w),
        ttl_seconds_after_finished: JOB_TTL_SECONDS,
        node_name: request.node.clone(),
        restart_policy: RestartPolicy::Never,
        image: fetcher.image.clone(),
        command: clone_texts(&fetcher.command),
        args,
        s3_endpoint,
        cache_root: cfg.cache_root.clone(),
    }
}

} // verus!
