//! Workloads as the gatekeeper sees them, and the question it asks of each:
//! is this one gated on us, and if so, on which dataset and for which node?

use vstd::prelude::*;
use crate::cache_key::{cache_key, cache_key_of, cache_path, cache_path_of, job_name, job_name_of};
use crate::config::{Config, ConfigView};
use crate::text::{find_value, first_value, has_text, pairs_of};

verus! {

/// A snapshot of one workload object.
#[derive(Clone, Debug, PartialEq, Eq)]
pub struct Workload {
    pub namespace: String,
    pub name: String,
    /// The identity token the cluster gave the object.
    pub uid: String,
    /// The node the workload is assigned to, if any.
    pub node_name: Option<String>,
    /// The names of the gates that keep the workload from being scheduled.
    pub scheduling_gates: Vec<String>,
    /// The annotations, in the order the cluster listed them.
    pub annotations: Vec<(String, String)>,
}

/// A workload snapshot as a mathematical value.
pub struct WorkloadView {
    pub namespace: Seq<char>,
    pub name: Seq<char>,
    pub uid: Seq<char>,
    pub node_name: Option<Seq<char>>,
    pub scheduling_gates: Seq<Seq<char>>,
    pub annotations: Seq<(Seq<char>, Seq<char>)>,
}

impl View for Workload {
    type V = WorkloadView;

    open spec fn view(&self) -> WorkloadView {
        WorkloadView {
            namespace: self.namespace@,
            name: self.name@,
            uid: self.uid@,
            node_name: match self.node_name {
                Some(n) => Some(n@),
                None => None,
            },
            scheduling_gates: self.scheduling_gates.deep_view(),
            annotations: pairs_of(self.annotations@),
        }
    }
}

/// The snapshot in an optional workload, if there is one.
pub open spec fn snapshot_of(w: Option<Workload>) -> Option<WorkloadView> {
    match w {
        Some(w) => Some(w@),
        None => None,
    }
}

impl WorkloadView {
    /// The dataset identifier the workload asks for, if it names one.
    pub open spec fn dataset(self, cfg: ConfigView) -> Option<Seq<char>> {
        first_value(self.annotations, cfg.annotation_key)
    }

    /// Whether the workload carries this system's gate.
    pub open spec fn has_gate(self, cfg: ConfigView) -> bool {
        self.scheduling_gates.contains(cfg.gate_name)
    }

    /// Whether the workload is gated on this system: it carries that gate and
    /// names a dataset that is not empty.
    pub open spec fn gated_on(self, cfg: ConfigView) -> bool {
        &&& self.has_gate(cfg)
        &&& self.dataset(cfg) matches Some(did)
        &&& did.len() > 0
    }

    /// The node the dataset has to be on: the assigned node, or the fallback.
    pub open spec fn target_node(self, cfg: ConfigView) -> Seq<char> {
        match self.node_name {
            Some(n) => n,
            None => cfg.fallback_node,
        }
    }

    /// The key under which work for this workload is queued: `namespace/name`.
    pub open spec fn work_key(self) -> Seq<char> {
        self.namespace + seq!['/'] + self.name
    }
}

/// What a gated workload asks of the gatekeeper.
#[derive(Clone, Debug, PartialEq, Eq)]
pub struct Request {
    /// The dataset identifier, as the workload wrote it.
    pub did: String,
    pub cache_key: String,
    /// Where the dataset is kept on the node.
    pub path: String,
    /// The node the dataset has to be on.
    pub node: String,
    /// The name of the job that fetches it.
    pub job_name: String,
}

/// A request as a mathematical value.
pub struct RequestView {
    pub did: Seq<char>,
    pub cache_key: Seq<char>,
    pub path: Seq<char>,
    pub node: Seq<char>,
    pub job_name: Seq<char>,
}

impl View for Request {
    type V = RequestView;

    open spec fn view(&self) -> RequestView {
        RequestView {
            did: self.did@,
            cache_key: self.cache_key@,
            path: self.path@,
            node: self.node@,
            job_name: self.job_name@,
        }
    }
}

/// The request that follows from a dataset identifier: every other field is a
/// function of it, of the target node and of the cache root.
pub open spec fn request_for(did: Seq<char>, node: Seq<char>, root: Seq<char>) -> RequestView {
    RequestView {
        did,
        cache_key: cache_key_of(did),
        path: cache_path_of(root, cache_key_of(did)),
        node,
        job_name: job_name_of(cache_key_of(did)),
    }
}

/// The request of a workload that is gated on this system.
pub open spec fn request_of(w: WorkloadView, cfg: ConfigView) -> RequestView {
    request_for(w.dataset(cfg)->0, w.target_node(cfg), cfg.cache_root)
}

/// The verdict on one workload snapshot.
#[derive(Clone, Debug, PartialEq, Eq)]
pub enum Classification {
    /// Not gated on this system: nothing is done for it.
    NotMine,
    /// Gated on this system, with what it asks for.
    Gated(Request),
}

impl Workload {
    /// Whether the workload carries this system's gate.
    pub fn has_gate(&self, cfg: &Config) -> (r: bool)
        ensures
            r == self@.has_gate(cfg@),
    {
        has_text(&self.scheduling_gates, cfg.gate_name.as_str())
    }

    /// The node the dataset has to be on: the assigned node, or the configured
    /// fallback node where none is assigned.
    pub fn target_node(&self, cfg: &Config) -> (node: String)
        ensures
            node@ == self@.target_node(cfg@),
    {
        match &self.node_name {
            Some(n) => n.clone(),
            None => cfg.fallback_node.clone(),
        }
    }

    /// The key under which work for this workload is queued.
    pub fn work_key(&self) -> (key: String)
        ensures
            key@ == self@.work_key(),
    {
        proof {
            reveal_strlit("/");
            assert("/"@ =~= seq!['/']);
        }
        self.namespace.clone().concat("/").concat(self.name.as_str())
    }

    /// Classifies the workload: `Gated` with its request if it carries the
    /// gate and names a dataset that is not empty, `NotMine` in every other
    /// case.
    pub fn classify(&self, cfg: &Config) -> (c: Classification)
        ensures
            match c {
                Classification::NotMine => !self@.gated_on(cfg@),
                Classification::Gated(r) => self@.gated_on(cfg@) && r@ == request_of(self@, cfg@),
            },
    {
        if !self.has_gate(cfg) {
            return Classification::NotMine;
        }
        match find_value(&self.annotations, cfg.annotation_key.as_str()) {
            None => Classification::NotMine,
            Some(did) => {
                if did.as_str().is_empty() {
                    return Classification::NotMine;
                }
                let key = cache_key(did.as_str());
                let path = cache_path(cfg.cache_root.as_str(), key.as_str());
                let name = job_name(key.as_str());
                Classification::Gated(
                    Request {
                        did: did.clone(),
                        cache_key: key,
                        path,
                        node: self.target_node(cfg),
                        job_name: name,
                    },
                )
            },
        }
    }
}

/// A workload without the dataset annotation, or with an empty dataset
/// identifier, is not this system's, whatever gates it carries.
pub proof fn lemma_unnamed_dataset_is_not_mine(w: WorkloadView, cfg: ConfigView)
    requires
        w.dataset(cfg) is None || w.dataset(cfg) == Some(Seq::<char>::empty()),
    ensures
        !w.gated_on(cfg),
{
}

} // verus!
