//! Plain records handed to the presentation layer.

use vstd::prelude::*;
use crate::text::opt_view;

verus! {

/// One classified log line.
#[derive(Clone, Debug)]
pub struct LogEntry {
    pub timestamp: Option<String>,
    pub level: Option<String>,
    pub message: String,
    pub raw: String,
    pub is_json: bool,
    pub pod_name: String,
    pub container_name: String,
}

/// The mathematical content of a `LogEntry`.
pub struct EntryModel {
    pub timestamp: Option<Seq<char>>,
    pub level: Option<Seq<char>>,
    pub message: Seq<char>,
    pub raw: Seq<char>,
    pub is_json: bool,
    pub pod_name: Seq<char>,
    pub container_name: Seq<char>,
}

impl View for LogEntry {
    type V = EntryModel;

    open spec fn view(&self) -> EntryModel {
        EntryModel {
            timestamp: opt_view(self.timestamp),
            level: opt_view(self.level),
            message: self.message@,
            raw: self.raw@,
            is_json: self.is_json,
            pod_name: self.pod_name@,
            container_name: self.container_name@,
        }
    }
}

/// The matching entries of one (pod, container) stream.
#[derive(Clone, Debug)]
pub struct LogSearchResult {
    pub pod_name: String,
    pub container_name: String,
    pub total_matches: i32,
    pub entries: Vec<LogEntry>,
}

/// The models of a sequence of entries.
pub open spec fn entries_view(es: Seq<LogEntry>) -> Seq<EntryModel> {
    es.map_values(|e: LogEntry| e@)
}

impl LogEntry {
    /// A copy of the entry, field for field.
    pub fn duplicate(&self) -> (r: LogEntry)
        ensures
            r@ == self@,
    {
        LogEntry {
            timestamp: match &self.timestamp {
                Some(t) => Some(t.clone()),
                None => None,
            },
            level: match &self.level {
                Some(l) => Some(l.clone()),
                None => None,
            },
            message: self.message.clone(),
            raw: self.raw.clone(),
            is_json: self.is_json,
            pod_name: self.pod_name.clone(),
            container_name: self.container_name.clone(),
        }
    }
}

/// The mathematical content of a `LogSearchResult`.
pub struct ResultModel {
    pub pod_name: Seq<char>,
    pub container_name: Seq<char>,
    pub total_matches: int,
    pub entries: Seq<EntryModel>,
}

impl View for LogSearchResult {
    type V = ResultModel;

    open spec fn view(&self) -> ResultModel {
        ResultModel {
            pod_name: self.pod_name@,
            container_name: self.container_name@,
            total_matches: self.total_matches as int,
            entries: entries_view(self.entries@),
        }
    }
}

impl LogSearchResult {
    /// A result carries its stream's name, at least one entry, and the count
    /// of its entries.
    pub open spec fn wf(&self) -> bool {
        &&& self.entries@.len() > 0
        &&& self.total_matches as int == self.entries@.len()
    }
}

/// A context of the kubeconfig.
#[derive(Clone, Debug)]
pub struct ClusterInfo {
    pub name: String,
    pub server: String,
    pub is_current: bool,
}

/// A namespace and its phase.
#[derive(Clone, Debug)]
pub struct NamespaceInfo {
    pub name: String,
    pub status: String,
}

/// The summary of a deployment.
#[derive(Clone, Debug)]
pub struct DeploymentInfo {
    pub name: String,
    pub namespace: String,
    pub replicas: i32,
    pub available_replicas: i32,
    pub ready_replicas: i32,
}

/// The details of a deployment.
#[derive(Clone, Debug)]
pub struct DeploymentDetails {
    pub name: String,
    pub namespace: String,
    pub replicas: i32,
    pub available_replicas: i32,
    pub ready_replicas: i32,
    pub updated_replicas: i32,
    pub strategy: String,
    pub min_ready_seconds: i32,
    pub revision_history_limit: i32,
    pub creation_timestamp: Option<String>,
    pub labels: std::collections::BTreeMap<String, String>,
    pub annotations: std::collections::BTreeMap<String, String>,
    pub selector: std::collections::BTreeMap<String, String>,
    pub conditions: Vec<DeploymentCondition>,
}

/// A condition of a deployment.
#[derive(Clone, Debug)]
pub struct DeploymentCondition {
    pub condition_type: String,
    pub status: String,
    pub reason: Option<String>,
    pub message: Option<String>,
    pub last_update_time: Option<String>,
    pub last_transition_time: Option<String>,
}

/// The summary of a pod.
#[derive(Clone, Debug)]
pub struct PodInfo {
    pub name: String,
    pub namespace: String,
    pub status: String,
    pub ready: String,
    pub restarts: i32,
    pub age: String,
    pub ip: String,
    pub node: String,
    pub containers: Vec<String>,
}

/// The details of a pod.
#[derive(Clone, Debug)]
pub struct PodDetails {
    pub name: String,
    pub namespace: String,
    pub status: String,
    pub node: String,
    pub ip: String,
    pub start_time: Option<String>,
    pub labels: std::collections::HashMap<String, String>,
    pub annotations: std::collections::HashMap<String, String>,
    pub containers: Vec<ContainerDetails>,
    pub conditions: Vec<PodCondition>,
}

/// The details of a container of a pod.
#[derive(Clone, Debug)]
pub struct ContainerDetails {
    pub name: String,
    pub image: String,
    pub ready: bool,
    pub restart_count: i32,
    pub state: String,
    pub env_vars: Vec<EnvVar>,
    pub ports: Vec<ContainerPort>,
    pub resources: ResourceRequirements,
}

/// An environment variable of a container, with where its value comes from.
#[derive(Clone, Debug)]
pub struct EnvVar {
    pub name: String,
    pub value: String,
    pub source: String,
}

/// A port that a container exposes.
#[derive(Clone, Debug)]
pub struct ContainerPort {
    pub name: Option<String>,
    pub container_port: i32,
    pub protocol: String,
}

/// The cpu and memory requests and limits of a container.
#[derive(Clone, Debug)]
pub struct ResourceRequirements {
    pub cpu_request: Option<String>,
    pub cpu_limit: Option<String>,
    pub memory_request: Option<String>,
    pub memory_limit: Option<String>,
}

/// A condition of a pod.
#[derive(Clone, Debug)]
pub struct PodCondition {
    pub condition_type: String,
    pub status: String,
    pub reason: Option<String>,
    pub message: Option<String>,
    pub last_transition_time: Option<String>,
}

} // verus!
