//! The parts of cluster objects that the dashboard reads.
//!
//! Each type follows the shape of the Kubernetes object it stands for and
//! keeps only the fields that end up in a display record.  Optional parts
//! stay optional here: deciding what is shown in place of a missing part
//! is the projections' business.

use crate::string_map::{copy_or_empty, map_or_empty};
use crate::text::{or_empty, text_or};
use crate::time::Timestamp;
use std::collections::BTreeMap;
use vstd::prelude::*;

verus! {

/// What every object carries: its names, its namespace, its labels and
/// annotations, and when it was created.
#[derive(Debug)]
pub struct ObjectMeta {
    pub name: Option<String>,
    pub generate_name: Option<String>,
    pub namespace: Option<String>,
    pub labels: Option<BTreeMap<String, String>>,
    pub annotations: Option<BTreeMap<String, String>>,
    pub creation_timestamp: Option<Timestamp>,
}

impl ObjectMeta {
    /// The name an object is shown under: its name, else the prefix its
    /// name is generated from, else the empty text.
    pub open spec fn shown_name(self) -> Seq<char> {
        match self.name {
            Some(name) => name@,
            None => text_or(self.generate_name, Seq::empty()),
        }
    }

    /// The namespace an object is shown under; empty for an object that
    /// has none.
    pub open spec fn shown_namespace(self) -> Seq<char> {
        text_or(self.namespace, Seq::empty())
    }

    /// The labels of an object; none where the field is missing.
    pub open spec fn shown_labels(self) -> Map<String, String> {
        map_or_empty(self.labels)
    }

    /// The annotations of an object; none where the field is missing.
    pub open spec fn shown_annotations(self) -> Map<String, String> {
        map_or_empty(self.annotations)
    }

    /// The creation time as RFC 3339 text; `None` for an object without
    /// one.
    pub open spec fn created_text(self) -> Option<Seq<char>> {
        match self.creation_timestamp {
            Some(instant) => instant.text(),
            None => None,
        }
    }

    /// See [`ObjectMeta::shown_name`].
    pub fn name_any(&self) -> (out: String)
        ensures
            out@ == self.shown_name(),
    {
        match &self.name {
            Some(name) => name.clone(),
            None => or_empty(&self.generate_name),
        }
    }

    /// See [`ObjectMeta::shown_namespace`].
    pub fn namespace_or_default(&self) -> (out: String)
        ensures
            out@ == self.shown_namespace(),
    {
        or_empty(&self.namespace)
    }

    /// See [`ObjectMeta::shown_labels`].
    pub fn labels(&self) -> (out: BTreeMap<String, String>)
        ensures
            out@ == self.shown_labels(),
    {
        copy_or_empty(&self.labels)
    }

    /// See [`ObjectMeta::shown_annotations`].
    pub fn annotations(&self) -> (out: BTreeMap<String, String>)
        ensures
            out@ == self.shown_annotations(),
    {
        copy_or_empty(&self.annotations)
    }

    /// See [`ObjectMeta::created_text`].
    pub fn created_at(&self) -> (out: Option<String>)
        ensures
            out.deep_view() == self.created_text(),
    {
        match &self.creation_timestamp {
            Some(instant) => instant.to_rfc3339(),
            None => None,
        }
    }
}

/// A namespace.
#[derive(Debug)]
pub struct Namespace {
    pub metadata: ObjectMeta,
    pub status: Option<NamespaceStatus>,
}

#[derive(Debug)]
pub struct NamespaceStatus {
    pub phase: Option<String>,
}

/// A pod.
#[derive(Debug)]
pub struct Pod {
    pub metadata: ObjectMeta,
    pub spec: Option<PodSpec>,
    pub status: Option<PodStatus>,
}

#[derive(Debug)]
pub struct PodSpec {
    pub node_name: Option<String>,
    pub containers: Vec<Container>,
}

#[derive(Debug)]
pub struct PodStatus {
    pub phase: Option<String>,
    pub host_ip: Option<String>,
    pub container_statuses: Option<Vec<ContainerStatus>>,
}

/// The state of one running container.
#[derive(Debug)]
pub struct ContainerStatus {
    pub ready: bool,
    pub restart_count: i32,
}

/// One container of a pod's specification.
#[derive(Debug)]
pub struct Container {
    pub name: String,
    pub image: Option<String>,
    pub ports: Option<Vec<ContainerPort>>,
    pub resources: Option<ResourceRequirements>,
}

#[derive(Debug)]
pub struct ContainerPort {
    pub container_port: i32,
    pub protocol: Option<String>,
}

/// The resources a container asks for, each quantity as its text, keyed
/// by resource name (`cpu`, `memory`, ...).
#[derive(Debug)]
pub struct ResourceRequirements {
    pub requests: Option<BTreeMap<String, String>>,
}

/// A service.
#[derive(Debug)]
pub struct Service {
    pub metadata: ObjectMeta,
    pub spec: Option<ServiceSpec>,
}

#[derive(Debug)]
pub struct ServiceSpec {
    pub type_: Option<String>,
    pub cluster_ip: Option<String>,
    pub external_ips: Option<Vec<String>>,
    pub ports: Option<Vec<ServicePort>>,
}

#[derive(Debug)]
pub struct ServicePort {
    pub port: i32,
    pub target_port: Option<IntOrString>,
}

/// A port given either by number or by name.
#[derive(Debug)]
pub enum IntOrString {
    Int(i32),
    String(String),
}

/// A deployment.
#[derive(Debug)]
pub struct Deployment {
    pub metadata: ObjectMeta,
    pub spec: Option<DeploymentSpec>,
    pub status: Option<DeploymentStatus>,
}

#[derive(Debug)]
pub struct DeploymentSpec {
    pub replicas: Option<i32>,
}

#[derive(Debug)]
pub struct DeploymentStatus {
    pub ready_replicas: Option<i32>,
    pub updated_replicas: Option<i32>,
    pub available_replicas: Option<i32>,
}

/// A config map.
#[derive(Debug)]
pub struct ConfigMap {
    pub metadata: ObjectMeta,
    pub data: Option<BTreeMap<String, String>>,
}

/// A network policy.
#[derive(Debug)]
pub struct NetworkPolicy {
    pub metadata: ObjectMeta,
    pub spec: Option<NetworkPolicySpec>,
}

#[derive(Debug)]
pub struct NetworkPolicySpec {
    pub pod_selector: LabelSelector,
    pub ingress: Option<Vec<PolicyRule>>,
    pub egress: Option<Vec<PolicyRule>>,
}

#[derive(Debug)]
pub struct LabelSelector {
    pub match_labels: Option<BTreeMap<String, String>>,
}

/// One ingress or egress rule.  The dashboard counts rules and never
/// looks inside one, so a rule carries nothing.
#[derive(Debug)]
pub struct PolicyRule {}

} // verus!
