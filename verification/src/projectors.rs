//! Projections: from a cluster object to the record that is shown for it.
//!
//! For every kind of object there is a spec function that says, field by
//! field, what its record holds, with the value that stands in for each
//! missing part.  Two executable functions go with it: `*_info` builds the
//! record from the object and the creation time already rendered, and
//! `project_*` renders the creation time and then does the same.

use crate::cluster::{
    ConfigMap, Deployment, IntOrString, Namespace, NetworkPolicy, PolicyRule, Service, ServicePort,
};
use crate::models::{
    ConfigMapInfo, ConfigMapInfoView, DeploymentInfo, DeploymentInfoView, NamespaceInfo,
    NamespaceInfoView, NetworkPolicyInfo, NetworkPolicyInfoView, ServiceInfo, ServiceInfoView,
};
use crate::string_map::{copy_or_empty, keys, keys_of, listing, map_or_empty};
use crate::text::{
    decimal, decimal_i32, join, joined, lemma_texts_push, or_default, or_empty, text_or, texts,
};
use std::collections::BTreeMap;
use vstd::prelude::*;
use vstd::string::*;

verus! {

// ---------------------------------------------------------------- namespaces
/// The phase of a namespace; empty where the status or its phase is
/// missing.
pub open spec fn namespace_phase(ns: Namespace) -> Seq<char> {
    match ns.status {
        Some(status) => text_or(status.phase, Seq::empty()),
        None => Seq::empty(),
    }
}

/// The record of a namespace whose creation time reads `created_at`.
pub open spec fn namespace_view(ns: Namespace, created_at: Option<Seq<char>>) -> NamespaceInfoView {
    NamespaceInfoView {
        name: ns.metadata.shown_name(),
        status: namespace_phase(ns),
        created_at,
        labels: ns.metadata.shown_labels(),
    }
}

/// Builds the record of `ns`, given its creation time as text.
pub fn namespace_info(ns: &Namespace, created_at: Option<String>) -> (out: NamespaceInfo)
    ensures
        out@ == namespace_view(*ns, created_at.deep_view()),
{
    let status = match &ns.status {
        Some(status) => or_empty(&status.phase),
        None => String::new(),
    };
    NamespaceInfo { name: ns.metadata.name_any(), status, created_at, labels: ns.metadata.labels() }
}

/// The record of `ns`.
pub fn project_namespace(ns: &Namespace) -> (out: NamespaceInfo)
    ensures
        out@ == namespace_view(*ns, ns.metadata.created_text()),
{
    namespace_info(ns, ns.metadata.created_at())
}

// ------------------------------------------------------------------ services
/// A target port as text: the number in decimal, or the name as given;
/// empty where the port has no target.
pub open spec fn target_text(target: Option<IntOrString>) -> Seq<char> {
    match target {
        Some(IntOrString::Int(number)) => decimal(number as int),
        Some(IntOrString::String(name)) => name@,
        None => Seq::empty(),
    }
}

/// One service port as `port:targetPort`.
pub open spec fn service_port_text(port: ServicePort) -> Seq<char> {
    decimal(port.port as int) + ":"@ + target_text(port.target_port)
}

/// The ports of a service on one line, separated by a comma and a space;
/// empty where the list is missing.
pub open spec fn service_ports_text(ports: Option<Vec<ServicePort>>) -> Seq<char> {
    match ports {
        Some(ports) => joined(ports@.map_values(|p: ServicePort| service_port_text(p)), ", "@),
        None => Seq::empty(),
    }
}

/// The first external address of a service, or `<none>` where it has
/// none.
pub open spec fn external_ip_text(ips: Option<Vec<String>>) -> Seq<char> {
    match ips {
        Some(ips) => if ips@.len() > 0 {
            ips@[0]@
        } else {
            "<none>"@
        },
        None => "<none>"@,
    }
}

/// The record of a service whose creation time reads `created_at`.
pub open spec fn service_view(svc: Service, created_at: Option<Seq<char>>) -> ServiceInfoView {
    ServiceInfoView {
        name: svc.metadata.shown_name(),
        namespace: svc.metadata.shown_namespace(),
        service_type: match svc.spec {
            Some(spec) => text_or(spec.type_, "ClusterIP"@),
            None => "ClusterIP"@,
        },
        cluster_ip: match svc.spec {
            Some(spec) => text_or(spec.cluster_ip, "None"@),
            None => "None"@,
        },
        external_ip: match svc.spec {
            Some(spec) => external_ip_text(spec.external_ips),
            None => "<none>"@,
        },
        ports: match svc.spec {
            Some(spec) => service_ports_text(spec.ports),
            None => Seq::empty(),
        },
        created_at,
        labels: svc.metadata.shown_labels(),
    }
}

/// Renders one service port.
pub fn service_port(port: &ServicePort) -> (out: String)
    ensures
        out@ == service_port_text(*port),
{
    let mut out = decimal_i32(port.port);
    out.append(":");
    match &port.target_port {
        Some(IntOrString::Int(number)) => {
            let number_text = decimal_i32(*number);
            out.append(number_text.as_str());
        },
        Some(IntOrString::String(name)) => {
            out.append(name.as_str());
        },
        None => {},
    }
    assert(out@ =~= service_port_text(*port));
    out
}

/// Renders the port list of a service.
pub fn service_ports(ports: &Option<Vec<ServicePort>>) -> (out: String)
    ensures
        out@ == service_ports_text(*ports),
{
    match ports {
        Some(ports) => {
            let mut parts: Vec<String> = Vec::new();
            let mut i: usize = 0;
            while i < ports.len()
                invariant
                    i <= ports.len(),
                    texts(parts@) == ports@.take(i as int).map_values(
                        |p: ServicePort| service_port_text(p),
                    ),
                decreases ports.len() - i,
            {
                let part = service_port(&ports[i]);
                proof {
                    lemma_texts_push(
                        parts@,
                        part,
                        ports@,
                        |p: ServicePort| service_port_text(p),
                        i as int,
                    );
                }
                parts.push(part);
                i += 1;
            }
            assert(ports@.take(i as int) =~= ports@);
            join(&parts, ", ")
        },
        None => String::new(),
    }
}

/// The external address shown for a service.
pub fn external_ip(ips: &Option<Vec<String>>) -> (out: String)
    ensures
        out@ == external_ip_text(*ips),
{
    match ips {
        Some(ips) => if ips.len() > 0 {
            ips[0].clone()
        } else {
            "<none>".to_owned()
        },
        None => "<none>".to_owned(),
    }
}

/// Builds the record of `svc`, given its creation time as text.
pub fn service_info(svc: &Service, created_at: Option<String>) -> (out: ServiceInfo)
    ensures
        out@ == service_view(*svc, created_at.deep_view()),
{
    let name = svc.metadata.name_any();
    let namespace = svc.metadata.namespace_or_default();
    let labels = svc.metadata.labels();
    match &svc.spec {
        Some(spec) => ServiceInfo {
            name,
            namespace,
            service_type: or_default(&spec.type_, "ClusterIP"),
            cluster_ip: or_default(&spec.cluster_ip, "None"),
            external_ip: external_ip(&spec.external_ips),
            ports: service_ports(&spec.ports),
            created_at,
            labels,
        },
        None => ServiceInfo {
            name,
            namespace,
            service_type: "ClusterIP".to_owned(),
            cluster_ip: "None".to_owned(),
            external_ip: "<none>".to_owned(),
            ports: String::new(),
            created_at,
            labels,
        },
    }
}

/// The record of `svc`.
pub fn project_service(svc: &Service) -> (out: ServiceInfo)
    ensures
        out@ == service_view(*svc, svc.metadata.created_text()),
{
    service_info(svc, svc.metadata.created_at())
}

// --------------------------------------------------------------- deployments
/// A replica count, or zero where it is missing.
pub open spec fn count_or_zero(count: Option<i32>) -> int {
    match count {
        Some(n) => n as int,
        None => 0,
    }
}

/// The record of a deployment whose creation time reads `created_at`.
pub open spec fn deployment_view(dep: Deployment, created_at: Option<Seq<char>>) -> DeploymentInfoView {
    DeploymentInfoView {
        name: dep.metadata.shown_name(),
        namespace: dep.metadata.shown_namespace(),
        ready_replicas: match dep.status {
            Some(status) => count_or_zero(status.ready_replicas),
            None => 0,
        },
        replicas: match dep.spec {
            Some(spec) => count_or_zero(spec.replicas),
            None => 0,
        },
        updated_replicas: match dep.status {
            Some(status) => count_or_zero(status.updated_replicas),
            None => 0,
        },
        available_replicas: match dep.status {
            Some(status) => count_or_zero(status.available_replicas),
            None => 0,
        },
        created_at,
        labels: dep.metadata.shown_labels(),
    }
}

/// A replica count, or zero where it is missing.
pub fn or_zero(count: &Option<i32>) -> (out: i32)
    ensures
        out == count_or_zero(*count),
{
    match count {
        Some(n) => *n,
        None => 0,
    }
}

/// Builds the record of `dep`, given its creation time as text.
pub fn deployment_info(dep: &Deployment, created_at: Option<String>) -> (out: DeploymentInfo)
    ensures
        out@ == deployment_view(*dep, created_at.deep_view()),
{
    let replicas: i32 = match &dep.spec {
        Some(spec) => or_zero(&spec.replicas),
        None => 0,
    };
    let (ready_replicas, updated_replicas, available_replicas): (i32, i32, i32) = match &dep.status {
        Some(status) => (
            or_zero(&status.ready_replicas),
            or_zero(&status.updated_replicas),
            or_zero(&status.available_replicas),
        ),
        None => (0, 0, 0),
    };
    DeploymentInfo {
        name: dep.metadata.name_any(),
        namespace: dep.metadata.namespace_or_default(),
        ready_replicas,
        replicas,
        updated_replicas,
        available_replicas,
        created_at,
        labels: dep.metadata.labels(),
    }
}

/// The record of `dep`.
pub fn project_deployment(dep: &Deployment) -> (out: DeploymentInfo)
    ensures
        out@ == deployment_view(*dep, dep.metadata.created_text()),
{
    deployment_info(dep, dep.metadata.created_at())
}

// --------------------------------------------------------------- config maps
/// The key names of a config map's data, in ascending order; none where
/// the data is missing.
pub open spec fn data_key_texts(data: Option<BTreeMap<String, String>>) -> Seq<Seq<char>> {
    match data {
        Some(data) => texts(keys_of(listing(data@))),
        None => Seq::empty(),
    }
}

/// The record of a config map whose creation time reads `created_at`.
pub open spec fn config_map_view(cm: ConfigMap, created_at: Option<Seq<char>>) -> ConfigMapInfoView {
    ConfigMapInfoView {
        name: cm.metadata.shown_name(),
        namespace: cm.metadata.shown_namespace(),
        data_keys: data_key_texts(cm.data),
        created_at,
        labels: cm.metadata.shown_labels(),
    }
}

/// Builds the record of `cm`, given its creation time as text.
pub fn config_map_info(cm: &ConfigMap, created_at: Option<String>) -> (out: ConfigMapInfo)
    ensures
        out@ == config_map_view(*cm, created_at.deep_view()),
{
    let data_keys: Vec<String> = match &cm.data {
        Some(data) => keys(data),
        None => Vec::new(),
    };
    let out = ConfigMapInfo {
        name: cm.metadata.name_any(),
        namespace: cm.metadata.namespace_or_default(),
        data_keys,
        created_at,
        labels: cm.metadata.labels(),
    };
    assert(out@.data_keys =~= data_key_texts(cm.data));
    out
}

/// The record of `cm`.
pub fn project_config_map(cm: &ConfigMap) -> (out: ConfigMapInfo)
    ensures
        out@ == config_map_view(*cm, cm.metadata.created_text()),
{
    config_map_info(cm, cm.metadata.created_at())
}

// ---------------------------------------------------------- network policies
/// The number of rules in a rule list; zero where the list is missing.
pub open spec fn rule_count(rules: Option<Vec<PolicyRule>>) -> nat {
    match rules {
        Some(rules) => rules@.len(),
        None => 0,
    }
}

/// The record of a network policy whose creation time reads `created_at`.
pub open spec fn network_policy_view(
    np: NetworkPolicy,
    created_at: Option<Seq<char>>,
) -> NetworkPolicyInfoView {
    NetworkPolicyInfoView {
        name: np.metadata.shown_name(),
        namespace: np.metadata.shown_namespace(),
        pod_selector: match np.spec {
            Some(spec) => map_or_empty(spec.pod_selector.match_labels),
            None => Map::empty(),
        },
        ingress_rules: match np.spec {
            Some(spec) => rule_count(spec.ingress),
            None => 0,
        },
        egress_rules: match np.spec {
            Some(spec) => rule_count(spec.egress),
            None => 0,
        },
        created_at,
        labels: np.metadata.shown_labels(),
    }
}

/// Counts the rules of a rule list.
pub fn count_rules(rules: &Option<Vec<PolicyRule>>) -> (out: usize)
    ensures
        out == rule_count(*rules),
{
    match rules {
        Some(rules) => rules.len(),
        None => 0,
    }
}

/// Builds the record of `np`, given its creation time as text.
pub fn network_policy_info(np: &NetworkPolicy, created_at: Option<String>) -> (out:
    NetworkPolicyInfo)
    ensures
        out@ == network_policy_view(*np, created_at.deep_view()),
{
    let name = np.metadata.name_any();
    let namespace = np.metadata.namespace_or_default();
    let labels = np.metadata.labels();
    match &np.spec {
        Some(spec) => NetworkPolicyInfo {
            name,
            namespace,
            pod_selector: copy_or_empty(&spec.pod_selector.match_labels),
            ingress_rules: count_rules(&spec.ingress),
            egress_rules: count_rules(&spec.egress),
            created_at,
            labels,
        },
        None => NetworkPolicyInfo {
            name,
            namespace,
            pod_selector: BTreeMap::new(),
            ingress_rules: 0,
            egress_rules: 0,
            created_at,
            labels,
        },
    }
}

/// The record of `np`.
pub fn project_network_policy(np: &NetworkPolicy) -> (out: NetworkPolicyInfo)
    ensures
        out@ == network_policy_view(*np, np.metadata.created_text()),
{
    network_policy_info(np, np.metadata.created_at())
}

} // verus!
