//! What holds of every projection and every reply, stated once and proved
//! from the definitions the contracts use.

use crate::cluster::{ConfigMap, Deployment, Namespace, NetworkPolicy, Pod, Service};
use crate::handlers::{
    config_map_rows, deployment_rows, failure_note, is_pod_details_body, namespace_rows,
    network_policy_rows, pod_rows, service_rows, PodDetailsBody,
};
use crate::pods::{pod_details_view, pod_view, ready_text, restart_total};
use crate::projectors::{
    config_map_view, deployment_view, namespace_view, network_policy_view, service_view,
};
use crate::text::decimal;
use vstd::prelude::*;

verus! {

/// A namespace without status and without labels is shown with an empty
/// phase and with no labels.
pub proof fn lemma_namespace_defaults(ns: Namespace, created_at: Option<Seq<char>>)
    requires
        ns.status is None,
        ns.metadata.labels is None,
    ensures
        namespace_view(ns, created_at).status == Seq::<char>::empty(),
        namespace_view(ns, created_at).labels == Map::<String, String>::empty(),
        namespace_view(ns, created_at).created_at == created_at,
{
}

/// A pod without status and without labels is shown as `Unknown`, with
/// ratio `0/0`, no restarts, no node and no labels.
pub proof fn lemma_pod_defaults(pod: Pod, created_at: Option<Seq<char>>)
    requires
        pod.status is None,
        pod.metadata.labels is None,
    ensures
        pod_view(pod, created_at).phase == "Unknown"@,
        pod_view(pod, created_at).ready == decimal(0) + "/"@ + decimal(0),
        pod_view(pod, created_at).restarts == 0,
        pod_view(pod, created_at).node_name is None,
        pod_view(pod, created_at).labels == Map::<String, String>::empty(),
{
    let none = Seq::<crate::cluster::ContainerStatus>::empty();
    assert(none.filter(|s: crate::cluster::ContainerStatus| s.ready).len() == 0);
    assert(ready_text(none) == decimal(0) + "/"@ + decimal(0));
    assert(restart_total(none) == 0);
}

/// A service without specification and without labels is shown as a
/// `ClusterIP` service at `None`, with `<none>` outside and no ports.
pub proof fn lemma_service_defaults(svc: Service, created_at: Option<Seq<char>>)
    requires
        svc.spec is None,
        svc.metadata.labels is None,
    ensures
        service_view(svc, created_at).service_type == "ClusterIP"@,
        service_view(svc, created_at).cluster_ip == "None"@,
        service_view(svc, created_at).external_ip == "<none>"@,
        service_view(svc, created_at).ports == Seq::<char>::empty(),
        service_view(svc, created_at).labels == Map::<String, String>::empty(),
{
}

/// A deployment without specification, status and labels is shown with
/// all four replica counts at zero.
pub proof fn lemma_deployment_defaults(dep: Deployment, created_at: Option<Seq<char>>)
    requires
        dep.spec is None,
        dep.status is None,
        dep.metadata.labels is None,
    ensures
        deployment_view(dep, created_at).ready_replicas == 0,
        deployment_view(dep, created_at).replicas == 0,
        deployment_view(dep, created_at).updated_replicas == 0,
        deployment_view(dep, created_at).available_replicas == 0,
        deployment_view(dep, created_at).labels == Map::<String, String>::empty(),
{
}

/// A config map without data and without labels is shown with no keys.
pub proof fn lemma_config_map_defaults(cm: ConfigMap, created_at: Option<Seq<char>>)
    requires
        cm.data is None,
        cm.metadata.labels is None,
    ensures
        config_map_view(cm, created_at).data_keys == Seq::<Seq<char>>::empty(),
        config_map_view(cm, created_at).labels == Map::<String, String>::empty(),
{
}

/// A network policy without specification and without labels is shown
/// with an empty selector and no rules; one whose specification has no
/// egress list is shown with no egress rules.
pub proof fn lemma_network_policy_defaults(np: NetworkPolicy, created_at: Option<Seq<char>>)
    ensures
        np.spec is None ==> {
            &&& network_policy_view(np, created_at).pod_selector == Map::<String, String>::empty()
            &&& network_policy_view(np, created_at).ingress_rules == 0
            &&& network_policy_view(np, created_at).egress_rules == 0
        },
        np.spec matches Some(spec) && spec.ingress is None ==> network_policy_view(
            np,
            created_at,
        ).ingress_rules == 0,
        np.spec matches Some(spec) && spec.egress is None ==> network_policy_view(
            np,
            created_at,
        ).egress_rules == 0,
        np.metadata.labels is None ==> network_policy_view(np, created_at).labels == Map::<
            String,
            String,
        >::empty(),
{
}

/// A pod without specification, status, labels and annotations has a
/// detail view with empty node and status, no containers, no labels and
/// no annotations.
pub proof fn lemma_pod_details_defaults(pod: Pod, created_at: Option<Seq<char>>)
    requires
        pod.spec is None,
        pod.status is None,
        pod.metadata.labels is None,
        pod.metadata.annotations is None,
    ensures
        pod_details_view(pod, created_at).node_name == Seq::<char>::empty(),
        pod_details_view(pod, created_at).status == Seq::<char>::empty(),
        pod_details_view(pod, created_at).containers.len() == 0,
        pod_details_view(pod, created_at).labels == Map::<String, String>::empty(),
        pod_details_view(pod, created_at).annotations == Map::<String, String>::empty(),
{
}

/// An object without any name is shown under the empty name, and one
/// without namespace under the empty namespace.
pub proof fn lemma_nameless_object(meta: crate::cluster::ObjectMeta)
    ensures
        meta.name is None && meta.generate_name is None ==> meta.shown_name() == Seq::<
            char,
        >::empty(),
        meta.namespace is None ==> meta.shown_namespace() == Seq::<char>::empty(),
        meta.creation_timestamp is None ==> meta.created_text() is None,
{
}

/// Labels and annotations are carried over as they are: the maps of a
/// record are the maps of its object, with nothing added and nothing
/// left out.
pub proof fn lemma_labels_carried_over(
    ns: Namespace,
    pod: Pod,
    svc: Service,
    dep: Deployment,
    cm: ConfigMap,
    np: NetworkPolicy,
    created_at: Option<Seq<char>>,
)
    ensures
        ns.metadata.labels matches Some(labels) ==> namespace_view(ns, created_at).labels
            == labels@,
        pod.metadata.labels matches Some(labels) ==> pod_view(pod, created_at).labels == labels@
            && pod_details_view(pod, created_at).labels == labels@,
        pod.metadata.annotations matches Some(notes) ==> pod_details_view(
            pod,
            created_at,
        ).annotations == notes@,
        svc.metadata.labels matches Some(labels) ==> service_view(svc, created_at).labels
            == labels@,
        dep.metadata.labels matches Some(labels) ==> deployment_view(dep, created_at).labels
            == labels@,
        cm.metadata.labels matches Some(labels) ==> config_map_view(cm, created_at).labels
            == labels@,
        np.metadata.labels matches Some(labels) ==> network_policy_view(np, created_at).labels
            == labels@,
{
}

/// A failed lookup of a pod is answered with the error object that says
/// `Pod not found`, and with nothing else, whatever the error was.
pub proof fn lemma_failed_lookup_says_not_found(body: PodDetailsBody, error: String)
    requires
        is_pod_details_body(body, Err(error)),
    ensures
        body matches PodDetailsBody::Missing(object) && object.error@ == "Pod not found"@,
{
}

/// A list endpoint answers a failed call as it answers an empty list: no
/// rows either way.  Only the line for the server's log tells the two
/// apart.
pub proof fn lemma_failure_looks_like_empty_list(
    namespaces: Vec<Namespace>,
    pods: Vec<Pod>,
    services: Vec<Service>,
    deployments: Vec<Deployment>,
    config_maps: Vec<ConfigMap>,
    policies: Vec<NetworkPolicy>,
    error: String,
)
    requires
        namespaces@.len() == 0,
        pods@.len() == 0,
        services@.len() == 0,
        deployments@.len() == 0,
        config_maps@.len() == 0,
        policies@.len() == 0,
    ensures
        namespace_rows(Ok(namespaces)) == namespace_rows(Err(error)),
        pod_rows(Ok(pods)) == pod_rows(Err(error)),
        service_rows(Ok(services)) == service_rows(Err(error)),
        deployment_rows(Ok(deployments)) == deployment_rows(Err(error)),
        config_map_rows(Ok(config_maps)) == config_map_rows(Err(error)),
        network_policy_rows(Ok(policies)) == network_policy_rows(Err(error)),
        namespace_rows(Err(error)).len() == 0,
        failure_note("namespaces"@, Ok::<Vec<Namespace>, String>(namespaces)) is None,
        failure_note("namespaces"@, Err::<Vec<Namespace>, String>(error)) is Some,
{
    assert(namespace_rows(Ok(namespaces)) =~= namespace_rows(Err(error)));
    assert(pod_rows(Ok(pods)) =~= pod_rows(Err(error)));
    assert(service_rows(Ok(services)) =~= service_rows(Err(error)));
    assert(deployment_rows(Ok(deployments)) =~= deployment_rows(Err(error)));
    assert(config_map_rows(Ok(config_maps)) =~= config_map_rows(Err(error)));
    assert(network_policy_rows(Ok(policies)) =~= network_policy_rows(Err(error)));
}

} // verus!
