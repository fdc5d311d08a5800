//! What each endpoint answers, given what the cluster said.
//!
//! A handler here takes the outcome of the one cluster call its endpoint
//! makes: the objects, or the text of the error.  It returns the reply:
//! the status, the body to serialise, and the line to write to the server
//! log.  A failed call never turns into a failed reply: list endpoints
//! answer with an empty list, the pod-detail endpoint with an error
//! object, the log endpoint with a log that holds the error message, and
//! the status is `200` every time.

use crate::cluster::{ConfigMap, Deployment, Namespace, NetworkPolicy, Pod, Service};
use crate::models::{
    lemma_views_push, views, ConfigMapInfo, DeploymentInfo, NamespaceInfo, NetworkPolicyInfo,
    PodDetails, PodInfo, PodLogs, PodLogsView, ServiceInfo,
};
use crate::pods::{
    check_restarts, pod_details_view, pod_view, project_pod, project_pod_details, restarts_fit,
};
use crate::projectors::{
    config_map_view, deployment_view, namespace_view, network_policy_view, project_config_map,
    project_deployment, project_namespace, project_network_policy, project_service, service_view,
};
use vstd::prelude::*;
use vstd::string::*;

verus! {

/// The status of every reply.
pub const STATUS_OK: u16 = 200;

/// The reply of an endpoint.
#[derive(Debug)]
pub struct Reply<B> {
    /// The HTTP status.
    pub status: u16,
    /// What is serialised as the response body.
    pub body: B,
    /// What the server writes to its own log; the client never sees it.
    pub diagnostic: Option<String>,
}

/// The body of the pod-detail endpoint's failure reply.
#[derive(Debug)]
pub struct ErrorBody {
    pub error: String,
}

/// The body of the pod-detail endpoint.
#[derive(Debug)]
pub enum PodDetailsBody {
    Found(PodDetails),
    Missing(ErrorBody),
}

/// The objects that were fetched; none where the call failed.
pub open spec fn fetched_items<T>(fetched: Result<Vec<T>, String>) -> Seq<T> {
    match fetched {
        Ok(items) => items@,
        Err(_) => Seq::empty(),
    }
}

/// The server's log line for a call: nothing where it succeeded, else
/// `Error fetching <what>: <error>`.
pub open spec fn failure_note<T>(what: Seq<char>, fetched: Result<T, String>) -> Option<Seq<char>> {
    match fetched {
        Ok(_) => None,
        Err(error) => Some("Error fetching "@ + what + ": "@ + error@),
    }
}

/// The log line for a failed call.
pub fn note_failure(what: &str, error: &String) -> (out: Option<String>)
    ensures
        out.deep_view() == Some("Error fetching "@ + what@ + ": "@ + error@),
{
    let mut line = "Error fetching ".to_owned();
    line.append(what);
    line.append(": ");
    line.append(error.as_str());
    assert(line@ =~= "Error fetching "@ + what@ + ": "@ + error@);
    Some(line)
}

/// The rows of the namespace list.
pub open spec fn namespace_rows(fetched: Result<Vec<Namespace>, String>) -> Seq<
    <NamespaceInfo as View>::V,
> {
    fetched_items(fetched).map_values(
        |ns: Namespace| namespace_view(ns, ns.metadata.created_text()),
    )
}

/// `GET /api/namespaces`.
pub fn get_namespaces(fetched: Result<Vec<Namespace>, String>) -> (out: Reply<Vec<NamespaceInfo>>)
    ensures
        out.status == STATUS_OK,
        views(out.body@) == namespace_rows(fetched),
        out.diagnostic.deep_view() == failure_note("namespaces"@, fetched),
{
    let mut body: Vec<NamespaceInfo> = Vec::new();
    match &fetched {
        Ok(items) => {
            let mut i: usize = 0;
            while i < items.len()
                invariant
                    i <= items.len(),
                    views(body@) == items@.take(i as int).map_values(
                        |ns: Namespace| namespace_view(ns, ns.metadata.created_text()),
                    ),
                decreases items.len() - i,
            {
                let row = project_namespace(&items[i]);
                proof {
                    lemma_views_push(
                        body@,
                        row,
                        items@,
                        |ns: Namespace| namespace_view(ns, ns.metadata.created_text()),
                        i as int,
                    );
                }
                body.push(row);
                i += 1;
            }
            assert(items@.take(i as int) =~= items@);
            Reply { status: STATUS_OK, body, diagnostic: None }
        },
        Err(error) => {
            assert(views(body@) =~= namespace_rows(fetched));
            Reply { status: STATUS_OK, body, diagnostic: note_failure("namespaces", error) }
        },
    }
}

/// Whether the restarts of every pod can be shown.
pub open spec fn all_restarts_fit(fetched: Result<Vec<Pod>, String>) -> bool {
    forall|i: int|
        0 <= i < fetched_items(fetched).len() ==> restarts_fit(
            #[trigger] fetched_items(fetched)[i],
        )
}

/// Whether the restarts of every fetched pod can be shown.
pub fn check_all_restarts(fetched: &Result<Vec<Pod>, String>) -> (out: bool)
    ensures
        out == all_restarts_fit(*fetched),
{
    match fetched {
        Ok(items) => {
            let mut i: usize = 0;
            while i < items.len()
                invariant
                    i <= items.len(),
                    fetched_items(*fetched) == items@,
                    forall|j: int| 0 <= j < i ==> restarts_fit(#[trigger] items@[j]),
                decreases items.len() - i,
            {
                if !check_restarts(&items[i]) {
                    assert(!restarts_fit(fetched_items(*fetched)[i as int]));
                    return false;
                }
                i += 1;
            }
            true
        },
        Err(_) => true,
    }
}

/// The rows of the pod list.
pub open spec fn pod_rows(fetched: Result<Vec<Pod>, String>) -> Seq<<PodInfo as View>::V> {
    fetched_items(fetched).map_values(|pod: Pod| pod_view(pod, pod.metadata.created_text()))
}

/// `GET /api/pods/{namespace}`.
pub fn get_pods(fetched: Result<Vec<Pod>, String>) -> (out: Reply<Vec<PodInfo>>)
    requires
        all_restarts_fit(fetched),
    ensures
        out.status == STATUS_OK,
        views(out.body@) == pod_rows(fetched),
        out.diagnostic.deep_view() == failure_note("pods"@, fetched),
{
    let mut body: Vec<PodInfo> = Vec::new();
    match &fetched {
        Ok(items) => {
            let mut i: usize = 0;
            while i < items.len()
                invariant
                    i <= items.len(),
                    fetched_items(fetched) == items@,
                    all_restarts_fit(fetched),
                    views(body@) == items@.take(i as int).map_values(
                        |pod: Pod| pod_view(pod, pod.metadata.created_text()),
                    ),
                decreases items.len() - i,
            {
                assert(restarts_fit(fetched_items(fetched)[i as int]));
                let row = project_pod(&items[i]);
                proof {
                    lemma_views_push(
                        body@,
                        row,
                        items@,
                        |pod: Pod| pod_view(pod, pod.metadata.created_text()),
                        i as int,
                    );
                }
                body.push(row);
                i += 1;
            }
            assert(items@.take(i as int) =~= items@);
            Reply { status: STATUS_OK, body, diagnostic: None }
        },
        Err(error) => {
            assert(views(body@) =~= pod_rows(fetched));
            Reply { status: STATUS_OK, body, diagnostic: note_failure("pods", error) }
        },
    }
}

/// The rows of the service list.
pub open spec fn service_rows(fetched: Result<Vec<Service>, String>) -> Seq<
    <ServiceInfo as View>::V,
> {
    fetched_items(fetched).map_values(
        |svc: Service| service_view(svc, svc.metadata.created_text()),
    )
}

/// `GET /api/services/{namespace}`.
pub fn get_services(fetched: Result<Vec<Service>, String>) -> (out: Reply<Vec<ServiceInfo>>)
    ensures
        out.status == STATUS_OK,
        views(out.body@) == service_rows(fetched),
        out.diagnostic.deep_view() == failure_note("services"@, fetched),
{
    let mut body: Vec<ServiceInfo> = Vec::new();
    match &fetched {
        Ok(items) => {
            let mut i: usize = 0;
            while i < items.len()
                invariant
                    i <= items.len(),
                    views(body@) == items@.take(i as int).map_values(
                        |svc: Service| service_view(svc, svc.metadata.created_text()),
                    ),
                decreases items.len() - i,
            {
                let row = project_service(&items[i]);
                proof {
                    lemma_views_push(
                        body@,
                        row,
                        items@,
                        |svc: Service| service_view(svc, svc.metadata.created_text()),
                        i as int,
                    );
                }
                body.push(row);
                i += 1;
            }
            assert(items@.take(i as int) =~= items@);
            Reply { status: STATUS_OK, body, diagnostic: None }
        },
        Err(error) => {
            assert(views(body@) =~= service_rows(fetched));
            Reply { status: STATUS_OK, body, diagnostic: note_failure("services", error) }
        },
    }
}

/// The rows of the deployment list.
pub open spec fn deployment_rows(fetched: Result<Vec<Deployment>, String>) -> Seq<
    <DeploymentInfo as View>::V,
> {
    fetched_items(fetched).map_values(
        |dep: Deployment| deployment_view(dep, dep.metadata.created_text()),
    )
}

/// `GET /api/deployments/{namespace}`.
pub fn get_deployments(fetched: Result<Vec<Deployment>, String>) -> (out: Reply<
    Vec<DeploymentInfo>,
>)
    ensures
        out.status == STATUS_OK,
        views(out.body@) == deployment_rows(fetched),
        out.diagnostic.deep_view() == failure_note("deployments"@, fetched),
{
    let mut body: Vec<DeploymentInfo> = Vec::new();
    match &fetched {
        Ok(items) => {
            let mut i: usize = 0;
            while i < items.len()
                invariant
                    i <= items.len(),
                    views(body@) == items@.take(i as int).map_values(
                        |dep: Deployment| deployment_view(dep, dep.metadata.created_text()),
                    ),
                decreases items.len() - i,
            {
                let row = project_deployment(&items[i]);
                proof {
                    lemma_views_push(
                        body@,
                        row,
                        items@,
                        |dep: Deployment| deployment_view(dep, dep.metadata.created_text()),
                        i as int,
                    );
                }
                body.push(row);
                i += 1;
            }
            assert(items@.take(i as int) =~= items@);
            Reply { status: STATUS_OK, body, diagnostic: None }
        },
        Err(error) => {
            assert(views(body@) =~= deployment_rows(fetched));
            Reply { status: STATUS_OK, body, diagnostic: note_failure("deployments", error) }
        },
    }
}

/// The rows of the config-map list.
pub open spec fn config_map_rows(fetched: Result<Vec<ConfigMap>, String>) -> Seq<
    <ConfigMapInfo as View>::V,
> {
    fetched_items(fetched).map_values(
        |cm: ConfigMap| config_map_view(cm, cm.metadata.created_text()),
    )
}

/// `GET /api/configmaps/{namespace}`.
pub fn get_configmaps(fetched: Result<Vec<ConfigMap>, String>) -> (out: Reply<Vec<ConfigMapInfo>>)
    ensures
        out.status == STATUS_OK,
        views(out.body@) == config_map_rows(fetched),
        out.diagnostic.deep_view() == failure_note("configmaps"@, fetched),
{
    let mut body: Vec<ConfigMapInfo> = Vec::new();
    match &fetched {
        Ok(items) => {
            let mut i: usize = 0;
            while i < items.len()
                invariant
                    i <= items.len(),
                    views(body@) == items@.take(i as int).map_values(
                        |cm: ConfigMap| config_map_view(cm, cm.metadata.created_text()),
                    ),
                decreases items.len() - i,
            {
                let row = project_config_map(&items[i]);
                proof {
                    lemma_views_push(
                        body@,
                        row,
                        items@,
                        |cm: ConfigMap| config_map_view(cm, cm.metadata.created_text()),
                        i as int,
                    );
                }
                body.push(row);
                i += 1;
            }
            assert(items@.take(i as int) =~= items@);
            Reply { status: STATUS_OK, body, diagnostic: None }
        },
        Err(error) => {
            assert(views(body@) =~= config_map_rows(fetched));
            Reply { status: STATUS_OK, body, diagnostic: note_failure("configmaps", error) }
        },
    }
}

/// The rows of the network-policy list.
pub open spec fn network_policy_rows(fetched: Result<Vec<NetworkPolicy>, String>) -> Seq<
    <NetworkPolicyInfo as View>::V,
> {
    fetched_items(fetched).map_values(
        |np: NetworkPolicy| network_policy_view(np, np.metadata.created_text()),
    )
}

/// `GET /api/networkpolicies/{namespace}`.
pub fn get_network_policies(fetched: Result<Vec<NetworkPolicy>, String>) -> (out: Reply<
    Vec<NetworkPolicyInfo>,
>)
    ensures
        out.status == STATUS_OK,
        views(out.body@) == network_policy_rows(fetched),
        out.diagnostic.deep_view() == failure_note("network policies"@, fetched),
{
    let mut body: Vec<NetworkPolicyInfo> = Vec::new();
    match &fetched {
        Ok(items) => {
            let mut i: usize = 0;
            while i < items.len()
                invariant
                    i <= items.len(),
                    views(body@) == items@.take(i as int).map_values(
                        |np: NetworkPolicy| network_policy_view(np, np.metadata.created_text()),
                    ),
                decreases items.len() - i,
            {
                let row = project_network_policy(&items[i]);
                proof {
                    lemma_views_push(
                        body@,
                        row,
                        items@,
                        |np: NetworkPolicy| network_policy_view(np, np.metadata.created_text()),
                        i as int,
                    );
                }
                body.push(row);
                i += 1;
            }
            assert(items@.take(i as int) =~= items@);
            Reply { status: STATUS_OK, body, diagnostic: None }
        },
        Err(error) => {
            assert(views(body@) =~= network_policy_rows(fetched));
            Reply {
                status: STATUS_OK,
                body,
                diagnostic: note_failure("network policies", error),
            }
        },
    }
}

/// Whether `body` is the right body for the pod-detail endpoint: the
/// detail view of the pod that was fetched, or the error object that says
/// `Pod not found` where the call failed, whatever made it fail.
pub open spec fn is_pod_details_body(body: PodDetailsBody, fetched: Result<Pod, String>) -> bool {
    match fetched {
        Ok(pod) => body matches PodDetailsBody::Found(details) && details@ == pod_details_view(
            pod,
            pod.metadata.created_text(),
        ),
        Err(_) => body matches PodDetailsBody::Missing(object) && object.error@
            == "Pod not found"@,
    }
}

/// `GET /api/pod/{namespace}/{name}`.
pub fn get_pod_details(fetched: Result<Pod, String>) -> (out: Reply<PodDetailsBody>)
    ensures
        out.status == STATUS_OK,
        is_pod_details_body(out.body, fetched),
        out.diagnostic.deep_view() == failure_note("pod details"@, fetched),
{
    match &fetched {
        Ok(pod) => Reply {
            status: STATUS_OK,
            body: PodDetailsBody::Found(project_pod_details(pod)),
            diagnostic: None,
        },
        Err(error) => Reply {
            status: STATUS_OK,
            body: PodDetailsBody::Missing(ErrorBody { error: "Pod not found".to_owned() }),
            diagnostic: note_failure("pod details", error),
        },
    }
}

/// The body of the log endpoint: the pod it was asked about, and its log
/// or, where the call failed, `Error fetching logs: <error>` in its
/// place.
pub open spec fn pod_logs_view(
    namespace: Seq<char>,
    pod_name: Seq<char>,
    fetched: Result<String, String>,
) -> PodLogsView {
    PodLogsView {
        pod_name,
        namespace,
        logs: match fetched {
            Ok(logs) => logs@,
            Err(error) => "Error fetching logs: "@ + error@,
        },
    }
}

/// `GET /api/pod/{namespace}/{name}/logs`.
pub fn get_pod_logs(namespace: String, pod_name: String, fetched: Result<String, String>) -> (out:
    Reply<PodLogs>)
    ensures
        out.status == STATUS_OK,
        out.body@ == pod_logs_view(namespace@, pod_name@, fetched),
        out.diagnostic.deep_view() == failure_note("pod logs"@, fetched),
{
    match fetched {
        Ok(logs) => Reply {
            status: STATUS_OK,
            body: PodLogs { pod_name, namespace, logs },
            diagnostic: None,
        },
        Err(error) => {
            let diagnostic = note_failure("pod logs", &error);
            let mut logs = "Error fetching logs: ".to_owned();
            logs.append(error.as_str());
            Reply { status: STATUS_OK, body: PodLogs { pod_name, namespace, logs }, diagnostic }
        },
    }
}

} // verus!
