//! The display records the dashboard serves, one flat record per object.
//!
//! Every field of a record is always present; only `created_at` and
//! `node_name` may be `None`.  Each record has a view that reads its texts
//! as character sequences and its numbers as integers; the contracts of the
//! projections are stated over these views.

use crate::text::texts;
use std::collections::BTreeMap;
use vstd::prelude::*;

verus! {

/// The views of a sequence of records, in order.
pub open spec fn views<R: View>(records: Seq<R>) -> Seq<R::V> {
    records.map_values(|r: R| r@)
}

/// Building a list of records item by item: once the first `i` items are
/// shown, pushing the record of item `i` shows the first `i + 1`.
pub proof fn lemma_views_push<T, R: View>(
    records: Seq<R>,
    record: R,
    items: Seq<T>,
    show: spec_fn(T) -> R::V,
    i: int,
)
    requires
        0 <= i < items.len(),
        views(records) == items.take(i).map_values(show),
        record@ == show(items[i]),
    ensures
        views(records.push(record)) == items.take(i + 1).map_values(show),
{
    let shown = items.take(i + 1).map_values(show);
    let pushed = records.push(record);
    assert(views(records).len() == i);
    assert forall|j: int| 0 <= j < shown.len() implies views(pushed)[j] == shown[j] by {
        assert(views(pushed)[j] == pushed[j]@);
        assert(shown[j] == show(items.take(i + 1)[j]));
        if j < i {
            assert(views(records)[j] == items.take(i).map_values(show)[j]);
            assert(views(records)[j] == records[j]@);
            assert(pushed[j] == records[j]);
            assert(items.take(i)[j] == items.take(i + 1)[j]);
        } else {
            assert(pushed[j] == record);
            assert(items.take(i + 1)[j] == items[i]);
        }
    }
    assert(views(pushed) =~= shown);
}

/// One namespace.
#[derive(Debug)]
pub struct NamespaceInfo {
    pub name: String,
    pub status: String,
    pub created_at: Option<String>,
    pub labels: BTreeMap<String, String>,
}

#[verifier::ext_equal]
pub struct NamespaceInfoView {
    pub name: Seq<char>,
    pub status: Seq<char>,
    pub created_at: Option<Seq<char>>,
    pub labels: Map<String, String>,
}

impl View for NamespaceInfo {
    type V = NamespaceInfoView;

    open spec fn view(&self) -> NamespaceInfoView {
        NamespaceInfoView {
            name: self.name@,
            status: self.status@,
            created_at: self.created_at.deep_view(),
            labels: self.labels@,
        }
    }
}

/// One pod, as a row of the pod list.
#[derive(Debug)]
pub struct PodInfo {
    pub name: String,
    pub namespace: String,
    pub phase: String,
    pub ready: String,
    pub restarts: i32,
    pub created_at: Option<String>,
    pub node_name: Option<String>,
    pub labels: BTreeMap<String, String>,
}

#[verifier::ext_equal]
pub struct PodInfoView {
    pub name: Seq<char>,
    pub namespace: Seq<char>,
    pub phase: Seq<char>,
    pub ready: Seq<char>,
    pub restarts: int,
    pub created_at: Option<Seq<char>>,
    pub node_name: Option<Seq<char>>,
    pub labels: Map<String, String>,
}

impl View for PodInfo {
    type V = PodInfoView;

    open spec fn view(&self) -> PodInfoView {
        PodInfoView {
            name: self.name@,
            namespace: self.namespace@,
            phase: self.phase@,
            ready: self.ready@,
            restarts: self.restarts as int,
            created_at: self.created_at.deep_view(),
            node_name: self.node_name.deep_view(),
            labels: self.labels@,
        }
    }
}

/// One service.
#[derive(Debug)]
pub struct ServiceInfo {
    pub name: String,
    pub namespace: String,
    pub service_type: String,
    pub cluster_ip: String,
    pub external_ip: String,
    pub ports: String,
    pub created_at: Option<String>,
    pub labels: BTreeMap<String, String>,
}

#[verifier::ext_equal]
pub struct ServiceInfoView {
    pub name: Seq<char>,
    pub namespace: Seq<char>,
    pub service_type: Seq<char>,
    pub cluster_ip: Seq<char>,
    pub external_ip: Seq<char>,
    pub ports: Seq<char>,
    pub created_at: Option<Seq<char>>,
    pub labels: Map<String, String>,
}

impl View for ServiceInfo {
    type V = ServiceInfoView;

    open spec fn view(&self) -> ServiceInfoView {
        ServiceInfoView {
            name: self.name@,
            namespace: self.namespace@,
            service_type: self.service_type@,
            cluster_ip: self.cluster_ip@,
            external_ip: self.external_ip@,
            ports: self.ports@,
            created_at: self.created_at.deep_view(),
            labels: self.labels@,
        }
    }
}

/// One deployment.
#[derive(Debug)]
pub struct DeploymentInfo {
    pub name: String,
    pub namespace: String,
    pub ready_replicas: i32,
    pub replicas: i32,
    pub updated_replicas: i32,
    pub available_replicas: i32,
    pub created_at: Option<String>,
    pub labels: BTreeMap<String, String>,
}

#[verifier::ext_equal]
pub struct DeploymentInfoView {
    pub name: Seq<char>,
    pub namespace: Seq<char>,
    pub ready_replicas: int,
    pub replicas: int,
    pub updated_replicas: int,
    pub available_replicas: int,
    pub created_at: Option<Seq<char>>,
    pub labels: Map<String, String>,
}

impl View for DeploymentInfo {
    type V = DeploymentInfoView;

    open spec fn view(&self) -> DeploymentInfoView {
        DeploymentInfoView {
            name: self.name@,
            namespace: self.namespace@,
            ready_replicas: self.ready_replicas as int,
            replicas: self.replicas as int,
            updated_replicas: self.updated_replicas as int,
            available_replicas: self.available_replicas as int,
            created_at: self.created_at.deep_view(),
            labels: self.labels@,
        }
    }
}

/// One config map: the names of its keys, never its values.
#[derive(Debug)]
pub struct ConfigMapInfo {
    pub name: String,
    pub namespace: String,
    pub data_keys: Vec<String>,
    pub created_at: Option<String>,
    pub labels: BTreeMap<String, String>,
}

#[verifier::ext_equal]
pub struct ConfigMapInfoView {
    pub name: Seq<char>,
    pub namespace: Seq<char>,
    pub data_keys: Seq<Seq<char>>,
    pub created_at: Option<Seq<char>>,
    pub labels: Map<String, String>,
}

impl View for ConfigMapInfo {
    type V = ConfigMapInfoView;

    open spec fn view(&self) -> ConfigMapInfoView {
        ConfigMapInfoView {
            name: self.name@,
            namespace: self.namespace@,
            data_keys: texts(self.data_keys@),
            created_at: self.created_at.deep_view(),
            labels: self.labels@,
        }
    }
}

/// One network policy: whom it selects and how many rules it has.
#[derive(Debug)]
pub struct NetworkPolicyInfo {
    pub name: String,
    pub namespace: String,
    pub pod_selector: BTreeMap<String, String>,
    pub ingress_rules: usize,
    pub egress_rules: usize,
    pub created_at: Option<String>,
    pub labels: BTreeMap<String, String>,
}

#[verifier::ext_equal]
pub struct NetworkPolicyInfoView {
    pub name: Seq<char>,
    pub namespace: Seq<char>,
    pub pod_selector: Map<String, String>,
    pub ingress_rules: nat,
    pub egress_rules: nat,
    pub created_at: Option<Seq<char>>,
    pub labels: Map<String, String>,
}

impl View for NetworkPolicyInfo {
    type V = NetworkPolicyInfoView;

    open spec fn view(&self) -> NetworkPolicyInfoView {
        NetworkPolicyInfoView {
            name: self.name@,
            namespace: self.namespace@,
            pod_selector: self.pod_selector@,
            ingress_rules: self.ingress_rules as nat,
            egress_rules: self.egress_rules as nat,
            created_at: self.created_at.deep_view(),
            labels: self.labels@,
        }
    }
}

/// One container of a pod, in the detail view.
#[derive(Debug)]
pub struct ContainerInfo {
    pub name: String,
    pub image: String,
    pub ports: Vec<String>,
    pub resources: String,
}

#[verifier::ext_equal]
pub struct ContainerInfoView {
    pub name: Seq<char>,
    pub image: Seq<char>,
    pub ports: Seq<Seq<char>>,
    pub resources: Seq<char>,
}

impl View for ContainerInfo {
    type V = ContainerInfoView;

    open spec fn view(&self) -> ContainerInfoView {
        ContainerInfoView {
            name: self.name@,
            image: self.image@,
            ports: texts(self.ports@),
            resources: self.resources@,
        }
    }
}

/// One pod, in the detail view.
#[derive(Debug)]
pub struct PodDetails {
    pub name: String,
    pub namespace: String,
    pub labels: BTreeMap<String, String>,
    pub annotations: BTreeMap<String, String>,
    pub node_name: String,
    pub status: String,
    pub containers: Vec<ContainerInfo>,
    pub created_at: Option<String>,
}

#[verifier::ext_equal]
pub struct PodDetailsView {
    pub name: Seq<char>,
    pub namespace: Seq<char>,
    pub labels: Map<String, String>,
    pub annotations: Map<String, String>,
    pub node_name: Seq<char>,
    pub status: Seq<char>,
    pub containers: Seq<ContainerInfoView>,
    pub created_at: Option<Seq<char>>,
}

impl View for PodDetails {
    type V = PodDetailsView;

    open spec fn view(&self) -> PodDetailsView {
        PodDetailsView {
            name: self.name@,
            namespace: self.namespace@,
            labels: self.labels@,
            annotations: self.annotations@,
            node_name: self.node_name@,
            status: self.status@,
            containers: views(self.containers@),
            created_at: self.created_at.deep_view(),
        }
    }
}

/// The log of one pod, or the message that says why there is none.
#[derive(Debug)]
pub struct PodLogs {
    pub pod_name: String,
    pub namespace: String,
    pub logs: String,
}

#[verifier::ext_equal]
pub struct PodLogsView {
    pub pod_name: Seq<char>,
    pub namespace: Seq<char>,
    pub logs: Seq<char>,
}

impl View for PodLogs {
    type V = PodLogsView;

    open spec fn view(&self) -> PodLogsView {
        PodLogsView { pod_name: self.pod_name@, namespace: self.namespace@, logs: self.logs@ }
    }
}

} // verus!
