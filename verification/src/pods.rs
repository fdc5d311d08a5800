//! Projections of pods: the row in the pod list, and the detail view with
//! its containers.

use crate::cluster::{Container, ContainerPort, ContainerStatus, Pod, ResourceRequirements};
use crate::models::{
    lemma_views_push, views, ContainerInfo, ContainerInfoView, PodDetails, PodDetailsView, PodInfo,
    PodInfoView,
};
use crate::string_map::{entries, find, listing, value_at};
use crate::text::{
    decimal, decimal_i32, decimal_usize, lemma_texts_push, or_default, or_empty, text_or, texts,
};
use vstd::prelude::*;
use vstd::string::*;

verus! {

// ------------------------------------------------------------------ pod rows
/// The container statuses a pod reports; none where the status or the
/// list is missing.
pub open spec fn statuses_of(pod: Pod) -> Seq<ContainerStatus> {
    match pod.status {
        Some(status) => match status.container_statuses {
            Some(statuses) => statuses@,
            None => Seq::empty(),
        },
        None => Seq::empty(),
    }
}

/// How many of the statuses report a ready container.
pub open spec fn ready_count(statuses: Seq<ContainerStatus>) -> nat {
    statuses.filter(|s: ContainerStatus| s.ready).len()
}

/// The restart counts of all the statuses, added up.
pub open spec fn restart_total(statuses: Seq<ContainerStatus>) -> int
    decreases statuses.len(),
{
    if statuses.len() == 0 {
        0
    } else {
        restart_total(statuses.drop_last()) + statuses.last().restart_count
    }
}

/// The ready ratio `ready/total`, such as `2/3`.
pub open spec fn ready_text(statuses: Seq<ContainerStatus>) -> Seq<char> {
    decimal(ready_count(statuses) as int) + "/"@ + decimal(statuses.len() as int)
}

/// Whether the restarts of a pod, added up, can be shown: the record
/// holds them in 32 bits.
pub open spec fn restarts_fit(pod: Pod) -> bool {
    i32::MIN <= restart_total(statuses_of(pod)) <= i32::MAX
}

/// The phase of a pod; `default` where the status or its phase is
/// missing.
pub open spec fn pod_phase(pod: Pod, default: Seq<char>) -> Seq<char> {
    match pod.status {
        Some(status) => text_or(status.phase, default),
        None => default,
    }
}

/// The row of a pod whose creation time reads `created_at`.  The node
/// column shows the address of the host the pod runs on.
pub open spec fn pod_view(pod: Pod, created_at: Option<Seq<char>>) -> PodInfoView {
    PodInfoView {
        name: pod.metadata.shown_name(),
        namespace: pod.metadata.shown_namespace(),
        phase: pod_phase(pod, "Unknown"@),
        ready: ready_text(statuses_of(pod)),
        restarts: restart_total(statuses_of(pod)),
        created_at,
        node_name: match pod.status {
            Some(status) => status.host_ip.deep_view(),
            None => None,
        },
        labels: pod.metadata.shown_labels(),
    }
}

/// Counts the ready containers and adds up the restarts.
pub fn tally(statuses: &Vec<ContainerStatus>) -> (out: (usize, i128))
    ensures
        out.0 == ready_count(statuses@),
        out.1 == restart_total(statuses@),
{
    let mut ready: usize = 0;
    let mut restarts: i128 = 0;
    let mut i: usize = 0;
    while i < statuses.len()
        invariant
            i <= statuses.len(),
            ready == ready_count(statuses@.take(i as int)),
            ready <= i,
            restarts == restart_total(statuses@.take(i as int)),
            -0x8000_0000 * i <= restarts <= 0x8000_0000 * i,
        decreases statuses.len() - i,
    {
        proof {
            let upto = statuses@.take(i + 1);
            assert(upto.drop_last() =~= statuses@.take(i as int));
            assert(upto =~= statuses@.take(i as int).push(statuses@[i as int]));
            statuses@.take(i as int).lemma_filter_len_push(
                |s: ContainerStatus| s.ready,
                statuses@[i as int],
            );
        }
        if statuses[i].ready {
            ready += 1;
        }
        restarts += statuses[i].restart_count as i128;
        i += 1;
    }
    assert(statuses@.take(i as int) =~= statuses@);
    (ready, restarts)
}

/// Whether the restarts of `pod` can be shown.
pub fn check_restarts(pod: &Pod) -> (out: bool)
    ensures
        out == restarts_fit(*pod),
{
    match &pod.status {
        Some(status) => match &status.container_statuses {
            Some(statuses) => {
                let (_, restarts) = tally(statuses);
                -0x8000_0000 <= restarts && restarts <= 0x7fff_ffff
            },
            None => true,
        },
        None => true,
    }
}

/// Builds the row of `pod`, given its creation time as text.
pub fn pod_info(pod: &Pod, created_at: Option<String>) -> (out: PodInfo)
    requires
        restarts_fit(*pod),
    ensures
        out@ == pod_view(*pod, created_at.deep_view()),
{
    let mut ready_containers: usize = 0;
    let mut total_containers: usize = 0;
    let mut restarts: i32 = 0;
    let mut phase = "Unknown".to_owned();
    let mut node_name: Option<String> = None;
    if let Some(status) = &pod.status {
        if let Some(statuses) = &status.container_statuses {
            let (ready, restarted) = tally(statuses);
            ready_containers = ready;
            total_containers = statuses.len();
            restarts = restarted as i32;
        }
        phase = or_default(&status.phase, "Unknown");
        if let Some(address) = &status.host_ip {
            node_name = Some(address.clone());
        }
    }
    assert(ready_count(Seq::<ContainerStatus>::empty()) == 0);
    let mut ready = decimal_usize(ready_containers);
    ready.append("/");
    let total_text = decimal_usize(total_containers);
    ready.append(total_text.as_str());
    assert(ready@ =~= ready_text(statuses_of(*pod)));
    PodInfo {
        name: pod.metadata.name_any(),
        namespace: pod.metadata.namespace_or_default(),
        phase,
        ready,
        restarts,
        created_at,
        node_name,
        labels: pod.metadata.labels(),
    }
}

/// The row of `pod`.
pub fn project_pod(pod: &Pod) -> (out: PodInfo)
    requires
        restarts_fit(*pod),
    ensures
        out@ == pod_view(*pod, pod.metadata.created_text()),
{
    pod_info(pod, pod.metadata.created_at())
}

// --------------------------------------------------------------- pod details
/// One container port as `containerPort:protocol`, the protocol being
/// `TCP` where none is given.
pub open spec fn container_port_text(port: ContainerPort) -> Seq<char> {
    decimal(port.container_port as int) + ":"@ + text_or(port.protocol, "TCP"@)
}

/// The ports of a container, each as text; none where the list is
/// missing.
pub open spec fn container_port_texts(ports: Option<Vec<ContainerPort>>) -> Seq<Seq<char>> {
    match ports {
        Some(ports) => ports@.map_values(|p: ContainerPort| container_port_text(p)),
        None => Seq::empty(),
    }
}

/// The requests of a container as a listing; empty where the container
/// asks for nothing.
pub open spec fn requests_of(resources: Option<ResourceRequirements>) -> Seq<(String, String)> {
    match resources {
        Some(resources) => match resources.requests {
            Some(requests) => listing(requests@),
            None => Seq::empty(),
        },
        None => Seq::empty(),
    }
}

/// The quantity requested of the resource called `name`; empty where none
/// is requested.
pub open spec fn quantity_text(requests: Seq<(String, String)>, name: Seq<char>) -> Seq<char> {
    match value_at(requests, name) {
        Some(quantity) => quantity,
        None => Seq::empty(),
    }
}

/// The resources line of a container: `CPU: <cpu> / MEM: <memory>`.
pub open spec fn resources_text(resources: Option<ResourceRequirements>) -> Seq<char> {
    "CPU: "@ + quantity_text(requests_of(resources), "cpu"@) + " / MEM: "@ + quantity_text(
        requests_of(resources),
        "memory"@,
    )
}

/// What is shown of one container.
pub open spec fn container_view(container: Container) -> ContainerInfoView {
    ContainerInfoView {
        name: container.name@,
        image: text_or(container.image, Seq::empty()),
        ports: container_port_texts(container.ports),
        resources: resources_text(container.resources),
    }
}

/// The containers of a pod, each as shown; none where the pod has no
/// specification.
pub open spec fn container_views(pod: Pod) -> Seq<ContainerInfoView> {
    match pod.spec {
        Some(spec) => spec.containers@.map_values(|c: Container| container_view(c)),
        None => Seq::empty(),
    }
}

/// The detail view of a pod whose creation time reads `created_at`.
pub open spec fn pod_details_view(pod: Pod, created_at: Option<Seq<char>>) -> PodDetailsView {
    PodDetailsView {
        name: pod.metadata.shown_name(),
        namespace: pod.metadata.shown_namespace(),
        labels: pod.metadata.shown_labels(),
        annotations: pod.metadata.shown_annotations(),
        node_name: match pod.spec {
            Some(spec) => text_or(spec.node_name, Seq::empty()),
            None => Seq::empty(),
        },
        status: pod_phase(pod, Seq::empty()),
        containers: container_views(pod),
        created_at,
    }
}

/// Renders the ports of a container.
pub fn container_ports(ports: &Option<Vec<ContainerPort>>) -> (out: Vec<String>)
    ensures
        texts(out@) == container_port_texts(*ports),
{
    let mut out: Vec<String> = Vec::new();
    match ports {
        Some(ports) => {
            let mut i: usize = 0;
            while i < ports.len()
                invariant
                    i <= ports.len(),
                    texts(out@) == ports@.take(i as int).map_values(
                        |p: ContainerPort| container_port_text(p),
                    ),
                decreases ports.len() - i,
            {
                let mut part = decimal_i32(ports[i].container_port);
                part.append(":");
                let protocol = or_default(&ports[i].protocol, "TCP");
                part.append(protocol.as_str());
                proof {
                    assert(part@ =~= container_port_text(ports@[i as int]));
                    lemma_texts_push(
                        out@,
                        part,
                        ports@,
                        |p: ContainerPort| container_port_text(p),
                        i as int,
                    );
                }
                out.push(part);
                i += 1;
            }
            assert(ports@.take(i as int) =~= ports@);
        },
        None => {
            assert(texts(out@) =~= Seq::<Seq<char>>::empty());
        },
    }
    out
}

/// Renders the resources line of a container.
pub fn resources_line(resources: &Option<ResourceRequirements>) -> (out: String)
    ensures
        out@ == resources_text(*resources),
{
    let requests: Vec<(String, String)> = match resources {
        Some(resources) => match &resources.requests {
            Some(requests) => entries(requests),
            None => Vec::new(),
        },
        None => Vec::new(),
    };
    assert(requests@ =~= requests_of(*resources));
    let cpu = or_empty(&find(&requests, "cpu"));
    let memory = or_empty(&find(&requests, "memory"));
    let mut out = "CPU: ".to_owned();
    out.append(cpu.as_str());
    out.append(" / MEM: ");
    out.append(memory.as_str());
    assert(out@ =~= resources_text(*resources));
    out
}

/// Builds what is shown of one container.
pub fn container_info(container: &Container) -> (out: ContainerInfo)
    ensures
        out@ == container_view(*container),
{
    ContainerInfo {
        name: container.name.clone(),
        image: or_empty(&container.image),
        ports: container_ports(&container.ports),
        resources: resources_line(&container.resources),
    }
}

/// Builds the detail view of `pod`, given its creation time as text.
pub fn pod_details(pod: &Pod, created_at: Option<String>) -> (out: PodDetails)
    ensures
        out@ == pod_details_view(*pod, created_at.deep_view()),
{
    let mut containers: Vec<ContainerInfo> = Vec::new();
    let mut node_name = String::new();
    match &pod.spec {
        Some(spec) => {
            node_name = or_empty(&spec.node_name);
            let mut i: usize = 0;
            while i < spec.containers.len()
                invariant
                    i <= spec.containers.len(),
                    views(containers@) == spec.containers@.take(i as int).map_values(
                        |c: Container| container_view(c),
                    ),
                decreases spec.containers.len() - i,
            {
                let shown = container_info(&spec.containers[i]);
                proof {
                    lemma_views_push(
                        containers@,
                        shown,
                        spec.containers@,
                        |c: Container| container_view(c),
                        i as int,
                    );
                }
                containers.push(shown);
                i += 1;
            }
            assert(spec.containers@.take(i as int) =~= spec.containers@);
        },
        None => {},
    }
    let status = match &pod.status {
        Some(status) => or_empty(&status.phase),
        None => String::new(),
    };
    let out = PodDetails {
        name: pod.metadata.name_any(),
        namespace: pod.metadata.namespace_or_default(),
        labels: pod.metadata.labels(),
        annotations: pod.metadata.annotations(),
        node_name,
        status,
        containers,
        created_at,
    };
    assert(out@.containers =~= container_views(*pod));
    out
}

/// The detail view of `pod`.
pub fn project_pod_details(pod: &Pod) -> (out: PodDetails)
    ensures
        out@ == pod_details_view(*pod, pod.metadata.created_text()),
{
    pod_details(pod, pod.metadata.created_at())
}

} // verus!
