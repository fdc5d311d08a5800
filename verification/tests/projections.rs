use k8s_dashboard::cluster::{
    ConfigMap, Container, ContainerPort, ContainerStatus, Deployment, DeploymentSpec,
    DeploymentStatus, IntOrString, LabelSelector, Namespace, NamespaceStatus, NetworkPolicy,
    NetworkPolicySpec, ObjectMeta, Pod, PodSpec, PodStatus, PolicyRule, ResourceRequirements,
    Service, ServicePort, ServiceSpec,
};
use k8s_dashboard::pods::{check_restarts, pod_info, project_pod, project_pod_details};
use k8s_dashboard::projectors::{
    config_map_info, project_config_map, project_deployment, project_namespace,
    project_network_policy, project_service, service_port,
};
use k8s_dashboard::time::Timestamp;
use std::collections::BTreeMap;

fn bare_meta() -> ObjectMeta {
    ObjectMeta {
        name: None,
        generate_name: None,
        namespace: None,
        labels: None,
        annotations: None,
        creation_timestamp: None,
    }
}

fn named(name: &str, namespace: &str) -> ObjectMeta {
    ObjectMeta {
        name: Some(name.to_string()),
        generate_name: None,
        namespace: Some(namespace.to_string()),
        labels: None,
        annotations: None,
        creation_timestamp: None,
    }
}

fn map_of(pairs: &[(&str, &str)]) -> BTreeMap<String, String> {
    let mut map = BTreeMap::new();
    for (key, value) in pairs {
        map.insert(key.to_string(), value.to_string());
    }
    map
}

fn status(ready: bool, restart_count: i32) -> ContainerStatus {
    ContainerStatus { ready, restart_count }
}

fn pod_with_statuses(statuses: Option<Vec<ContainerStatus>>) -> Pod {
    Pod {
        metadata: named("web", "prod"),
        spec: None,
        status: Some(PodStatus {
            phase: Some("Running".to_string()),
            host_ip: Some("10.0.0.7".to_string()),
            container_statuses: statuses,
        }),
    }
}

#[test]
fn namespace_without_optional_parts_gets_defaults() {
    let info = project_namespace(&Namespace { metadata: bare_meta(), status: None });
    assert_eq!(info.name, "");
    assert_eq!(info.status, "");
    assert_eq!(info.created_at, None);
    assert!(info.labels.is_empty());
}

#[test]
fn namespace_with_status_but_no_phase_has_empty_status() {
    let ns = Namespace { metadata: named("kube-system", ""), status: Some(NamespaceStatus { phase: None }) };
    assert_eq!(project_namespace(&ns).status, "");
}

#[test]
fn namespace_fields_are_carried_over() {
    let mut metadata = named("default", "");
    metadata.labels = Some(map_of(&[("app", "x"), ("tier", "y")]));
    metadata.creation_timestamp = Some(Timestamp { secs: 1_709_296_200, nanos: 0 });
    let ns = Namespace { metadata, status: Some(NamespaceStatus { phase: Some("Active".to_string()) }) };
    let info = project_namespace(&ns);
    assert_eq!(info.name, "default");
    assert_eq!(info.status, "Active");
    assert_eq!(info.created_at, Some("2024-03-01T12:30:00+00:00".to_string()));
    assert_eq!(info.labels, map_of(&[("app", "x"), ("tier", "y")]));
}

#[test]
fn name_falls_back_to_generate_name() {
    let mut metadata = bare_meta();
    metadata.generate_name = Some("job-".to_string());
    assert_eq!(metadata.name_any(), "job-");
    metadata.name = Some("job-abc".to_string());
    assert_eq!(metadata.name_any(), "job-abc");
}

#[test]
fn labels_round_trip_with_exactly_their_entries() {
    let mut metadata = named("web", "prod");
    metadata.labels = Some(map_of(&[("app", "x"), ("tier", "y")]));
    metadata.annotations = Some(map_of(&[("owner", "ops")]));
    let pod = Pod { metadata, spec: None, status: None };
    let row = project_pod(&pod);
    assert_eq!(row.labels.len(), 2);
    assert_eq!(row.labels.get("app"), Some(&"x".to_string()));
    assert_eq!(row.labels.get("tier"), Some(&"y".to_string()));
    let details = project_pod_details(&pod);
    assert_eq!(details.labels, map_of(&[("app", "x"), ("tier", "y")]));
    assert_eq!(details.annotations, map_of(&[("owner", "ops")]));
}

#[test]
fn pod_ready_ratio_two_of_three() {
    let pod = pod_with_statuses(Some(vec![status(true, 1), status(true, 0), status(false, 4)]));
    let row = project_pod(&pod);
    assert_eq!(row.ready, "2/3");
    assert_eq!(row.restarts, 5);
    assert_eq!(row.phase, "Running");
    assert_eq!(row.node_name, Some("10.0.0.7".to_string()));
    assert_eq!(row.name, "web");
    assert_eq!(row.namespace, "prod");
}

#[test]
fn pod_ready_ratio_zero_containers() {
    assert_eq!(project_pod(&pod_with_statuses(Some(vec![]))).ready, "0/0");
    assert_eq!(project_pod(&pod_with_statuses(None)).ready, "0/0");
}

#[test]
fn pod_ready_ratio_has_no_leading_zeros_and_carries() {
    let mut statuses = Vec::new();
    for i in 0..12 {
        statuses.push(status(i < 10, 0));
    }
    assert_eq!(project_pod(&pod_with_statuses(Some(statuses))).ready, "10/12");
}

#[test]
fn pod_without_status_gets_defaults() {
    let row = project_pod(&Pod { metadata: bare_meta(), spec: None, status: None });
    assert_eq!(row.phase, "Unknown");
    assert_eq!(row.ready, "0/0");
    assert_eq!(row.restarts, 0);
    assert_eq!(row.node_name, None);
    assert_eq!(row.created_at, None);
    assert!(row.labels.is_empty());
    assert_eq!(row.namespace, "");
}

#[test]
fn pod_info_takes_the_creation_text_as_given() {
    let pod = pod_with_statuses(None);
    assert_eq!(pod_info(&pod, Some("then".to_string())).created_at, Some("then".to_string()));
    assert_eq!(pod_info(&pod, None).created_at, None);
}

#[test]
fn restarts_that_do_not_fit_are_detected() {
    let fits = pod_with_statuses(Some(vec![status(true, i32::MAX), status(true, -1), status(true, 1)]));
    assert!(check_restarts(&fits));
    assert_eq!(project_pod(&fits).restarts, i32::MAX);
    let too_many = pod_with_statuses(Some(vec![status(true, i32::MAX), status(true, 1)]));
    assert!(!check_restarts(&too_many));
    let too_few = pod_with_statuses(Some(vec![status(true, i32::MIN), status(true, -1)]));
    assert!(!check_restarts(&too_few));
}

#[test]
fn service_ports_numeric_and_named_targets() {
    let svc = Service {
        metadata: named("web", "prod"),
        spec: Some(ServiceSpec {
            type_: None,
            cluster_ip: None,
            external_ips: None,
            ports: Some(vec![
                ServicePort { port: 80, target_port: Some(IntOrString::Int(8080)) },
                ServicePort { port: 443, target_port: Some(IntOrString::String("https".to_string())) },
            ]),
        }),
    };
    let info = project_service(&svc);
    assert_eq!(info.ports, "80:8080, 443:https");
    assert_eq!(info.service_type, "ClusterIP");
    assert_eq!(info.cluster_ip, "None");
    assert_eq!(info.external_ip, "<none>");
}

#[test]
fn service_port_without_target_and_with_negative_numbers() {
    assert_eq!(service_port(&ServicePort { port: 53, target_port: None }), "53:");
    assert_eq!(service_port(&ServicePort { port: 0, target_port: Some(IntOrString::Int(-7)) }), "0:-7");
    assert_eq!(
        service_port(&ServicePort { port: i32::MIN, target_port: Some(IntOrString::Int(i32::MAX)) }),
        "-2147483648:2147483647"
    );
}

#[test]
fn service_fields_and_first_external_ip() {
    let svc = Service {
        metadata: named("lb", "edge"),
        spec: Some(ServiceSpec {
            type_: Some("LoadBalancer".to_string()),
            cluster_ip: Some("10.1.2.3".to_string()),
            external_ips: Some(vec!["1.2.3.4".to_string(), "5.6.7.8".to_string()]),
            ports: Some(vec![]),
        }),
    };
    let info = project_service(&svc);
    assert_eq!(info.service_type, "LoadBalancer");
    assert_eq!(info.cluster_ip, "10.1.2.3");
    assert_eq!(info.external_ip, "1.2.3.4");
    assert_eq!(info.ports, "");
}

#[test]
fn service_without_spec_or_with_empty_external_ips_gets_defaults() {
    let info = project_service(&Service { metadata: bare_meta(), spec: None });
    assert_eq!(info.service_type, "ClusterIP");
    assert_eq!(info.cluster_ip, "None");
    assert_eq!(info.external_ip, "<none>");
    assert_eq!(info.ports, "");
    let empty = Service {
        metadata: bare_meta(),
        spec: Some(ServiceSpec { type_: None, cluster_ip: None, external_ips: Some(vec![]), ports: None }),
    };
    assert_eq!(project_service(&empty).external_ip, "<none>");
}

#[test]
fn deployment_counts_default_to_zero() {
    let info = project_deployment(&Deployment { metadata: bare_meta(), spec: None, status: None });
    assert_eq!(
        (info.ready_replicas, info.replicas, info.updated_replicas, info.available_replicas),
        (0, 0, 0, 0)
    );
    let partial = Deployment {
        metadata: named("api", "prod"),
        spec: Some(DeploymentSpec { replicas: None }),
        status: Some(DeploymentStatus {
            ready_replicas: Some(2),
            updated_replicas: None,
            available_replicas: Some(1),
        }),
    };
    let info = project_deployment(&partial);
    assert_eq!(
        (info.ready_replicas, info.replicas, info.updated_replicas, info.available_replicas),
        (2, 0, 0, 1)
    );
}

#[test]
fn deployment_counts_are_carried_over() {
    let dep = Deployment {
        metadata: named("api", "prod"),
        spec: Some(DeploymentSpec { replicas: Some(3) }),
        status: Some(DeploymentStatus {
            ready_replicas: Some(2),
            updated_replicas: Some(3),
            available_replicas: Some(1),
        }),
    };
    let info = project_deployment(&dep);
    assert_eq!(info.name, "api");
    assert_eq!(info.namespace, "prod");
    assert_eq!(
        (info.ready_replicas, info.replicas, info.updated_replicas, info.available_replicas),
        (2, 3, 3, 1)
    );
}

#[test]
fn config_map_lists_its_keys_in_order() {
    let cm = ConfigMap {
        metadata: named("settings", "prod"),
        data: Some(map_of(&[("zeta", "1"), ("alpha", "2"), ("Beta", "3"), ("alphabet", "4")])),
    };
    let info = project_config_map(&cm);
    assert_eq!(info.data_keys, vec!["Beta", "alpha", "alphabet", "zeta"]);
    let none = config_map_info(&ConfigMap { metadata: bare_meta(), data: None }, None);
    assert!(none.data_keys.is_empty());
}

#[test]
fn network_policy_counts_rules() {
    let np = NetworkPolicy {
        metadata: named("deny", "prod"),
        spec: Some(NetworkPolicySpec {
            pod_selector: LabelSelector { match_labels: Some(map_of(&[("role", "db")])) },
            ingress: Some(vec![PolicyRule {}, PolicyRule {}]),
            egress: None,
        }),
    };
    let info = project_network_policy(&np);
    assert_eq!(info.ingress_rules, 2);
    assert_eq!(info.egress_rules, 0);
    assert_eq!(info.pod_selector, map_of(&[("role", "db")]));
}

#[test]
fn network_policy_without_spec_gets_defaults() {
    let info = project_network_policy(&NetworkPolicy { metadata: bare_meta(), spec: None });
    assert_eq!(info.ingress_rules, 0);
    assert_eq!(info.egress_rules, 0);
    assert!(info.pod_selector.is_empty());
    let open = NetworkPolicy {
        metadata: bare_meta(),
        spec: Some(NetworkPolicySpec {
            pod_selector: LabelSelector { match_labels: None },
            ingress: None,
            egress: Some(vec![PolicyRule {}]),
        }),
    };
    let info = project_network_policy(&open);
    assert!(info.pod_selector.is_empty());
    assert_eq!((info.ingress_rules, info.egress_rules), (0, 1));
}

#[test]
fn pod_details_show_containers() {
    let pod = Pod {
        metadata: named("web", "prod"),
        spec: Some(PodSpec {
            node_name: Some("node-1".to_string()),
            containers: vec![
                Container {
                    name: "app".to_string(),
                    image: Some("nginx:1.25".to_string()),
                    ports: Some(vec![
                        ContainerPort { container_port: 80, protocol: None },
                        ContainerPort { container_port: 53, protocol: Some("UDP".to_string()) },
                    ]),
                    resources: Some(ResourceRequirements {
                        requests: Some(map_of(&[("memory", "128Mi"), ("cpu", "100m"), ("gpu", "1")])),
                    }),
                },
                Container { name: "sidecar".to_string(), image: None, ports: None, resources: None },
            ],
        }),
        status: Some(PodStatus { phase: Some("Pending".to_string()), host_ip: None, container_statuses: None }),
    };
    let details = project_pod_details(&pod);
    assert_eq!(details.node_name, "node-1");
    assert_eq!(details.status, "Pending");
    assert_eq!(details.containers.len(), 2);
    assert_eq!(details.containers[0].name, "app");
    assert_eq!(details.containers[0].image, "nginx:1.25");
    assert_eq!(details.containers[0].ports, vec!["80:TCP", "53:UDP"]);
    assert_eq!(details.containers[0].resources, "CPU: 100m / MEM: 128Mi");
    assert_eq!(details.containers[1].name, "sidecar");
    assert_eq!(details.containers[1].image, "");
    assert!(details.containers[1].ports.is_empty());
    assert_eq!(details.containers[1].resources, "CPU:  / MEM: ");
}

#[test]
fn container_resources_with_one_request_missing() {
    let pod = Pod {
        metadata: bare_meta(),
        spec: Some(PodSpec {
            node_name: None,
            containers: vec![
                Container {
                    name: "a".to_string(),
                    image: None,
                    ports: Some(vec![]),
                    resources: Some(ResourceRequirements { requests: Some(map_of(&[("memory", "1Gi")])) }),
                },
                Container {
                    name: "b".to_string(),
                    image: None,
                    ports: None,
                    resources: Some(ResourceRequirements { requests: None }),
                },
            ],
        }),
        status: None,
    };
    let details = project_pod_details(&pod);
    assert_eq!(details.containers[0].resources, "CPU:  / MEM: 1Gi");
    assert_eq!(details.containers[1].resources, "CPU:  / MEM: ");
    assert_eq!(details.node_name, "");
}

#[test]
fn pod_details_without_optional_parts_get_defaults() {
    let details = project_pod_details(&Pod { metadata: bare_meta(), spec: None, status: None });
    assert_eq!(details.name, "");
    assert_eq!(details.namespace, "");
    assert_eq!(details.node_name, "");
    assert_eq!(details.status, "");
    assert!(details.containers.is_empty());
    assert!(details.labels.is_empty());
    assert!(details.annotations.is_empty());
    assert_eq!(details.created_at, None);
}

#[test]
fn timestamps_render_as_rfc3339() {
    assert_eq!(
        Timestamp { secs: 0, nanos: 0 }.to_rfc3339(),
        Some("1970-01-01T00:00:00+00:00".to_string())
    );
    assert_eq!(
        Timestamp { secs: 1_709_296_200, nanos: 500_000_000 }.to_rfc3339(),
        Some("2024-03-01T12:30:00.500+00:00".to_string())
    );
    assert_eq!(
        Timestamp { secs: -1, nanos: 1 }.to_rfc3339(),
        Some("1969-12-31T23:59:59.000000001+00:00".to_string())
    );
}

#[test]
fn timestamps_outside_the_calendar_have_no_text() {
    assert_eq!(Timestamp { secs: i64::MAX, nanos: 0 }.to_rfc3339(), None);
    assert_eq!(Timestamp { secs: 0, nanos: 2_000_000_000 }.to_rfc3339(), None);
    let mut metadata = bare_meta();
    metadata.creation_timestamp = Some(Timestamp { secs: i64::MIN, nanos: 0 });
    assert_eq!(metadata.created_at(), None);
}
