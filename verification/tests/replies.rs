use k8s_dashboard::cluster::{
    ConfigMap, ContainerStatus, Deployment, Namespace, NetworkPolicy, ObjectMeta, Pod, PodStatus,
    Service,
};
use k8s_dashboard::handlers::{
    check_all_restarts, get_configmaps, get_deployments, get_namespaces, get_network_policies,
    get_pod_details, get_pod_logs, get_pods, get_services, PodDetailsBody, STATUS_OK,
};
use k8s_dashboard::router::{index_location, route, Route};

fn meta(name: &str) -> ObjectMeta {
    ObjectMeta {
        name: Some(name.to_string()),
        generate_name: None,
        namespace: Some("prod".to_string()),
        labels: None,
        annotations: None,
        creation_timestamp: None,
    }
}

fn pod(name: &str) -> Pod {
    Pod { metadata: meta(name), spec: None, status: None }
}

#[test]
fn list_endpoints_project_every_object_in_order() {
    let reply = get_namespaces(Ok(vec![
        Namespace { metadata: meta("a"), status: None },
        Namespace { metadata: meta("b"), status: None },
    ]));
    assert_eq!(reply.status, 200);
    assert_eq!(reply.diagnostic, None);
    let names: Vec<&str> = reply.body.iter().map(|row| row.name.as_str()).collect();
    assert_eq!(names, vec!["a", "b"]);

    let reply = get_pods(Ok(vec![pod("web-a"), pod("web-b"), pod("web-c")]));
    let names: Vec<&str> = reply.body.iter().map(|row| row.name.as_str()).collect();
    assert_eq!(names, vec!["web-a", "web-b", "web-c"]);
    assert_eq!(reply.body[0].phase, "Unknown");

    let reply = get_services(Ok(vec![Service { metadata: meta("s"), spec: None }]));
    assert_eq!(reply.body.len(), 1);
    assert_eq!(reply.body[0].service_type, "ClusterIP");

    let reply = get_deployments(Ok(vec![Deployment { metadata: meta("d"), spec: None, status: None }]));
    assert_eq!(reply.body[0].name, "d");

    let reply = get_configmaps(Ok(vec![ConfigMap { metadata: meta("c"), data: None }]));
    assert_eq!(reply.body[0].name, "c");

    let reply = get_network_policies(Ok(vec![NetworkPolicy { metadata: meta("n"), spec: None }]));
    assert_eq!(reply.body[0].name, "n");
    assert_eq!(reply.status, STATUS_OK);
}

#[test]
fn empty_list_and_failed_call_give_the_same_response() {
    // From the response alone the two cases cannot be told apart: both are
    // status 200 with no rows.  Only the server's log line differs.
    let empty = get_pods(Ok(vec![]));
    let failed = get_pods(Err("connection refused".to_string()));
    assert_eq!(empty.status, 200);
    assert_eq!(failed.status, 200);
    assert!(empty.body.is_empty());
    assert!(failed.body.is_empty());
    assert_eq!(empty.diagnostic, None);
    assert_eq!(failed.diagnostic, Some("Error fetching pods: connection refused".to_string()));
}

#[test]
fn every_list_endpoint_answers_a_failure_with_an_empty_list() {
    let reply = get_namespaces(Err("boom".to_string()));
    assert!(reply.body.is_empty() && reply.status == 200);
    assert_eq!(reply.diagnostic, Some("Error fetching namespaces: boom".to_string()));
    let reply = get_services(Err("boom".to_string()));
    assert!(reply.body.is_empty() && reply.status == 200);
    assert_eq!(reply.diagnostic, Some("Error fetching services: boom".to_string()));
    let reply = get_deployments(Err("boom".to_string()));
    assert!(reply.body.is_empty() && reply.status == 200);
    assert_eq!(reply.diagnostic, Some("Error fetching deployments: boom".to_string()));
    let reply = get_configmaps(Err("boom".to_string()));
    assert!(reply.body.is_empty() && reply.status == 200);
    assert_eq!(reply.diagnostic, Some("Error fetching configmaps: boom".to_string()));
    let reply = get_network_policies(Err("boom".to_string()));
    assert!(reply.body.is_empty() && reply.status == 200);
    assert_eq!(reply.diagnostic, Some("Error fetching network policies: boom".to_string()));
}

#[test]
fn pod_detail_lookup_of_missing_pod_says_not_found_with_status_200() {
    let reply = get_pod_details(Err("pods \"ghost\" not found".to_string()));
    assert_eq!(reply.status, 200);
    match reply.body {
        PodDetailsBody::Missing(object) => assert_eq!(object.error, "Pod not found"),
        PodDetailsBody::Found(_) => panic!("a failed lookup found a pod"),
    }
    assert_eq!(
        reply.diagnostic,
        Some("Error fetching pod details: pods \"ghost\" not found".to_string())
    );
}

#[test]
fn pod_detail_lookup_of_a_pod_shows_it() {
    let reply = get_pod_details(Ok(pod("web")));
    assert_eq!(reply.status, 200);
    assert_eq!(reply.diagnostic, None);
    match reply.body {
        PodDetailsBody::Found(details) => {
            assert_eq!(details.name, "web");
            assert_eq!(details.namespace, "prod");
        }
        PodDetailsBody::Missing(_) => panic!("a fetched pod went missing"),
    }
}

#[test]
fn pod_logs_pass_the_log_through() {
    let reply = get_pod_logs("prod".to_string(), "web".to_string(), Ok("line 1\nline 2\n".to_string()));
    assert_eq!(reply.status, 200);
    assert_eq!(reply.body.pod_name, "web");
    assert_eq!(reply.body.namespace, "prod");
    assert_eq!(reply.body.logs, "line 1\nline 2\n");
    assert_eq!(reply.diagnostic, None);
}

#[test]
fn pod_logs_failure_puts_the_error_in_the_log_field() {
    let reply = get_pod_logs("prod".to_string(), "web".to_string(), Err("timeout".to_string()));
    assert_eq!(reply.status, 200);
    assert_eq!(reply.body.pod_name, "web");
    assert_eq!(reply.body.namespace, "prod");
    assert_eq!(reply.body.logs, "Error fetching logs: timeout");
    assert_eq!(reply.diagnostic, Some("Error fetching pod logs: timeout".to_string()));
}

#[test]
fn restarts_of_a_whole_list_are_checked() {
    let heavy = |count: i32| Pod {
        metadata: meta("p"),
        spec: None,
        status: Some(PodStatus {
            phase: None,
            host_ip: None,
            container_statuses: Some(vec![
                ContainerStatus { ready: false, restart_count: count },
                ContainerStatus { ready: false, restart_count: count },
            ]),
        }),
    };
    assert!(check_all_restarts(&Ok(vec![heavy(1), heavy(1_000_000_000)])));
    assert!(!check_all_restarts(&Ok(vec![heavy(1), heavy(2_000_000_000), heavy(0)])));
    assert!(check_all_restarts(&Err("down".to_string())));
    assert!(check_all_restarts(&Ok(vec![])));
}

#[test]
fn root_path_redirects_to_the_entry_page() {
    assert!(matches!(route("GET", "/"), Route::Index));
    assert!(matches!(route("POST", "/"), Route::Index));
    assert!(matches!(route("GET", ""), Route::Index));
    assert_eq!(index_location(), "/index.html");
}

#[test]
fn unmatched_paths_fall_through_to_the_assets() {
    assert!(matches!(route("GET", "/index.html"), Route::Asset));
    assert!(matches!(route("GET", "/api"), Route::Asset));
    assert!(matches!(route("GET", "/api/unknown/x"), Route::Asset));
    assert!(matches!(route("GET", "/api/pods"), Route::Asset));
    assert!(matches!(route("GET", "/api/pods/"), Route::Asset));
    assert!(matches!(route("GET", "/api/pod/prod"), Route::Asset));
    assert!(matches!(route("GET", "//api/namespaces"), Route::Asset));
    assert!(matches!(route("GET", "/apis/namespaces"), Route::Asset));
    assert!(matches!(route("POST", "/api/namespaces"), Route::Asset));
    assert!(matches!(route("get", "/api/namespaces"), Route::Asset));
}

#[test]
fn api_routes_carry_their_parameters() {
    assert!(matches!(route("GET", "/api/namespaces"), Route::Namespaces));
    assert!(matches!(route("GET", "/api/namespaces/"), Route::Namespaces));
    assert!(matches!(route("GET", "api/namespaces"), Route::Namespaces));
    match route("GET", "/api/pods/kube-system") {
        Route::Pods(namespace) => assert_eq!(namespace, "kube-system"),
        other => panic!("went to {:?}", other),
    }
    match route("GET", "/api/services/prod") {
        Route::Services(namespace) => assert_eq!(namespace, "prod"),
        other => panic!("went to {:?}", other),
    }
    match route("GET", "/api/deployments/prod/extra") {
        Route::Deployments(namespace) => assert_eq!(namespace, "prod"),
        other => panic!("went to {:?}", other),
    }
    match route("GET", "/api/configmaps/d\u{e9}v") {
        Route::ConfigMaps(namespace) => assert_eq!(namespace, "d\u{e9}v"),
        other => panic!("went to {:?}", other),
    }
    match route("GET", "/api/networkpolicies/prod") {
        Route::NetworkPolicies(namespace) => assert_eq!(namespace, "prod"),
        other => panic!("went to {:?}", other),
    }
}

#[test]
fn pod_routes_tell_details_from_logs() {
    match route("GET", "/api/pod/prod/web-1") {
        Route::PodDetails(namespace, name) => {
            assert_eq!(namespace, "prod");
            assert_eq!(name, "web-1");
        }
        other => panic!("went to {:?}", other),
    }
    match route("GET", "/api/pod/prod/web-1/logs") {
        Route::PodLogs(namespace, name) => {
            assert_eq!(namespace, "prod");
            assert_eq!(name, "web-1");
        }
        other => panic!("went to {:?}", other),
    }
    assert!(matches!(route("GET", "/api/pod/prod/web-1/events"), Route::PodDetails(_, _)));
    assert!(matches!(route("GET", "/api/pod/prod/web-1/"), Route::PodDetails(_, _)));
    assert!(matches!(route("GET", "/api/pod/prod/web-1/logs/tail"), Route::PodLogs(_, _)));
    assert!(matches!(route("GET", "/api/pod/prod//logs"), Route::Asset));
}
