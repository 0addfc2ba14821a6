use podlogs::clusters::{get_clusters, ContextFacts, NamedClusterFacts};
use podlogs::containers::{
    container_details, get_pod_details, ContainerFacts, EnvFromFacts, EnvSourceFacts, EnvVarFacts,
    PodDetailFacts, PortFacts,
};
use podlogs::deployments::{
    deployment_info, get_deployment_details, label_selector, namespace_info, DeploymentFacts,
};
use podlogs::models::ResourceRequirements;
use podlogs::numtext::decimal_text;
use podlogs::pods::{
    get_age, get_pod_status, get_ready_count, get_restart_count, pod_info, ContainerStateFacts,
    ContainerStatusFacts, PodFacts,
};
use std::collections::{BTreeMap, HashMap};

fn status(name: &str, ready: bool, restarts: i32, state: Option<ContainerStateFacts>) -> ContainerStatusFacts {
    ContainerStatusFacts { name: name.to_string(), ready, restart_count: restarts, state }
}

fn waiting(reason: Option<&str>) -> Option<ContainerStateFacts> {
    Some(ContainerStateFacts {
        running: false,
        waiting: Some(reason.map(|r| r.to_string())),
        terminated: None,
    })
}

fn running() -> Option<ContainerStateFacts> {
    Some(ContainerStateFacts { running: true, waiting: None, terminated: None })
}

fn pod(statuses: Vec<ContainerStatusFacts>) -> PodFacts {
    PodFacts {
        name: Some("web-1".to_string()),
        namespace: Some("prod".to_string()),
        deleting: false,
        phase: Some("Running".to_string()),
        reason: None,
        ip: None,
        node: Some("node-a".to_string()),
        containers: vec!["app".to_string(), "proxy".to_string()],
        container_statuses: statuses,
        age_seconds: 7200,
    }
}

#[test]
fn pod_status_rules() {
    let mut p = pod(vec![status("app", true, 0, running())]);
    assert_eq!(get_pod_status(&p), "Running");
    p.container_statuses.push(status("proxy", false, 3, waiting(Some("CrashLoopBackOff"))));
    assert_eq!(get_pod_status(&p), "CrashLoopBackOff");
    p.deleting = true;
    assert_eq!(get_pod_status(&p), "Terminating");
    let mut q = pod(vec![status("app", false, 0, waiting(Some("PodInitializing")))]);
    q.reason = Some("Evicted".to_string());
    assert_eq!(get_pod_status(&q), "Evicted");
    q.reason = Some("Other".to_string());
    q.phase = None;
    assert_eq!(get_pod_status(&q), "Unknown");
    let t = pod(vec![status(
        "app",
        false,
        0,
        Some(ContainerStateFacts {
            running: false,
            waiting: None,
            terminated: Some(Some("ContainerStatusUnknown".to_string())),
        }),
    )]);
    assert_eq!(get_pod_status(&t), "ContainerStatusUnknown");
}

#[test]
fn counts_and_age() {
    let p = pod(vec![status("app", true, 2, running()), status("proxy", false, 5, None)]);
    assert_eq!(get_ready_count(&p), (1, 2));
    assert_eq!(get_restart_count(&p), 7);
    assert_eq!(get_age(200000), "2d");
    assert_eq!(get_age(7200), "2h");
    assert_eq!(get_age(61), "1m");
    assert_eq!(get_age(5), "5s");
    assert_eq!(get_age(-3), "-3s");
    assert_eq!(decimal_text(0), "0");
    assert_eq!(decimal_text(-120), "-120");
    assert_eq!(decimal_text(i64::MIN), "-9223372036854775808");
}

#[test]
fn pod_summary() {
    let p = pod(vec![status("app", true, 1, running())]);
    let info = pod_info(&p);
    assert_eq!(info.name, "web-1");
    assert_eq!(info.namespace, "prod");
    assert_eq!(info.ready, "1/2");
    assert_eq!(info.restarts, 1);
    assert_eq!(info.age, "2h");
    assert_eq!(info.ip, "");
    assert_eq!(info.node, "node-a");
    assert_eq!(info.containers, vec!["app", "proxy"]);
}

#[test]
fn selector_joins_labels() {
    let labels = vec![
        ("app".to_string(), "web".to_string()),
        ("tier".to_string(), "front".to_string()),
    ];
    assert_eq!(label_selector(&labels), "app=web,tier=front");
    assert_eq!(label_selector(&Vec::new()), "");
}

fn deployment() -> DeploymentFacts {
    DeploymentFacts {
        name: Some("web".to_string()),
        namespace: None,
        replicas: Some(3),
        available_replicas: None,
        ready_replicas: Some(2),
        updated_replicas: None,
        strategy: None,
        min_ready_seconds: None,
        revision_history_limit: None,
        creation_timestamp: Some("2024-01-01T00:00:00+00:00".to_string()),
        labels: BTreeMap::new(),
        annotations: BTreeMap::new(),
        selector: BTreeMap::new(),
        conditions: Vec::new(),
    }
}

#[test]
fn deployment_defaults() {
    let info = deployment_info(&deployment());
    assert_eq!(info.name, "web");
    assert_eq!(info.namespace, "");
    assert_eq!(info.replicas, 3);
    assert_eq!(info.available_replicas, 0);
    assert_eq!(info.ready_replicas, 2);
    let d = get_deployment_details(deployment());
    assert_eq!(d.strategy, "RollingUpdate");
    assert_eq!(d.revision_history_limit, 10);
    assert_eq!(d.updated_replicas, 0);
    assert_eq!(d.creation_timestamp.as_deref(), Some("2024-01-01T00:00:00+00:00"));
    let n = namespace_info(&Some("kube-system".to_string()), &None);
    assert_eq!(n.name, "kube-system");
    assert_eq!(n.status, "Unknown");
}

fn no_resources() -> ResourceRequirements {
    ResourceRequirements { cpu_request: None, cpu_limit: None, memory_request: None, memory_limit: None }
}

#[test]
fn container_description() {
    let c = ContainerFacts {
        name: "app".to_string(),
        image: Some("nginx:1".to_string()),
        env: vec![
            EnvVarFacts { name: "A".to_string(), value: Some("1".to_string()), value_from: None },
            EnvVarFacts {
                name: "B".to_string(),
                value: None,
                value_from: Some(EnvSourceFacts {
                    secret_key_ref: Some(("creds".to_string(), "token".to_string())),
                    config_map_key_ref: None,
                    field_ref: None,
                    resource_field_ref: None,
                }),
            },
            EnvVarFacts {
                name: "C".to_string(),
                value: None,
                value_from: Some(EnvSourceFacts {
                    secret_key_ref: None,
                    config_map_key_ref: None,
                    field_ref: None,
                    resource_field_ref: None,
                }),
            },
        ],
        env_from: vec![EnvFromFacts {
            prefix: Some("X_".to_string()),
            config_map: Some("cfg".to_string()),
            secret: Some("sec".to_string()),
        }],
        ports: vec![PortFacts { name: None, container_port: 8080, protocol: None }],
        resources: ResourceRequirements {
            cpu_request: Some("100m".to_string()),
            cpu_limit: None,
            memory_request: None,
            memory_limit: Some("1Gi".to_string()),
        },
    };
    let statuses = vec![
        status("app", false, 1, waiting(None)),
        status("app", true, 4, running()),
    ];
    let d = container_details(&c, &statuses);
    assert_eq!(d.image, "nginx:1");
    assert!(d.ready);
    assert_eq!(d.restart_count, 4);
    assert_eq!(d.state, "Running");
    let env: Vec<(String, String, String)> =
        d.env_vars.iter().map(|e| (e.name.clone(), e.value.clone(), e.source.clone())).collect();
    assert_eq!(
        env,
        vec![
            ("A".to_string(), "1".to_string(), "Direct".to_string()),
            ("B".to_string(), "creds:token".to_string(), "Secret".to_string()),
            ("C".to_string(), "".to_string(), "Reference".to_string()),
            ("X_* (all keys)".to_string(), "from ConfigMap: cfg".to_string(), "ConfigMap".to_string()),
            ("X_* (all keys)".to_string(), "from Secret: sec".to_string(), "Secret".to_string()),
        ]
    );
    assert_eq!(d.ports[0].protocol, "TCP");
    assert_eq!(d.ports[0].container_port, 8080);
    assert_eq!(d.resources.cpu_request.as_deref(), Some("100m"));
    assert_eq!(d.resources.memory_limit.as_deref(), Some("1Gi"));

    let lone = container_details(&c, &Vec::new());
    assert!(!lone.ready);
    assert_eq!(lone.state, "Unknown");
    let w = container_details(&c, &vec![status("app", false, 0, waiting(None))]);
    assert_eq!(w.state, "Waiting");
}

#[test]
fn pod_detail_view() {
    let mut labels = HashMap::new();
    labels.insert("app".to_string(), "web".to_string());
    let facts = PodDetailFacts {
        pod: pod(vec![status("app", true, 0, running())]),
        start_time: Some("2024-01-01T00:00:00+00:00".to_string()),
        labels,
        annotations: HashMap::new(),
        containers: vec![ContainerFacts {
            name: "app".to_string(),
            image: None,
            env: Vec::new(),
            env_from: Vec::new(),
            ports: Vec::new(),
            resources: no_resources(),
        }],
        conditions: Vec::new(),
    };
    let d = get_pod_details(facts);
    assert_eq!(d.name, "web-1");
    assert_eq!(d.status, "Running");
    assert_eq!(d.labels.get("app").map(|s| s.as_str()), Some("web"));
    assert_eq!(d.containers.len(), 1);
    assert_eq!(d.containers[0].image, "");
    assert_eq!(d.containers[0].state, "Running");
}

#[test]
fn clusters_from_contexts() {
    let contexts = vec![
        ContextFacts { name: "dev".to_string(), cluster: Some("c1".to_string()) },
        ContextFacts { name: "broken".to_string(), cluster: None },
        ContextFacts { name: "prod".to_string(), cluster: Some("c9".to_string()) },
    ];
    let clusters = vec![
        NamedClusterFacts { name: "c1".to_string(), server: Some("https://dev:6443".to_string()) },
        NamedClusterFacts { name: "c1".to_string(), server: Some("https://other".to_string()) },
    ];
    let cs = get_clusters(&contexts, &clusters, &Some("prod".to_string()));
    assert_eq!(cs.len(), 2);
    assert_eq!(cs[0].name, "dev");
    assert_eq!(cs[0].server, "https://dev:6443");
    assert!(!cs[0].is_current);
    assert_eq!(cs[1].name, "prod");
    assert_eq!(cs[1].server, "");
    assert!(cs[1].is_current);
}
