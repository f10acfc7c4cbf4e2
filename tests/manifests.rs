use h2o_k8s::crd::{status_reported, ready_status, CustomImage, H2OSpec, Resources, ResourceMeta, H2OStatus, H2O};
use h2o_k8s::error::Error;
use h2o_k8s::template::{app_selector, command_args, container_args, h2o_ingress, h2o_stateful_set, leader_label, Label};

fn spec(version: Option<&str>, custom: Option<CustomImage>) -> H2OSpec {
    H2OSpec::new(2, version.map(|v| v.to_string()), Resources::new(2, "256Mi".to_string(), Some(90)), custom)
}

#[test]
fn stateful_set_for_command_line() {
    let set = h2o_stateful_set(&spec(Some("latest"), None), "test-deploy-h2o-cluster", "default").unwrap();
    assert_eq!(set.name, "test-deploy-h2o-cluster");
    assert_eq!(set.service_name, "test-deploy-h2o-cluster");
    assert_eq!(set.replicas, 2);
    assert_eq!(set.labels, vec![Label { key: "app".to_string(), value: "test-deploy-h2o-cluster".to_string() }]);
    assert_eq!(set.image, "h2oai/h2o-open-source-k8s:latest");
    assert_eq!(
        set.command,
        Some("[\"/bin/bash\", \"-c\", \"java -XX:+UseContainerSupport -XX:MaxRAMPercentage=90 -jar /opt/h2oai/h2o-3/h2o.jar\"]".to_string())
    );
    assert_eq!((set.readiness_path.as_str(), set.readiness_port), ("/kubernetes/isLeaderNode", 8081));
    let env: Vec<(String, String)> = set.env.iter().map(|e| (e.name.clone(), e.value.clone())).collect();
    assert_eq!(
        env,
        vec![
            ("H2O_KUBERNETES_SERVICE_DNS".to_string(), "test-deploy-h2o-cluster.default.svc.cluster.local".to_string()),
            ("H2O_NODE_LOOKUP_TIMEOUT".to_string(), "180".to_string()),
            ("H2O_NODE_EXPECTED_COUNT".to_string(), "2".to_string()),
            ("H2O_KUBERNETES_API_PORT".to_string(), "8081".to_string()),
        ]
    );
    let custom = h2o_stateful_set(&spec(Some("latest"), Some(CustomImage::new("example/x:1".to_string(), None))), "c", "n").unwrap();
    assert_eq!(custom.image, "example/x:1");
    assert_eq!(custom.command, None);
    assert!(matches!(h2o_stateful_set(&spec(None, None), "c", "n"), Err(Error::UserError(_))));
}

#[test]
fn ingress_and_selectors() {
    let ingress = h2o_ingress("h2o-k8s-test-cluster", "default");
    assert_eq!(ingress.path, "/h2o-k8s-test-cluster");
    assert_eq!(ingress.service_name, "h2o-k8s-test-cluster");
    assert_eq!(ingress.service_port, 80);
    assert_eq!(ingress.annotations.len(), 2);
    assert_eq!(app_selector("t1"), "app=t1");
    assert_eq!(leader_label("t1"), "t1-leader");
}

#[test]
fn reported_status() {
    let mut h2o = H2O {
        metadata: ResourceMeta { name: Some("a".to_string()), namespace: None, finalizers: None, deletion_timestamp: None },
        spec: spec(Some("latest"), None),
        status: None,
    };
    assert!(!status_reported(&h2o));
    h2o.status = Some(H2OStatus::new(Some("Pending".to_string()), None));
    assert!(!status_reported(&h2o));
    h2o.status = Some(ready_status(true));
    assert!(status_reported(&h2o));
}

#[test]
fn container_arguments() {
    assert_eq!(
        command_args("[\"/bin/bash\", \"-c\", \"java -jar h2o.jar\"]"),
        vec!["/bin/bash".to_string(), "-c".to_string(), "java -jar h2o.jar".to_string()]
    );
    assert_eq!(
        command_args("/bin/sleep 3600"),
        vec!["/bin/sh".to_string(), "-c".to_string(), "/bin/sleep 3600".to_string()]
    );
    assert_eq!(container_args(Some(vec!["a".to_string()]), "ignored"), vec!["a".to_string()]);
    assert_eq!(container_args(None, "run"), vec!["/bin/sh".to_string(), "-c".to_string(), "run".to_string()]);
}
