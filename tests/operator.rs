use h2o_k8s::bootstrap::{clustering_jar_path, compiled_versions, configmap_needs_delete, crd_check, crd_wait_step, CrdCheck, CrdWait, FATAL_EXIT_CODE};
use h2o_k8s::clustering::{
    cluster_healthy, cluster_status_poll, clustering_api_online, create_flatfile, flatfile_accepted, is_node_healthy,
    leader_ip, leader_label_patch, leader_pod_index, PollStep,
};
use h2o_k8s::controller::{
    error_policy, examine_h2o_for_actions, first_step, next_after, reconcile, status_after_failure, step_at,
    ControllerAction, Next, Step,
};
use h2o_k8s::crd::{has_deletion_stamp, has_h2o3_finalizer, is_ready, ready_status, Condition, CustomImage, H2OSpec, H2OStatus, Resources, ResourceMeta, H2O};
use h2o_k8s::error::Error;
use h2o_k8s::finalizer::{add_finalizer, finalizer_patch, finalizer_removal_patch, remove_finalizer};
use h2o_k8s::fleet::{creation_outcome, get_pod_ip, CreationOutcome, DeletionWatch, PodWatch, WatchedPod};
use h2o_k8s::template::{clustering_configmap, h2o_command, h2o_image, h2o_leader_service, h2o_pods, h2o_service, Label};

fn s1_spec() -> H2OSpec {
    H2OSpec::new(2, Some("latest".to_string()), Resources::new(1, "256Mi".to_string(), Some(90)), None)
}

fn resource(name: Option<&str>, finalizers: Option<Vec<&str>>, deleted: bool) -> H2O {
    H2O {
        metadata: ResourceMeta {
            name: name.map(|n| n.to_string()),
            namespace: Some("default".to_string()),
            finalizers: finalizers.map(|f| f.into_iter().map(|x| x.to_string()).collect()),
            deletion_timestamp: if deleted { Some("2024-01-01T00:00:00Z".to_string()) } else { None },
        },
        spec: s1_spec(),
        status: None,
    }
}

fn label(key: &str, value: &str) -> Label {
    Label { key: key.to_string(), value: value.to_string() }
}

#[test]
fn happy_path_renders_cluster() {
    let pods = h2o_pods(&s1_spec(), "t1", "default").unwrap();
    assert_eq!(pods.len(), 2);
    assert_eq!(pods[0].name, "t1-0");
    assert_eq!(pods[1].name, "t1-1");
    for pod in &pods {
        assert_eq!(pod.namespace, "default");
        assert_eq!(pod.labels, vec![label("app", "t1")]);
        assert_eq!(pod.image, "h2oai/h2o-open-source-k8s:latest");
        assert_eq!(
            pod.command,
            Some("[\"/bin/bash\", \"-c\", \"java -XX:+UseContainerSupport -XX:MaxRAMPercentage=90 -cp /opt/h2oai/h2o-3/h2o.jar:/opt/h2o-clustering/h2o-clustering.jar water.H2OApp\"]".to_string())
        );
        assert_eq!(pod.cpu, 1);
        assert_eq!(pod.memory, "256Mi");
        assert_eq!(pod.ports, vec![54321, 54322, 8080]);
        assert_eq!(pod.env[0].name, "H2O_ASSISTED_CLUSTERING_API_PORT");
        assert_eq!(pod.env[0].value, "8080");
        assert_eq!(pod.env[1].name, "H2O_ASSISTED_CLUSTERING_REST");
        assert_eq!(pod.env[1].value, "True");
        assert_eq!(pod.clustering_mount.volume_name, "h2o-clustering-volume");
        assert_eq!(pod.clustering_mount.config_map, "h2o-clustering");
        assert_eq!(pod.clustering_mount.mount_path, "/opt/h2o-clustering");
        assert!(pod.clustering_mount.read_only);
        assert_eq!(pod.restart_policy, "Never");
    }
    let headless = h2o_service("t1", "default");
    assert_eq!(headless.name, "t1");
    assert!(headless.headless);
    assert_eq!(headless.selector, vec![label("app", "t1")]);
    assert_eq!((headless.port, headless.target_port), (80, 54321));
    let leader = h2o_leader_service("t1", "default");
    assert_eq!(leader.name, "t1-leader");
    assert!(leader.headless);
    assert_eq!(leader.selector, vec![label("h2o_leader_node_pod", "t1-leader")]);
    let status = ready_status(true);
    assert_eq!(status.phase, Some("Running".to_string()));
    assert_eq!(status.conditions, Some(vec![Condition::new("Ready".to_string(), "true".to_string())]));
    assert_eq!(finalizer_patch(), "{\"metadata\":{\"finalizers\":[\"h2os.h2o.ai\"]}}");
}

#[test]
fn default_memory_percentage() {
    let spec = H2OSpec::new(1, Some("3.32.0.1".to_string()), Resources::new(2, "1Gi".to_string(), None), None);
    let command = h2o_command(&spec).unwrap();
    assert!(command.contains("-XX:MaxRAMPercentage=50 "));
    assert_eq!(h2o_image(&spec), Some("h2oai/h2o-open-source-k8s:3.32.0.1".to_string()));
}

#[test]
fn custom_image_overrides_version() {
    let custom = CustomImage::new("example/x:1".to_string(), Some("/bin/sleep 3600".to_string()));
    let spec = H2OSpec::new(2, Some("latest".to_string()), Resources::new(1, "256Mi".to_string(), Some(90)), Some(custom));
    let pods = h2o_pods(&spec, "t2", "default").unwrap();
    for pod in &pods {
        assert_eq!(pod.image, "example/x:1");
        assert_eq!(pod.command, Some("/bin/sleep 3600".to_string()));
    }
    let no_command = H2OSpec::new(1, None, Resources::new(1, "256Mi".to_string(), None), Some(CustomImage::new("example/y".to_string(), None)));
    assert_eq!(h2o_command(&no_command), None);
}

#[test]
fn missing_image_is_user_error() {
    let spec = H2OSpec::new(2, None, Resources::new(1, "256Mi".to_string(), None), None);
    assert!(matches!(h2o_pods(&spec, "t", "default"), Err(Error::UserError(_))));
}

#[test]
fn rendering_is_repeatable() {
    assert_eq!(h2o_pods(&s1_spec(), "t1", "default"), h2o_pods(&s1_spec(), "t1", "default"));
    assert_eq!(h2o_service("t1", "default"), h2o_service("t1", "default"));
}

#[test]
fn partial_creation_rolls_back() {
    let results = vec![
        Ok("t3-0".to_string()),
        Err(Error::KubeError("conflict".to_string())),
        Ok("t3-2".to_string()),
    ];
    assert_eq!(
        creation_outcome(results),
        CreationOutcome::RollBack {
            delete: vec!["t3-0".to_string(), "t3-2".to_string()],
            errors: vec![Error::KubeError("conflict".to_string())],
            surfaced: Error::DeploymentError("Kubernetes reported error: conflict".to_string()),
        }
    );
    let all_ok = vec![Ok("a-0".to_string()), Ok("a-1".to_string())];
    assert_eq!(creation_outcome(all_ok), CreationOutcome::Created(vec!["a-0".to_string(), "a-1".to_string()]));
    assert_eq!(creation_outcome(vec![]), CreationOutcome::Created(vec![]));
    let create = ControllerAction::Create;
    assert_eq!(
        next_after(create, 0, Err(Error::DeploymentError("t3".to_string()))),
        Next::Fail(Error::DeploymentError("t3".to_string()))
    );
}

#[test]
fn status_poll_times_out() {
    assert_eq!(cluster_status_poll(0, Some(204)), PollStep::RetryAfter(100));
    assert_eq!(cluster_status_poll(179_999, None), PollStep::RetryAfter(100));
    assert_eq!(cluster_status_poll(180_000, Some(204)), PollStep::TimedOut);
    assert_eq!(cluster_status_poll(200_000, Some(200)), PollStep::ReadStatus);
    assert_eq!(error_policy(&Error::Timeout("no leader".to_string())), Some(5));
    assert_eq!(error_policy(&Error::UserError("no image".to_string())), None);
}

#[test]
fn delete_path_steps() {
    let h2o = resource(Some("t1"), Some(vec!["h2os.h2o.ai"]), true);
    assert_eq!(examine_h2o_for_actions(&h2o), ControllerAction::Delete);
    let rec = reconcile(&h2o, "operator-ns").unwrap();
    assert_eq!(rec.action, ControllerAction::Delete);
    assert_eq!(rec.name, "t1");
    assert_eq!(rec.namespace, "default");
    let mut next = first_step(rec.action);
    let mut performed = vec![];
    let mut index = 0;
    while let Next::Perform(step) = next.clone() {
        performed.push(step);
        let outcome = if step == Step::DeleteLeaderService { Err(Error::KubeError("not found".to_string())) } else { Ok(()) };
        next = next_after(rec.action, index, outcome);
        index += 1;
    }
    assert_eq!(performed, vec![Step::DeleteLeaderService, Step::DeletePods, Step::AwaitPodsDeleted, Step::RemoveFinalizer]);
    assert_eq!(next, Next::Finish(None));
    let mut watch = DeletionWatch::new(2);
    assert!(!watch.is_done());
    assert!(!watch.deleted());
    assert!(watch.deleted());
    assert!(DeletionWatch::new(0).is_done());
    assert_eq!(finalizer_removal_patch(), "{\"metadata\":{\"finalizers\":null}}");
}

#[test]
fn create_path_steps() {
    let h2o = resource(Some("t1"), None, false);
    let rec = reconcile(&h2o, "operator-ns").unwrap();
    assert_eq!(rec.action, ControllerAction::Create);
    assert_eq!(rec.namespace, "operator-ns");
    assert_eq!(first_step(rec.action), Next::Perform(Step::CreatePods));
    assert_eq!(next_after(rec.action, 0, Ok(())), Next::Perform(Step::ClusterPods));
    assert_eq!(next_after(rec.action, 1, Ok(())), Next::Perform(Step::AddFinalizer));
    assert_eq!(next_after(rec.action, 2, Ok(())), Next::Perform(Step::SetReadyStatus));
    assert_eq!(next_after(rec.action, 3, Ok(())), Next::Finish(Some(10)));
    assert_eq!(step_at(rec.action, 4), None);
    assert!(matches!(reconcile(&resource(None, None, false), "ns"), Err(Error::UserError(_))));
}

#[test]
fn unfinalized_deletion_is_left_alone() {
    let h2o = resource(Some("t1"), None, true);
    assert!(has_deletion_stamp(&h2o));
    assert!(!has_h2o3_finalizer(&h2o));
    assert_eq!(examine_h2o_for_actions(&h2o), ControllerAction::Verify);
    assert_eq!(first_step(ControllerAction::Verify), Next::Finish(Some(5)));
    let other = resource(Some("t1"), Some(vec!["someone.else"]), true);
    assert_eq!(examine_h2o_for_actions(&other), ControllerAction::Verify);
    let clustered = resource(Some("t1"), Some(vec!["x", "h2os.h2o.ai"]), false);
    assert_eq!(examine_h2o_for_actions(&clustered), ControllerAction::Verify);
}

#[test]
fn flatfile_lists_each_pod_once() {
    let ips = vec!["10.0.0.1".to_string(), "10.0.0.2".to_string(), "10.0.0.3".to_string()];
    assert_eq!(create_flatfile(&ips), "10.0.0.1:54321\n10.0.0.2:54321\n10.0.0.3:54321");
    assert_eq!(create_flatfile(&vec!["10.1.1.1".to_string()]), "10.1.1.1:54321");
    assert_eq!(create_flatfile(&vec![]), "");
}

#[test]
fn api_gate_and_acceptance() {
    assert!(clustering_api_online(&vec![Some(204), Some(204)]));
    assert!(!clustering_api_online(&vec![Some(204), Some(200)]));
    assert!(!clustering_api_online(&vec![None]));
    assert!(flatfile_accepted(&vec![Some(200), Some(200)]));
    assert!(!flatfile_accepted(&vec![Some(200), Some(500)]));
    assert!(!flatfile_accepted(&vec![Some(200), None]));
}

#[test]
fn leader_is_labelled_once() {
    assert_eq!(leader_ip("10.0.0.2:54321"), Some("10.0.0.2".to_string()));
    assert_eq!(leader_ip("[fd00::1]:54321"), Some("fd00::1".to_string()));
    assert_eq!(leader_ip("10.0.0.2"), None);
    assert_eq!(leader_ip(":54321"), None);
    assert_eq!(leader_ip("10.0.0.2:99999"), None);
    assert_eq!(leader_ip("10.0.0.2:+1"), None);
    let pods = vec![
        ("t1-0".to_string(), "10.0.0.1".to_string()),
        ("t1-1".to_string(), "10.0.0.2".to_string()),
    ];
    assert_eq!(leader_pod_index(&pods, &"10.0.0.2".to_string()), Some(1));
    assert_eq!(leader_pod_index(&pods, &"10.0.0.9".to_string()), None);
    assert_eq!(
        leader_label_patch("t1"),
        "{\"metadata\":{\"labels\":{\"h2o_leader_node_pod\":\"t1-leader\"}}}"
    );
}

#[test]
fn recreated_cluster_is_fresh() {
    let first = h2o_pods(&s1_spec(), "t1", "default").unwrap();
    let again = h2o_pods(&s1_spec(), "t1", "default").unwrap();
    for pod in first.iter().chain(again.iter()) {
        assert!(pod.labels.iter().all(|l| l.key != "h2o_leader_node_pod"));
    }
    let recreated = resource(Some("t1"), None, false);
    assert_eq!(examine_h2o_for_actions(&recreated), ControllerAction::Create);
}

#[test]
fn pod_watch_deduplicates() {
    let mut watch = PodWatch::new(2);
    let first_pod = WatchedPod { name: "t1-0".to_string(), ip: None };
    assert!(!watch.observe(&first_pod));
    let first_pod = WatchedPod { name: "t1-0".to_string(), ip: Some("10.0.0.1".to_string()) };
    assert!(!watch.observe(&first_pod));
    assert!(!watch.observe(&first_pod));
    let renamed_pod = WatchedPod { name: "t1-0".to_string(), ip: Some("10.0.0.7".to_string()) };
    assert!(!watch.observe(&renamed_pod));
    assert_eq!(watch.found(), vec![("t1-0".to_string(), "10.0.0.7".to_string())]);
    let batch = vec![
        WatchedPod { name: "t1-0".to_string(), ip: Some("10.0.0.7".to_string()) },
        WatchedPod { name: "t1-1".to_string(), ip: Some("10.0.0.8".to_string()) },
        WatchedPod { name: "t1-2".to_string(), ip: Some("10.0.0.9".to_string()) },
    ];
    assert!(watch.observe_all(&batch));
    assert!(watch.is_done());
    assert_eq!(
        watch.found(),
        vec![("t1-0".to_string(), "10.0.0.7".to_string()), ("t1-1".to_string(), "10.0.0.8".to_string())]
    );
}

#[test]
fn crd_versions_decide_startup() {
    let v = |xs: &[&str]| Some(xs.iter().map(|x| x.to_string()).collect::<Vec<String>>());
    assert_eq!(crd_check(&v(&["v1alpha"])), CrdCheck::Fatal);
    assert_eq!(crd_check(&v(&["v1beta"])), CrdCheck::Proceed);
    assert_eq!(crd_check(&v(&["v1beta", "v1beta"])), CrdCheck::Proceed);
    assert_eq!(crd_check(&v(&["v1beta", "v1"])), CrdCheck::Fatal);
    assert_eq!(crd_check(&v(&[])), CrdCheck::Fatal);
    assert_eq!(crd_check(&None), CrdCheck::Install);
    assert_eq!(compiled_versions(), vec!["v1beta".to_string()]);
    assert_eq!(FATAL_EXIT_CODE, 1);
    assert_eq!(crd_wait_step(0, true), CrdWait::Ready);
    assert_eq!(crd_wait_step(1000, false), CrdWait::RetryAfter(500));
    assert_eq!(crd_wait_step(30_000, false), CrdWait::TimedOut);
}

#[test]
fn startup_resources() {
    assert_eq!(clustering_jar_path(Some("/jar".to_string()), true), Ok("/jar".to_string()));
    assert!(clustering_jar_path(None, true).is_err());
    assert_eq!(
        clustering_jar_path(Some("/x".to_string()), false),
        Err("Path leading to H2O assisted clustering module JAR /x does not represent a file.".to_string())
    );
    assert!(configmap_needs_delete(true));
    let cm = clustering_configmap("ops");
    assert_eq!((cm.name.as_str(), cm.namespace.as_str(), cm.key.as_str()), ("h2o-clustering", "ops", "h2o-clustering.jar"));
}

#[test]
fn finalizer_patches_are_idempotent() {
    let mut meta = resource(Some("t1"), Some(vec!["other"]), false).metadata;
    add_finalizer(&mut meta);
    let once = meta.clone();
    add_finalizer(&mut meta);
    assert_eq!(meta, once);
    assert_eq!(meta.finalizers, Some(vec!["h2os.h2o.ai".to_string()]));
    remove_finalizer(&mut meta);
    let removed = meta.clone();
    remove_finalizer(&mut meta);
    assert_eq!(meta, removed);
    assert_eq!(meta.finalizers, None);
    assert_eq!(meta.name, Some("t1".to_string()));
}

#[test]
fn readiness_and_health() {
    let mut h2o = resource(Some("t1"), None, false);
    assert!(!is_ready(&h2o));
    h2o.status = Some(ready_status(false));
    assert!(!is_ready(&h2o));
    h2o.status = Some(ready_status(true));
    assert!(is_ready(&h2o));
    h2o.status = Some(H2OStatus::new(None, Some(vec![])));
    assert!(!is_ready(&h2o));
    assert!(is_node_healthy(3, 0, 3));
    assert!(!is_node_healthy(3, 1, 3));
    assert!(cluster_healthy(2, 2, &vec![true, true]));
    assert!(!cluster_healthy(1, 2, &vec![true]));
    assert!(!cluster_healthy(2, 2, &vec![true, false]));
}

#[test]
fn pod_descriptions() {
    assert_eq!(get_pod_ip(&Some("p".to_string()), &Some("1.2.3.4".to_string())), "p : 1.2.3.4");
    assert_eq!(get_pod_ip(&None, &Some("1.2.3.4".to_string())), "Unnamed_pod : 1.2.3.4");
    assert_eq!(get_pod_ip(&Some("p".to_string()), &None), "p");
    assert_eq!(get_pod_ip(&None, &None), "Unknown pod name with unknown IP.");
}

#[test]
fn several_failures_surface_together() {
    let results = vec![
        Err(Error::KubeError("a".to_string())),
        Ok("x-1".to_string()),
        Err(Error::Timeout("b".to_string())),
    ];
    match creation_outcome(results) {
        CreationOutcome::RollBack { delete, errors, surfaced } => {
            assert_eq!(delete, vec!["x-1".to_string()]);
            assert_eq!(errors.len(), 2);
            assert_eq!(
                surfaced,
                Error::DeploymentError("Kubernetes reported error: a,Operation timed out. Reason: b".to_string())
            );
        }
        other => panic!("expected a rollback, got {:?}", other),
    }
}

#[test]
fn user_errors_are_reported_not_retried() {
    let status = status_after_failure(&Error::UserError("no image".to_string())).unwrap();
    assert_eq!(status.phase, Some("Pending".to_string()));
    assert_eq!(status.conditions, Some(vec![Condition::new("Ready".to_string(), "false".to_string())]));
    assert_eq!(status_after_failure(&Error::KubeError("busy".to_string())), None);
}
