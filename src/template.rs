//! Platform objects of an H2O cluster, rendered from its specification.
//!
//! Rendering is a function of the specification, the cluster name and the namespace alone.
use vstd::prelude::*;

use crate::crd::{opt_text, texts, H2OSpec};
use crate::error::Error;
use crate::text::{concat, concat3, copy_opt, decimal, decimal_text};

verus! {

/// Port of the H2O web API and of the nodes' clustering traffic.
pub const H2O_DEFAULT_PORT: u16 = 54321;
/// Second port that an H2O node listens on.
pub const H2O_SECONDARY_PORT: u16 = 54322;
/// Port of the assisted-clustering API that each pod serves while it boots.
pub const H2O_CLUSTERING_PORT: u16 = 8080;
/// Port that the services expose.
pub const SERVICE_PORT: u16 = 80;
/// Name of the ConfigMap holding the assisted-clustering module.
pub const H2O_CLUSTERING_CONFIG_MAP_NAME: &'static str = "h2o-clustering";
/// Key of the module's bytes inside that ConfigMap.
pub const H2O_CLUSTERING_JAR_FILE_NAME: &'static str = "h2o-clustering.jar";
/// Name of the pod volume that mounts the ConfigMap.
pub const CLUSTERING_VOLUME_NAME: &'static str = "h2o-clustering-volume";
/// Where that volume is mounted.
pub const CLUSTERING_MOUNT_PATH: &'static str = "/opt/h2o-clustering";
/// Label key that every pod and the headless service carry; its value is the cluster name.
pub const APP_LABEL: &'static str = "app";
/// Label key that marks the leader pod; its value is `<name>-leader`.
pub const LEADER_LABEL: &'static str = "h2o_leader_node_pod";
/// JVM memory share used when the specification names none, in percent.
pub const DEFAULT_MEMORY_PERCENTAGE: u8 = 50;

pub open spec fn official_image_prefix() -> Seq<char> {
    "h2oai/h2o-open-source-k8s:"@
}

pub open spec fn java_command_head() -> Seq<char> {
    "[\"/bin/bash\", \"-c\", \"java -XX:+UseContainerSupport -XX:MaxRAMPercentage="@
}

pub open spec fn java_command_tail() -> Seq<char> {
    " -cp /opt/h2oai/h2o-3/h2o.jar:/opt/h2o-clustering/h2o-clustering.jar water.H2OApp\"]"@
}

pub open spec fn leader_suffix() -> Seq<char> {
    "-leader"@
}

/// A `key=value` label, or a selector term.
#[derive(Debug, Clone, PartialEq)]
pub struct Label {
    pub key: String,
    pub value: String,
}

/// An environment variable of a container.
#[derive(Debug, Clone, PartialEq)]
pub struct EnvVar {
    pub name: String,
    pub value: String,
}

pub open spec fn label_view(l: Label) -> (Seq<char>, Seq<char>) {
    (l.key@, l.value@)
}

pub open spec fn labels_view(v: Seq<Label>) -> Seq<(Seq<char>, Seq<char>)> {
    v.map_values(|l: Label| label_view(l))
}

pub open spec fn env_view(v: Seq<EnvVar>) -> Seq<(Seq<char>, Seq<char>)> {
    v.map_values(|e: EnvVar| (e.name@, e.value@))
}

/// A volume filled from a ConfigMap and mounted into the container.
#[derive(Debug, Clone, PartialEq)]
pub struct ConfigMapMount {
    pub volume_name: String,
    pub config_map: String,
    pub mount_path: String,
    pub read_only: bool,
}

pub open spec fn mount_view(m: ConfigMapMount) -> (Seq<char>, Seq<char>, Seq<char>, bool) {
    (m.volume_name@, m.config_map@, m.mount_path@, m.read_only)
}

/// One H2O pod, with one container. Limits and requests are equal.
#[derive(Debug, Clone, PartialEq)]
pub struct PodManifest {
    pub name: String,
    pub namespace: String,
    pub labels: Vec<Label>,
    pub image: String,
    /// The container's command as written in a manifest; the image's own when absent.
    pub command: Option<String>,
    pub cpu: u32,
    pub memory: String,
    pub ports: Vec<u16>,
    pub env: Vec<EnvVar>,
    /// The assisted-clustering module, mounted from its ConfigMap.
    pub clustering_mount: ConfigMapMount,
    /// When the platform restarts the container.
    pub restart_policy: String,
}

pub struct PodView {
    pub name: Seq<char>,
    pub namespace: Seq<char>,
    pub labels: Seq<(Seq<char>, Seq<char>)>,
    pub image: Seq<char>,
    pub command: Option<Seq<char>>,
    pub cpu: u32,
    pub memory: Seq<char>,
    pub ports: Seq<u16>,
    pub env: Seq<(Seq<char>, Seq<char>)>,
    pub clustering_mount: (Seq<char>, Seq<char>, Seq<char>, bool),
    pub restart_policy: Seq<char>,
}

impl View for PodManifest {
    type V = PodView;

    open spec fn view(&self) -> PodView {
        PodView {
            name: self.name@,
            namespace: self.namespace@,
            labels: labels_view(self.labels@),
            image: self.image@,
            command: opt_text(self.command),
            cpu: self.cpu,
            memory: self.memory@,
            ports: self.ports@,
            env: env_view(self.env@),
            clustering_mount: mount_view(self.clustering_mount),
            restart_policy: self.restart_policy@,
        }
    }
}

/// A service in front of H2O pods; `headless` means it has no cluster IP.
#[derive(Debug, Clone, PartialEq)]
pub struct ServiceManifest {
    pub name: String,
    pub namespace: String,
    pub labels: Vec<Label>,
    pub selector: Vec<Label>,
    pub port: u16,
    pub target_port: u16,
    pub headless: bool,
}

pub struct ServiceView {
    pub name: Seq<char>,
    pub namespace: Seq<char>,
    pub labels: Seq<(Seq<char>, Seq<char>)>,
    pub selector: Seq<(Seq<char>, Seq<char>)>,
    pub port: u16,
    pub target_port: u16,
    pub headless: bool,
}

impl View for ServiceManifest {
    type V = ServiceView;

    open spec fn view(&self) -> ServiceView {
        ServiceView {
            name: self.name@,
            namespace: self.namespace@,
            labels: labels_view(self.labels@),
            selector: labels_view(self.selector@),
            port: self.port,
            target_port: self.target_port,
            headless: self.headless,
        }
    }
}

/// The cluster-wide ConfigMap that carries the assisted-clustering module; the bytes are read
/// from disk by the caller and stored under `key`.
#[derive(Debug, Clone, PartialEq)]
pub struct ConfigMapManifest {
    pub name: String,
    pub namespace: String,
    pub key: String,
}

/// The image of the H2O containers: the custom image when given, else the official image
/// tagged with the version; none when the specification gives neither.
pub open spec fn image_of(spec: H2OSpec) -> Option<Seq<char>> {
    match spec.custom_image {
        Some(custom) => Some(custom.image@),
        None => match spec.version {
            Some(v) => Some(official_image_prefix() + v@),
            None => None,
        },
    }
}

/// The JVM memory share in effect, in percent.
pub open spec fn memory_percentage_of(spec: H2OSpec) -> nat {
    match spec.resources.memory_percentage {
        Some(p) => p as nat,
        None => DEFAULT_MEMORY_PERCENTAGE as nat,
    }
}

/// The command of the official image: the H2O JVM with the clustering module on its class path.
pub open spec fn java_command(percentage: nat) -> Seq<char> {
    java_command_head() + decimal_text(percentage) + java_command_tail()
}

/// The container command: a custom image's own command, taken verbatim; for the official image,
/// the JVM command line.
pub open spec fn command_of(spec: H2OSpec) -> Option<Seq<char>> {
    match spec.custom_image {
        Some(custom) => opt_text(custom.command),
        None => Some(java_command(memory_percentage_of(spec))),
    }
}

pub open spec fn pod_name(name: Seq<char>, index: nat) -> Seq<char> {
    name + "-"@ + decimal_text(index)
}

pub open spec fn leader_label_value(name: Seq<char>) -> Seq<char> {
    name + leader_suffix()
}

pub open spec fn pod_env() -> Seq<(Seq<char>, Seq<char>)> {
    seq![
        ("H2O_ASSISTED_CLUSTERING_API_PORT"@, "8080"@),
        ("H2O_ASSISTED_CLUSTERING_REST"@, "True"@),
    ]
}

pub open spec fn pod_ports() -> Seq<u16> {
    seq![H2O_DEFAULT_PORT, H2O_SECONDARY_PORT, H2O_CLUSTERING_PORT]
}

/// The pod of index `index` of cluster `name`.
pub open spec fn rendered_pod(spec: H2OSpec, name: Seq<char>, namespace: Seq<char>, index: nat) -> PodView {
    PodView {
        name: pod_name(name, index),
        namespace: namespace,
        labels: seq![(APP_LABEL@, name)],
        image: image_of(spec)->Some_0,
        command: command_of(spec),
        cpu: spec.resources.cpu,
        memory: spec.resources.memory@,
        ports: pod_ports(),
        env: pod_env(),
        clustering_mount: (CLUSTERING_VOLUME_NAME@, H2O_CLUSTERING_CONFIG_MAP_NAME@, CLUSTERING_MOUNT_PATH@, true),
        restart_policy: "Never"@,
    }
}

/// The headless service through which the nodes of cluster `name` find one another.
pub open spec fn rendered_headless_service(name: Seq<char>, namespace: Seq<char>) -> ServiceView {
    ServiceView {
        name: name,
        namespace: namespace,
        labels: seq![(APP_LABEL@, name)],
        selector: seq![(APP_LABEL@, name)],
        port: SERVICE_PORT,
        target_port: H2O_DEFAULT_PORT,
        headless: true,
    }
}

/// The service that selects the leader pod of cluster `name` once it has been labelled.
pub open spec fn rendered_leader_service(name: Seq<char>, namespace: Seq<char>) -> ServiceView {
    ServiceView {
        name: leader_label_value(name),
        namespace: namespace,
        labels: seq![(APP_LABEL@, name)],
        selector: seq![(LEADER_LABEL@, leader_label_value(name))],
        port: SERVICE_PORT,
        target_port: H2O_DEFAULT_PORT,
        headless: true,
    }
}

/// Whether `pods` is the rendering of the pods of cluster `name`.
pub open spec fn rendered_pods(spec: H2OSpec, name: Seq<char>, namespace: Seq<char>, pods: Seq<PodManifest>) -> bool {
    &&& pods.len() == spec.nodes
    &&& forall|i: int| 0 <= i < pods.len() ==> (#[trigger] pods[i])@ == rendered_pod(spec, name, namespace, i as nat)
}

/// The views of rendered pods.
pub open spec fn pod_views(pods: Seq<PodManifest>) -> Seq<PodView> {
    pods.map_values(|p: PodManifest| p@)
}

/// A created cluster has one pod per node, and every pod carries the label `app=<name>`.
pub proof fn lemma_pods_match_nodes(spec: H2OSpec, name: Seq<char>, namespace: Seq<char>, pods: Seq<PodManifest>)
    requires
        rendered_pods(spec, name, namespace, pods),
    ensures
        pods.len() == spec.nodes,
        forall|i: int| 0 <= i < pods.len() ==> (#[trigger] pods[i])@.labels.contains((APP_LABEL@, name)),
{
    assert forall|i: int| 0 <= i < pods.len() implies (#[trigger] pods[i])@.labels.contains((APP_LABEL@, name)) by {
        assert(pods[i]@.labels[0] == (APP_LABEL@, name));
    }
}

/// Rendering twice gives the same objects, field by field.
pub proof fn lemma_render_deterministic(
    spec: H2OSpec,
    name: Seq<char>,
    namespace: Seq<char>,
    first: Seq<PodManifest>,
    second: Seq<PodManifest>,
)
    requires
        rendered_pods(spec, name, namespace, first),
        rendered_pods(spec, name, namespace, second),
    ensures
        pod_views(first) == pod_views(second),
{
    assert(pod_views(first) =~= pod_views(second));
}

/// Pods are rendered from the specification, name and namespace alone: a cluster created again
/// under the name of a deleted one starts with the `app` label only, and no pod is the leader.
pub proof fn lemma_recreated_pods_fresh(spec: H2OSpec, name: Seq<char>, namespace: Seq<char>, pods: Seq<PodManifest>)
    requires
        rendered_pods(spec, name, namespace, pods),
    ensures
        forall|i: int| 0 <= i < pods.len() ==> (#[trigger] pods[i])@.labels == seq![(APP_LABEL@, name)],
        forall|i: int| 0 <= i < pods.len() ==> !(#[trigger] pods[i])@.labels.contains((LEADER_LABEL@, leader_label_value(name))),
{
    lemma_label_keys_differ();
    assert forall|i: int| 0 <= i < pods.len() implies !(#[trigger] pods[i])@.labels.contains((LEADER_LABEL@, leader_label_value(name))) by {
        let l = pods[i]@.labels;
        if l.contains((LEADER_LABEL@, leader_label_value(name))) {
            let j = choose|j: int| 0 <= j < l.len() && l[j] == (LEADER_LABEL@, leader_label_value(name));
            assert(l[j].0 == APP_LABEL@);
        }
    }
}

/// The two label keys differ.
pub proof fn lemma_label_keys_differ()
    ensures
        APP_LABEL@ != LEADER_LABEL@,
{
    reveal_strlit("app");
    reveal_strlit("h2o_leader_node_pod");
    assert(APP_LABEL@.len() != LEADER_LABEL@.len());
}

fn label(key: &str, value: &str) -> (r: Label)
    ensures
        label_view(r) == (key@, value@),
{
    Label { key: String::from_str(key), value: String::from_str(value) }
}

/// The image of the H2O containers; see `image_of`.
pub fn h2o_image(spec: &H2OSpec) -> (r: Option<String>)
    ensures
        opt_text(r) == image_of(*spec),
{
    match &spec.custom_image {
        Some(custom) => Some(custom.image.clone()),
        None => match &spec.version {
            Some(v) => Some(concat("h2oai/h2o-open-source-k8s:", v.as_str())),
            None => None,
        },
    }
}

/// The container command; see `command_of`.
pub fn h2o_command(spec: &H2OSpec) -> (r: Option<String>)
    ensures
        opt_text(r) == command_of(*spec),
{
    match &spec.custom_image {
        Some(custom) => copy_opt(&custom.command),
        None => {
            let percentage: u8 = match spec.resources.memory_percentage {
                Some(p) => p,
                None => DEFAULT_MEMORY_PERCENTAGE,
            };
            let digits = decimal(percentage as u64);
            Some(concat3(
                "[\"/bin/bash\", \"-c\", \"java -XX:+UseContainerSupport -XX:MaxRAMPercentage=",
                digits.as_str(),
                " -cp /opt/h2oai/h2o-3/h2o.jar:/opt/h2o-clustering/h2o-clustering.jar water.H2OApp\"]",
            ))
        },
    }
}

/// The pod `index` of cluster `name`, with the image and command already resolved.
pub fn h2o_pod(
    spec: &H2OSpec,
    image: &String,
    command: &Option<String>,
    name: &str,
    namespace: &str,
    index: u32,
) -> (r: PodManifest)
    requires
        image_of(*spec) == Some(image@),
        opt_text(*command) == command_of(*spec),
    ensures
        r@ == rendered_pod(*spec, name@, namespace@, index as nat),
{
    let number = decimal(index as u64);
    let ports: Vec<u16> = vec![H2O_DEFAULT_PORT, H2O_SECONDARY_PORT, H2O_CLUSTERING_PORT];
    let env: Vec<EnvVar> = vec![
        EnvVar {
            name: String::from_str("H2O_ASSISTED_CLUSTERING_API_PORT"),
            value: String::from_str("8080"),
        },
        EnvVar { name: String::from_str("H2O_ASSISTED_CLUSTERING_REST"), value: String::from_str("True") },
    ];
    let labels: Vec<Label> = vec![label(APP_LABEL, name)];
    let r = PodManifest {
        name: concat3(name, "-", number.as_str()),
        namespace: String::from_str(namespace),
        labels,
        image: image.clone(),
        command: copy_opt(command),
        cpu: spec.resources.cpu,
        memory: spec.resources.memory.clone(),
        ports,
        env,
        clustering_mount: ConfigMapMount {
            volume_name: String::from_str(CLUSTERING_VOLUME_NAME),
            config_map: String::from_str(H2O_CLUSTERING_CONFIG_MAP_NAME),
            mount_path: String::from_str(CLUSTERING_MOUNT_PATH),
            read_only: true,
        },
        restart_policy: String::from_str("Never"),
    };
    assert(labels_view(r.labels@) =~= seq![(APP_LABEL@, name@)]);
    assert(env_view(r.env@) =~= pod_env());
    assert(r.ports@ =~= pod_ports());
    r
}

/// All pods of cluster `name`, named `<name>-0` to `<name>-<nodes - 1>`.
///
/// Fails with a user error when the specification names neither a version nor a custom image.
pub fn h2o_pods(spec: &H2OSpec, name: &str, namespace: &str) -> (r: Result<Vec<PodManifest>, Error>)
    ensures
        r is Err <==> image_of(*spec) is None,
        r matches Err(e) ==> e is UserError,
        r matches Ok(pods) ==> rendered_pods(*spec, name@, namespace@, pods@),
{
    let image = match h2o_image(spec) {
        Some(image) => image,
        None => {
            return Err(Error::UserError(String::from_str(
                "Unable to create H2O Pods. Either H2O version or a complete custom image specification must be provided. None provided.",
            )));
        },
    };
    let command = h2o_command(spec);
    let mut pods: Vec<PodManifest> = Vec::new();
    let mut i: u32 = 0;
    while i < spec.nodes
        invariant
            0 <= i <= spec.nodes,
            pods@.len() == i,
            image_of(*spec) == Some(image@),
            opt_text(command) == command_of(*spec),
            forall|k: int| 0 <= k < i ==> (#[trigger] pods@[k])@ == rendered_pod(*spec, name@, namespace@, k as nat),
        decreases spec.nodes - i,
    {
        let pod = h2o_pod(spec, &image, &command, name, namespace, i);
        pods.push(pod);
        i = i + 1;
    }
    Ok(pods)
}

/// The headless service of cluster `name`.
pub fn h2o_service(name: &str, namespace: &str) -> (r: ServiceManifest)
    ensures
        r@ == rendered_headless_service(name@, namespace@),
{
    let r = ServiceManifest {
        name: String::from_str(name),
        namespace: String::from_str(namespace),
        labels: vec![label(APP_LABEL, name)],
        selector: vec![label(APP_LABEL, name)],
        port: SERVICE_PORT,
        target_port: H2O_DEFAULT_PORT,
        headless: true,
    };
    assert(labels_view(r.labels@) =~= seq![(APP_LABEL@, name@)]);
    assert(labels_view(r.selector@) =~= seq![(APP_LABEL@, name@)]);
    r
}

/// The label value, and service name, of the leader of cluster `name`.
pub fn leader_label(name: &str) -> (r: String)
    ensures
        r@ == leader_label_value(name@),
{
    concat(name, "-leader")
}

/// The service that exposes the leader pod of cluster `name`.
pub fn h2o_leader_service(name: &str, namespace: &str) -> (r: ServiceManifest)
    ensures
        r@ == rendered_leader_service(name@, namespace@),
{
    let leader = leader_label(name);
    let r = ServiceManifest {
        name: leader.clone(),
        namespace: String::from_str(namespace),
        labels: vec![label(APP_LABEL, name)],
        selector: vec![label(LEADER_LABEL, leader.as_str())],
        port: SERVICE_PORT,
        target_port: H2O_DEFAULT_PORT,
        headless: true,
    };
    assert(labels_view(r.labels@) =~= seq![(APP_LABEL@, name@)]);
    assert(labels_view(r.selector@) =~= seq![(LEADER_LABEL@, leader_label_value(name@))]);
    r
}

/// The label selector `app=<name>` that picks the pods of cluster `name`.
pub fn app_selector(name: &str) -> (r: String)
    ensures
        r@ == "app="@ + name@,
{
    concat("app=", name)
}

/// A stateful set running the H2O nodes of a cluster, as the command line deploys it: the nodes
/// find one another through the headless service's DNS name and the platform's API.
#[derive(Debug, Clone, PartialEq)]
pub struct StatefulSetManifest {
    pub name: String,
    pub namespace: String,
    pub labels: Vec<Label>,
    /// Name of the governing headless service.
    pub service_name: String,
    pub replicas: u32,
    pub selector: Vec<Label>,
    pub image: String,
    pub command: Option<String>,
    pub cpu: u32,
    pub memory: String,
    pub port: u16,
    /// HTTP path and port of the readiness probe, passed by the leader node only.
    pub readiness_path: String,
    pub readiness_port: u16,
    pub env: Vec<EnvVar>,
}

pub struct StatefulSetView {
    pub name: Seq<char>,
    pub namespace: Seq<char>,
    pub labels: Seq<(Seq<char>, Seq<char>)>,
    pub service_name: Seq<char>,
    pub replicas: u32,
    pub selector: Seq<(Seq<char>, Seq<char>)>,
    pub image: Seq<char>,
    pub command: Option<Seq<char>>,
    pub cpu: u32,
    pub memory: Seq<char>,
    pub port: u16,
    pub readiness_path: Seq<char>,
    pub readiness_port: u16,
    pub env: Seq<(Seq<char>, Seq<char>)>,
}

impl View for StatefulSetManifest {
    type V = StatefulSetView;

    open spec fn view(&self) -> StatefulSetView {
        StatefulSetView {
            name: self.name@,
            namespace: self.namespace@,
            labels: labels_view(self.labels@),
            service_name: self.service_name@,
            replicas: self.replicas,
            selector: labels_view(self.selector@),
            image: self.image@,
            command: opt_text(self.command),
            cpu: self.cpu,
            memory: self.memory@,
            port: self.port,
            readiness_path: self.readiness_path@,
            readiness_port: self.readiness_port,
            env: env_view(self.env@),
        }
    }
}

/// Port of the platform API that H2O nodes of a stateful set serve for clustering and readiness.
pub const H2O_KUBERNETES_API_PORT: u16 = 8081;

/// The command of the official image in a stateful set: the H2O JVM alone.
pub open spec fn stateful_java_command(percentage: nat) -> Seq<char> {
    "[\"/bin/bash\", \"-c\", \"java -XX:+UseContainerSupport -XX:MaxRAMPercentage="@ + decimal_text(percentage)
        + " -jar /opt/h2oai/h2o-3/h2o.jar\"]"@
}

pub open spec fn stateful_command_of(spec: H2OSpec) -> Option<Seq<char>> {
    match spec.custom_image {
        Some(custom) => opt_text(custom.command),
        None => Some(stateful_java_command(memory_percentage_of(spec))),
    }
}

/// The stateful set of cluster `name`.
pub open spec fn rendered_stateful_set(spec: H2OSpec, name: Seq<char>, namespace: Seq<char>) -> StatefulSetView {
    StatefulSetView {
        name: name,
        namespace: namespace,
        labels: seq![(APP_LABEL@, name)],
        service_name: name,
        replicas: spec.nodes,
        selector: seq![(APP_LABEL@, name)],
        image: image_of(spec)->Some_0,
        command: stateful_command_of(spec),
        cpu: spec.resources.cpu,
        memory: spec.resources.memory@,
        port: H2O_DEFAULT_PORT,
        readiness_path: "/kubernetes/isLeaderNode"@,
        readiness_port: H2O_KUBERNETES_API_PORT,
        env: seq![
            ("H2O_KUBERNETES_SERVICE_DNS"@, name + "."@ + namespace + ".svc.cluster.local"@),
            ("H2O_NODE_LOOKUP_TIMEOUT"@, "180"@),
            ("H2O_NODE_EXPECTED_COUNT"@, decimal_text(spec.nodes as nat)),
            ("H2O_KUBERNETES_API_PORT"@, "8081"@),
        ],
    }
}

/// The stateful set of cluster `name`; a user error when the specification names neither a
/// version nor a custom image.
pub fn h2o_stateful_set(spec: &H2OSpec, name: &str, namespace: &str) -> (r: Result<StatefulSetManifest, Error>)
    ensures
        r is Err <==> image_of(*spec) is None,
        r matches Err(e) ==> e is UserError,
        r matches Ok(set) ==> set@ == rendered_stateful_set(*spec, name@, namespace@),
{
    let image = match h2o_image(spec) {
        Some(image) => image,
        None => {
            return Err(Error::UserError(String::from_str(
                "Unable to create H2O statefulset. Either H2O version or a complete custom image specification must be provided. None obtained.",
            )));
        },
    };
    let command = match &spec.custom_image {
        Some(custom) => copy_opt(&custom.command),
        None => {
            let percentage: u8 = match spec.resources.memory_percentage {
                Some(p) => p,
                None => DEFAULT_MEMORY_PERCENTAGE,
            };
            let digits = decimal(percentage as u64);
            Some(concat3(
                "[\"/bin/bash\", \"-c\", \"java -XX:+UseContainerSupport -XX:MaxRAMPercentage=",
                digits.as_str(),
                " -jar /opt/h2oai/h2o-3/h2o.jar\"]",
            ))
        },
    };
    let dns_head = concat3(name, ".", namespace);
    let dns = concat(dns_head.as_str(), ".svc.cluster.local");
    let expected = decimal(spec.nodes as u64);
    let env: Vec<EnvVar> = vec![
        EnvVar { name: String::from_str("H2O_KUBERNETES_SERVICE_DNS"), value: dns },
        EnvVar { name: String::from_str("H2O_NODE_LOOKUP_TIMEOUT"), value: String::from_str("180") },
        EnvVar { name: String::from_str("H2O_NODE_EXPECTED_COUNT"), value: expected },
        EnvVar { name: String::from_str("H2O_KUBERNETES_API_PORT"), value: String::from_str("8081") },
    ];
    let r = StatefulSetManifest {
        name: String::from_str(name),
        namespace: String::from_str(namespace),
        labels: vec![label(APP_LABEL, name)],
        service_name: String::from_str(name),
        replicas: spec.nodes,
        selector: vec![label(APP_LABEL, name)],
        image,
        command,
        cpu: spec.resources.cpu,
        memory: spec.resources.memory.clone(),
        port: H2O_DEFAULT_PORT,
        readiness_path: String::from_str("/kubernetes/isLeaderNode"),
        readiness_port: H2O_KUBERNETES_API_PORT,
        env,
    };
    assert(labels_view(r.labels@) =~= seq![(APP_LABEL@, name@)]);
    assert(labels_view(r.selector@) =~= seq![(APP_LABEL@, name@)]);
    assert(env_view(r.env@) =~= rendered_stateful_set(*spec, name@, namespace@).env);
    Ok(r)
}

/// An ingress that routes `/<name>` to the service of cluster `name` on port 80.
#[derive(Debug, Clone, PartialEq)]
pub struct IngressManifest {
    pub name: String,
    pub namespace: String,
    pub annotations: Vec<Label>,
    /// The exact path routed.
    pub path: String,
    pub service_name: String,
    pub service_port: u16,
}

/// The ingress of cluster `name`. Its annotations strip the path prefix for the nginx and
/// traefik ingress controllers.
pub fn h2o_ingress(name: &str, namespace: &str) -> (r: IngressManifest)
    ensures
        r.name@ == name@,
        r.namespace@ == namespace@,
        labels_view(r.annotations@) == seq![
            ("nginx.ingress.kubernetes.io/rewrite-target"@, "/$2"@),
            ("traefik.frontend.rule.type"@, "PathPrefixStrip"@),
        ],
        r.path@ == "/"@ + name@,
        r.service_name@ == name@,
        r.service_port == SERVICE_PORT,
{
    let r = IngressManifest {
        name: String::from_str(name),
        namespace: String::from_str(namespace),
        annotations: vec![
            label("nginx.ingress.kubernetes.io/rewrite-target", "/$2"),
            label("traefik.frontend.rule.type", "PathPrefixStrip"),
        ],
        path: concat("/", name),
        service_name: String::from_str(name),
        service_port: SERVICE_PORT,
    };
    assert(labels_view(r.annotations@) =~= seq![
        ("nginx.ingress.kubernetes.io/rewrite-target"@, "/$2"@),
        ("traefik.frontend.rule.type"@, "PathPrefixStrip"@),
    ]);
    r
}

/// The views of an optional list of strings.
pub open spec fn opt_texts(o: Option<Vec<String>>) -> Option<Seq<Seq<char>>> {
    match o {
        Some(v) => Some(texts(v@)),
        None => None,
    }
}

/// What `serde_yaml` reads from `text` as a sequence of strings; `None` where the text is not one.
pub uninterp spec fn yaml_string_list(text: Seq<char>) -> Option<Seq<Seq<char>>>;

/// Relies on `serde_yaml::from_str::<Vec<String>>`, which reads `text` as a YAML sequence of
/// strings or fails (`None` here); the result depends on the text alone.
#[verifier::external_body]
fn parse_string_list(text: &str) -> (r: Option<Vec<String>>)
    ensures
        opt_texts(r) == yaml_string_list(text@),
{
    match serde_yaml::from_str::<Vec<String>>(text) {
        Ok(v) => Some(v),
        Err(_) => None,
    }
}

/// The container arguments of a manifest's command text, given how it reads as a list: the
/// list itself, or else the text run by a shell.
pub open spec fn container_args_of(parsed: Option<Seq<Seq<char>>>, text: Seq<char>) -> Seq<Seq<char>> {
    match parsed {
        Some(list) => list,
        None => seq!["/bin/sh"@, "-c"@, text],
    }
}

/// The container arguments of a command text, given the text read as a list of strings.
pub fn container_args(parsed: Option<Vec<String>>, text: &str) -> (r: Vec<String>)
    ensures
        texts(r@) == container_args_of(opt_texts(parsed), text@),
{
    match parsed {
        Some(list) => list,
        None => {
            let mut r: Vec<String> = Vec::new();
            r.push(String::from_str("/bin/sh"));
            r.push(String::from_str("-c"));
            r.push(String::from_str(text));
            assert(texts(r@) =~= seq!["/bin/sh"@, "-c"@, text@]);
            r
        },
    }
}

/// The container arguments of a manifest's command text: a YAML list of arguments, as the
/// official image's command is written, or else one command line for a shell.
pub fn command_args(text: &str) -> (r: Vec<String>)
    ensures
        texts(r@) == container_args_of(yaml_string_list(text@), text@),
{
    let parsed = parse_string_list(text);
    container_args(parsed, text)
}

/// The assisted-clustering ConfigMap of `namespace`.
pub fn clustering_configmap(namespace: &str) -> (r: ConfigMapManifest)
    ensures
        r.name@ == H2O_CLUSTERING_CONFIG_MAP_NAME@,
        r.namespace@ == namespace@,
        r.key@ == H2O_CLUSTERING_JAR_FILE_NAME@,
{
    ConfigMapManifest {
        name: String::from_str(H2O_CLUSTERING_CONFIG_MAP_NAME),
        namespace: String::from_str(namespace),
        key: String::from_str(H2O_CLUSTERING_JAR_FILE_NAME),
    }
}

} // verus!
