//! The `H2O` custom resource: its specification, its status and the metadata the controller reads.
use vstd::prelude::*;

verus! {

/// The finalizer token this controller puts on every `H2O` resource it has clustered.
pub const FINALIZER_NAME: &'static str = "h2os.h2o.ai";

/// Text of the finalizer token.
pub open spec fn finalizer_text() -> Seq<char> {
    seq!['h', '2', 'o', 's', '.', 'h', '2', 'o', '.', 'a', 'i']
}

pub open spec fn ready_text() -> Seq<char> {
    seq!['R', 'e', 'a', 'd', 'y']
}

pub open spec fn true_text() -> Seq<char> {
    seq!['t', 'r', 'u', 'e']
}

pub open spec fn false_text() -> Seq<char> {
    seq!['f', 'a', 'l', 's', 'e']
}

pub open spec fn pending_text() -> Seq<char> {
    seq!['P', 'e', 'n', 'd', 'i', 'n', 'g']
}

pub open spec fn running_text() -> Seq<char> {
    seq!['R', 'u', 'n', 'n', 'i', 'n', 'g']
}

/// The view of an optional string.
pub open spec fn opt_text(o: Option<String>) -> Option<Seq<char>> {
    match o {
        Some(s) => Some(s@),
        None => None,
    }
}

/// The views of a list of strings.
pub open spec fn texts(v: Seq<String>) -> Seq<Seq<char>> {
    v.map_values(|s: String| s@)
}

/// A custom image for the H2O containers, with an optional command that replaces the image's own.
#[derive(Debug, Clone, PartialEq)]
pub struct CustomImage {
    /// Full image reference: repository, name and tag.
    pub image: String,
    /// Command run when the container starts.
    pub command: Option<String>,
}

impl CustomImage {
    pub fn new(image: String, command: Option<String>) -> (r: Self)
        ensures
            r.image == image,
            r.command == command,
    {
        CustomImage { image, command }
    }
}

/// Resources of each H2O pod; limits and requests are set to the same values.
#[derive(Debug, Clone, PartialEq)]
pub struct Resources {
    /// Virtual CPUs per pod.
    pub cpu: u32,
    /// A platform memory quantity, such as `256Mi`.
    pub memory: String,
    /// Share of the container's memory that the JVM may take, in percent.
    pub memory_percentage: Option<u8>,
}

impl Resources {
    pub fn new(cpu: u32, memory: String, memory_percentage: Option<u8>) -> (r: Self)
        ensures
            r.cpu == cpu,
            r.memory == memory,
            r.memory_percentage == memory_percentage,
    {
        Resources { cpu, memory, memory_percentage }
    }
}

/// Desired state of an H2O cluster: the `spec` of the custom resource.
#[derive(Debug, Clone, PartialEq)]
pub struct H2OSpec {
    /// Number of H2O nodes, one per pod.
    pub nodes: u32,
    /// Tag of the official image; ignored when a custom image is given.
    pub version: Option<String>,
    pub resources: Resources,
    pub custom_image: Option<CustomImage>,
}

impl H2OSpec {
    pub fn new(nodes: u32, version: Option<String>, resources: Resources, custom_image: Option<CustomImage>) -> (r: Self)
        ensures
            r.nodes == nodes,
            r.version == version,
            r.resources == resources,
            r.custom_image == custom_image,
    {
        H2OSpec { nodes, version, resources, custom_image }
    }
}

/// One entry of `status.conditions`.
#[derive(Debug, Clone, PartialEq)]
pub struct Condition {
    pub cond_type: String,
    pub status: String,
}

impl Condition {
    pub fn new(cond_type: String, status: String) -> (r: Self)
        ensures
            r.cond_type == cond_type,
            r.status == status,
    {
        Condition { cond_type, status }
    }
}

/// Observed state of an H2O cluster: the `status` of the custom resource.
#[derive(Debug, Clone, PartialEq)]
pub struct H2OStatus {
    pub phase: Option<String>,
    pub conditions: Option<Vec<Condition>>,
}

impl H2OStatus {
    pub fn new(phase: Option<String>, conditions: Option<Vec<Condition>>) -> (r: Self)
        ensures
            r.phase == phase,
            r.conditions == conditions,
    {
        H2OStatus { phase, conditions }
    }
}

/// The part of a resource's metadata that the controller reads.
#[derive(Debug, Clone, PartialEq)]
pub struct ResourceMeta {
    pub name: Option<String>,
    pub namespace: Option<String>,
    pub finalizers: Option<Vec<String>>,
    /// Set by the platform once deletion of the resource has been requested.
    pub deletion_timestamp: Option<String>,
}

/// An observed `H2O` custom resource.
#[derive(Debug, Clone, PartialEq)]
pub struct H2O {
    pub metadata: ResourceMeta,
    pub spec: H2OSpec,
    pub status: Option<H2OStatus>,
}

/// The resource's finalizers, as text; none when the list is absent.
pub open spec fn finalizer_texts(h2o: H2O) -> Seq<Seq<char>> {
    match h2o.metadata.finalizers {
        Some(f) => texts(f@),
        None => Seq::empty(),
    }
}

pub open spec fn spec_has_finalizer(h2o: H2O) -> bool {
    finalizer_texts(h2o).contains(finalizer_text())
}

pub open spec fn spec_has_deletion_stamp(h2o: H2O) -> bool {
    h2o.metadata.deletion_timestamp is Some
}

/// A condition that says the cluster is ready.
pub open spec fn is_ready_condition(c: Condition) -> bool {
    c.cond_type@ == ready_text() && c.status@ == true_text()
}

pub open spec fn spec_is_ready(h2o: H2O) -> bool {
    match h2o.status {
        Some(status) => match status.conditions {
            Some(conditions) => exists|i: int| 0 <= i < conditions@.len() && is_ready_condition(#[trigger] conditions@[i]),
            None => false,
        },
        None => false,
    }
}

/// The resource's own finalizer and deletion facts, read off its metadata's view.
pub proof fn lemma_finalizer_views(h2o: H2O)
    ensures
        spec_has_deletion_stamp(h2o) <==> h2o.metadata@.deletion_timestamp is Some,
        spec_has_finalizer(h2o) <==> crate::finalizer::lists_finalizer(h2o.metadata@),
{
}

/// Whether deletion of the resource has been requested.
pub fn has_deletion_stamp(h2o: &H2O) -> (r: bool)
    ensures
        r == spec_has_deletion_stamp(*h2o),
{
    h2o.metadata.deletion_timestamp.is_some()
}

/// Whether the resource carries this controller's finalizer.
pub fn has_h2o3_finalizer(h2o: &H2O) -> (r: bool)
    ensures
        r == spec_has_finalizer(*h2o),
{
    match &h2o.metadata.finalizers {
        None => {
            assert(finalizer_texts(*h2o) =~= Seq::<Seq<char>>::empty());
            false
        },
        Some(finalizers) => {
            let token = String::from_str(FINALIZER_NAME);
            proof {
                reveal_strlit("h2os.h2o.ai");
            }
            let mut i: usize = 0;
            while i < finalizers.len()
                invariant
                    0 <= i <= finalizers@.len(),
                    token@ == finalizer_text(),
                    finalizer_texts(*h2o) == texts(finalizers@),
                    forall|k: int| 0 <= k < i ==> texts(finalizers@)[k] != finalizer_text(),
                decreases finalizers@.len() - i,
            {
                if finalizers[i] == token {
                    assert(texts(finalizers@)[i as int] == finalizer_text());
                    return true;
                }
                i = i + 1;
            }
            assert forall|k: int| 0 <= k < texts(finalizers@).len() implies texts(finalizers@)[k] != finalizer_text() by {}
            false
        },
    }
}

/// Whether the resource's status holds a `Ready` condition whose status is `true`.
pub fn is_ready(h2o: &H2O) -> (r: bool)
    ensures
        r == spec_is_ready(*h2o),
{
    match &h2o.status {
        None => false,
        Some(status) => match &status.conditions {
            None => false,
            Some(conditions) => {
                let ready = String::from_str("Ready");
                let yes = String::from_str("true");
                proof {
                    reveal_strlit("Ready");
                    reveal_strlit("true");
                }
                let mut i: usize = 0;
                while i < conditions.len()
                    invariant
                        0 <= i <= conditions@.len(),
                        h2o.status == Some(*status),
                        status.conditions == Some(*conditions),
                        ready@ == ready_text(),
                        yes@ == true_text(),
                        forall|k: int| 0 <= k < i ==> !is_ready_condition(#[trigger] conditions@[k]),
                    decreases conditions@.len() - i,
                {
                    if conditions[i].cond_type == ready && conditions[i].status == yes {
                        assert(is_ready_condition(conditions@[i as int]));
                        assert(h2o.status->Some_0.conditions->Some_0@[i as int] == conditions@[i as int]);
                        assert(spec_is_ready(*h2o));
                        return true;
                    }
                    i = i + 1;
                }
                false
            },
        },
    }
}

/// Whether the controller has reported on the resource: it has a status with conditions.
pub fn status_reported(h2o: &H2O) -> (r: bool)
    ensures
        r == (h2o.status matches Some(status) && status.conditions is Some),
{
    match &h2o.status {
        Some(status) => status.conditions.is_some(),
        None => false,
    }
}

/// The status written once a cluster has formed (`ready`) or has failed to.
pub fn ready_status(ready: bool) -> (r: H2OStatus)
    ensures
        opt_text(r.phase) == Some(running_text()),
        r.conditions is Some,
        r.conditions->Some_0@.len() == 1,
        r.conditions->Some_0@[0].cond_type@ == ready_text(),
        r.conditions->Some_0@[0].status@ == if ready { true_text() } else { false_text() },
{
    proof {
        reveal_strlit("Running");
        reveal_strlit("Ready");
        reveal_strlit("true");
        reveal_strlit("false");
    }
    let status = if ready { String::from_str("true") } else { String::from_str("false") };
    let condition = Condition::new(String::from_str("Ready"), status);
    H2OStatus::new(Some(String::from_str("Running")), Some(vec![condition]))
}

} // verus!
