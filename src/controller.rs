//! The reconciler: what to do about each observed `H2O` resource, step by step.
//!
//! A reconciliation is a fixed sequence of steps chosen by the resource's state. The caller
//! performs each step against the platform and reports how it went; `next_after` says what comes
//! next.
use vstd::prelude::*;

use crate::crd::{
    false_text, has_deletion_stamp, has_h2o3_finalizer, opt_text, pending_text, ready_text, spec_has_deletion_stamp,
    spec_has_finalizer, Condition, H2OStatus, H2O,
};
use crate::error::Error;
use crate::finalizer::{lists_finalizer, with_finalizer, without_finalizer, MetaView};

verus! {

/// Seconds after which a clustered resource is looked at again.
pub const CREATED_REQUEUE_SECS: u64 = 10;
/// Seconds after which a verified resource, or one whose reconciliation failed, is looked at again.
pub const VERIFY_REQUEUE_SECS: u64 = 5;

/// What the controller does about an observed resource.
#[derive(Debug, Clone, Copy, PartialEq, Eq, Structural)]
pub enum ControllerAction {
    /// Create a new H2O cluster.
    Create,
    /// Tear down the resources of a cluster whose deletion was requested.
    Delete,
    /// Nothing to change: a clustered H2O is immutable, and a resource without the finalizer is
    /// collected by the platform.
    Verify,
}

/// The action for a resource, by whether it has the finalizer and whether its deletion was requested.
pub open spec fn classify(has_finalizer: bool, has_deletion_stamp: bool) -> ControllerAction {
    if has_finalizer && has_deletion_stamp {
        ControllerAction::Delete
    } else if !has_finalizer && !has_deletion_stamp {
        ControllerAction::Create
    } else {
        ControllerAction::Verify
    }
}

/// Chooses the action for an observed resource.
pub fn examine_h2o_for_actions(h2o: &H2O) -> (r: ControllerAction)
    ensures
        r == classify(spec_has_finalizer(*h2o), spec_has_deletion_stamp(*h2o)),
{
    let has_finalizer = has_h2o3_finalizer(h2o);
    let has_deletion_timestamp = has_deletion_stamp(h2o);
    if has_finalizer && has_deletion_timestamp {
        ControllerAction::Delete
    } else if !has_finalizer && !has_deletion_timestamp {
        ControllerAction::Create
    } else {
        ControllerAction::Verify
    }
}

/// One step of a reconciliation, performed by the caller against the platform.
#[derive(Debug, Clone, Copy, PartialEq, Eq, Structural)]
pub enum Step {
    /// Create the cluster's headless service and its pods, rolling the pods back on partial failure.
    CreatePods,
    /// Run assisted clustering: wait for IPs, send the flatfile, label the leader, expose it.
    ClusterPods,
    /// Apply `finalizer_patch` to the resource.
    AddFinalizer,
    /// Patch the resource's status to `ready_status(true)`.
    SetReadyStatus,
    /// Delete the leader service; a failure here does not stop the teardown.
    DeleteLeaderService,
    /// Delete the cluster's pods by their `app` label, and its headless service.
    DeletePods,
    /// Wait until no pod of the cluster is left.
    AwaitPodsDeleted,
    /// Apply `finalizer_removal_patch` to the resource.
    RemoveFinalizer,
}

/// The steps of each action, in order.
pub open spec fn steps_of(action: ControllerAction) -> Seq<Step> {
    match action {
        ControllerAction::Create => seq![Step::CreatePods, Step::ClusterPods, Step::AddFinalizer, Step::SetReadyStatus],
        ControllerAction::Delete => seq![
            Step::DeleteLeaderService,
            Step::DeletePods,
            Step::AwaitPodsDeleted,
            Step::RemoveFinalizer,
        ],
        ControllerAction::Verify => Seq::empty(),
    }
}

/// When to look at the resource again after the action completed, in seconds.
pub open spec fn requeue_of(action: ControllerAction) -> Option<u64> {
    match action {
        ControllerAction::Create => Some(CREATED_REQUEUE_SECS),
        ControllerAction::Delete => None,
        ControllerAction::Verify => Some(VERIFY_REQUEUE_SECS),
    }
}

/// Whether a failure of this step leaves the rest of the action to be done.
pub open spec fn best_effort(step: Step) -> bool {
    step == Step::DeleteLeaderService
}

/// What the caller does next.
#[derive(Debug, Clone, PartialEq)]
pub enum Next {
    /// Perform this step and report its outcome.
    Perform(Step),
    /// The reconciliation succeeded; look at the resource again after this many seconds, if any.
    Finish(Option<u64>),
    /// The reconciliation failed with this error.
    Fail(Error),
}

/// The step of `action` at `index`, if there is one.
pub fn step_at(action: ControllerAction, index: usize) -> (r: Option<Step>)
    ensures
        index < steps_of(action).len() ==> r == Some(steps_of(action)[index as int]),
        index >= steps_of(action).len() ==> r is None,
{
    match action {
        ControllerAction::Create => match index {
            0 => Some(Step::CreatePods),
            1 => Some(Step::ClusterPods),
            2 => Some(Step::AddFinalizer),
            3 => Some(Step::SetReadyStatus),
            _ => None,
        },
        ControllerAction::Delete => match index {
            0 => Some(Step::DeleteLeaderService),
            1 => Some(Step::DeletePods),
            2 => Some(Step::AwaitPodsDeleted),
            3 => Some(Step::RemoveFinalizer),
            _ => None,
        },
        ControllerAction::Verify => None,
    }
}

fn requeue_after(action: ControllerAction) -> (r: Option<u64>)
    ensures
        r == requeue_of(action),
{
    match action {
        ControllerAction::Create => Some(CREATED_REQUEUE_SECS),
        ControllerAction::Delete => None,
        ControllerAction::Verify => Some(VERIFY_REQUEUE_SECS),
    }
}

/// What follows a step that is done with, or the start when `index` is the number of steps done
/// so far and no step has run.
pub open spec fn continue_from(action: ControllerAction, index: int) -> Next {
    if index < steps_of(action).len() {
        Next::Perform(steps_of(action)[index])
    } else {
        Next::Finish(requeue_of(action))
    }
}

/// The first thing to do for `action`.
pub fn first_step(action: ControllerAction) -> (r: Next)
    ensures
        r == continue_from(action, 0),
{
    match step_at(action, 0) {
        Some(step) => Next::Perform(step),
        None => Next::Finish(requeue_after(action)),
    }
}

/// What follows the step of `action` at `index`, given its outcome: the next step or the end
/// when it succeeded or may fail, the failure otherwise.
pub fn next_after(action: ControllerAction, index: usize, outcome: Result<(), Error>) -> (r: Next)
    requires
        index < steps_of(action).len(),
    ensures
        outcome is Ok || best_effort(steps_of(action)[index as int]) ==> r == continue_from(action, index + 1),
        outcome is Err && !best_effort(steps_of(action)[index as int]) ==> r == Next::Fail(outcome->Err_0),
{
    let step = step_at(action, index);
    match outcome {
        Err(e) => {
            if step != Some(Step::DeleteLeaderService) {
                return Next::Fail(e);
            }
        },
        Ok(()) => {},
    }
    match step_at(action, index + 1) {
        Some(next) => Next::Perform(next),
        None => Next::Finish(requeue_after(action)),
    }
}

/// One reconciliation: its action and the cluster it is about.
#[derive(Debug, Clone, PartialEq)]
pub struct Reconciliation {
    pub action: ControllerAction,
    /// The cluster's name, which names its pods and services.
    pub name: String,
    /// Where the cluster's pods and services live.
    pub namespace: String,
}

/// Starts reconciling an observed resource. A cluster is created in the operator's own
/// namespace and deleted from the resource's; a resource without the name (or, to delete,
/// without the namespace) that this needs is a user error.
pub fn reconcile(h2o: &H2O, operator_namespace: &str) -> (r: Result<Reconciliation, Error>)
    ensures
        ({
            let action = classify(spec_has_finalizer(*h2o), spec_has_deletion_stamp(*h2o));
            &&& action == ControllerAction::Create ==> match h2o.metadata.name {
                Some(name) => (r matches Ok(rec) && rec.action == action && rec.name@ == name@ && rec.namespace@ == operator_namespace@),
                None => r matches Err(Error::UserError(_)),
            }
            &&& action == ControllerAction::Delete ==> match (h2o.metadata.name, h2o.metadata.namespace) {
                (Some(name), Some(ns)) => (r matches Ok(rec) && rec.action == action && rec.name@ == name@ && rec.namespace@ == ns@),
                _ => r matches Err(Error::UserError(_)),
            }
            &&& action == ControllerAction::Verify ==> (r matches Ok(rec) && rec.action == action && rec.name@ == (match opt_text(h2o.metadata.name) {
                Some(n) => n,
                None => Seq::empty(),
            }) && rec.namespace@ == (match opt_text(h2o.metadata.namespace) {
                Some(ns) => ns,
                None => operator_namespace@,
            }))
        }),
{
    let action = examine_h2o_for_actions(h2o);
    match action {
        ControllerAction::Create => match &h2o.metadata.name {
            Some(name) => Ok(Reconciliation { action, name: name.clone(), namespace: String::from_str(operator_namespace) }),
            None => Err(Error::UserError(String::from_str("Unable to create H2O deployment. No H2O name provided."))),
        },
        ControllerAction::Delete => match (&h2o.metadata.name, &h2o.metadata.namespace) {
            (Some(name), Some(ns)) => Ok(Reconciliation { action, name: name.clone(), namespace: ns.clone() }),
            (None, _) => Err(Error::UserError(String::from_str("Unable to delete H2O deployment. No H2O name provided."))),
            (_, None) => Err(Error::UserError(String::from_str("Unable to delete H2O deployment. No namespace provided."))),
        },
        ControllerAction::Verify => {
            let name = match &h2o.metadata.name {
                Some(n) => n.clone(),
                None => String::new(),
            };
            let namespace = match &h2o.metadata.namespace {
                Some(ns) => ns.clone(),
                None => String::from_str(operator_namespace),
            };
            Ok(Reconciliation { action, name, namespace })
        },
    }
}

/// Seconds after which a resource whose reconciliation failed is looked at again: never for a
/// user error, which waits for the specification to change; after a pause for any other.
pub fn error_policy(error: &Error) -> (r: Option<u64>)
    ensures
        error is UserError ==> r is None,
        !(error is UserError) ==> r == Some(VERIFY_REQUEUE_SECS),
{
    match error {
        Error::UserError(_) => None,
        _ => Some(VERIFY_REQUEUE_SECS),
    }
}

/// The status to write after a reconciliation failed: for a user error, a pending cluster that
/// is not ready; for any other error, none, so that only what was observed is recorded.
pub fn status_after_failure(error: &Error) -> (r: Option<H2OStatus>)
    ensures
        !(error is UserError) ==> r is None,
        error is UserError ==> (r is Some && opt_text(r->Some_0.phase) == Some(pending_text())
            && r->Some_0.conditions is Some && r->Some_0.conditions->Some_0@.len() == 1
            && r->Some_0.conditions->Some_0@[0].cond_type@ == ready_text()
            && r->Some_0.conditions->Some_0@[0].status@ == false_text()),
{
    match error {
        Error::UserError(_) => {
            proof {
                reveal_strlit("Pending");
                reveal_strlit("Ready");
                reveal_strlit("false");
            }
            let condition = Condition::new(String::from_str("Ready"), String::from_str("false"));
            Some(H2OStatus::new(Some(String::from_str("Pending")), Some(vec![condition])))
        },
        _ => None,
    }
}

/// What a step does to the resource itself: its finalizers, and whether its status says ready.
pub open spec fn step_effect(step: Step, meta: MetaView, ready: bool) -> (MetaView, bool) {
    match step {
        Step::AddFinalizer => (with_finalizer(meta), ready),
        Step::RemoveFinalizer => (without_finalizer(meta), ready),
        Step::SetReadyStatus => (meta, true),
        _ => (meta, ready),
    }
}

/// The resource after all of `steps` succeeded.
pub open spec fn run_steps(steps: Seq<Step>, meta: MetaView, ready: bool) -> (MetaView, bool)
    decreases steps.len(),
{
    if steps.len() == 0 {
        (meta, ready)
    } else {
        let (m, r) = step_effect(steps[0], meta, ready);
        run_steps(steps.drop_first(), m, r)
    }
}

/// Whether the platform removes the resource: its deletion was requested and no finalizer holds it.
pub open spec fn collected(meta: MetaView) -> bool {
    meta.deletion_timestamp is Some && !lists_finalizer(meta)
}

/// Once every step of the create path has succeeded, the resource lists the finalizer and its
/// status says ready.
pub proof fn lemma_create_path_establishes(meta: MetaView, ready: bool)
    ensures
        run_steps(steps_of(ControllerAction::Create), meta, ready) == (with_finalizer(meta), true),
        lists_finalizer(with_finalizer(meta)),
{
    reveal_with_fuel(run_steps, 5);
    let steps = steps_of(ControllerAction::Create);
    assert(steps.drop_first() =~= seq![Step::ClusterPods, Step::AddFinalizer, Step::SetReadyStatus]);
    assert(steps.drop_first().drop_first() =~= seq![Step::AddFinalizer, Step::SetReadyStatus]);
    assert(steps.drop_first().drop_first().drop_first() =~= seq![Step::SetReadyStatus]);
    assert(steps.drop_first().drop_first().drop_first().drop_first() =~= Seq::<Step>::empty());
    crate::finalizer::lemma_add_finalizer_idempotent(meta);
}

/// A resource whose deletion was requested and that has no finalizer gets no action from the
/// controller: nothing is changed, and the platform collects it.
pub proof fn lemma_unfinalized_deletion_untouched(h2o: H2O, ready: bool)
    requires
        spec_has_deletion_stamp(h2o),
        !spec_has_finalizer(h2o),
    ensures
        classify(spec_has_finalizer(h2o), spec_has_deletion_stamp(h2o)) == ControllerAction::Verify,
        steps_of(ControllerAction::Verify).len() == 0,
        run_steps(steps_of(ControllerAction::Verify), h2o.metadata@, ready) == (h2o.metadata@, ready),
        collected(h2o.metadata@),
{
    crate::crd::lemma_finalizer_views(h2o);
}

/// After the delete path has run through, the finalizer is gone and the platform collects the
/// resource, so no ready status of it remains; the delete path never sets a ready status.
pub proof fn lemma_delete_path_releases(h2o: H2O, ready: bool)
    requires
        classify(spec_has_finalizer(h2o), spec_has_deletion_stamp(h2o)) == ControllerAction::Delete,
    ensures
        !steps_of(ControllerAction::Delete).contains(Step::SetReadyStatus),
        ({
            let (after, _) = run_steps(steps_of(ControllerAction::Delete), h2o.metadata@, ready);
            &&& !lists_finalizer(after)
            &&& collected(after)
        }),
{
    crate::crd::lemma_finalizer_views(h2o);
    reveal_with_fuel(run_steps, 5);
    let steps = steps_of(ControllerAction::Delete);
    assert(steps.drop_first() =~= seq![Step::DeletePods, Step::AwaitPodsDeleted, Step::RemoveFinalizer]);
    assert(steps.drop_first().drop_first() =~= seq![Step::AwaitPodsDeleted, Step::RemoveFinalizer]);
    assert(steps.drop_first().drop_first().drop_first() =~= seq![Step::RemoveFinalizer]);
    assert(steps.drop_first().drop_first().drop_first().drop_first() =~= Seq::<Step>::empty());
    if steps.contains(Step::SetReadyStatus) {
        let i = choose|i: int| 0 <= i < steps.len() && steps[i] == Step::SetReadyStatus;
        assert(false);
    }
}

} // verus!
