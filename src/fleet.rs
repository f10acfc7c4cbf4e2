//! Bookkeeping of a cluster's pods: what to roll back after a batch of creations, which pods a
//! watch has seen, and how many are left to go.
use vstd::prelude::*;

use crate::crd::{opt_text, texts};
use crate::error::{error_cause, error_prefix, Error};
use crate::text::{concat3, copy_opt};

verus! {

/// Names of the pods that were created, in the order of the results.
pub open spec fn created_names(results: Seq<Result<String, Error>>) -> Seq<Seq<char>>
    decreases results.len(),
{
    if results.len() == 0 {
        Seq::empty()
    } else {
        let before = created_names(results.drop_last());
        match results.last() {
            Ok(name) => before.push(name@),
            Err(_) => before,
        }
    }
}

/// The errors among the results, in order.
pub open spec fn failures(results: Seq<Result<String, Error>>) -> Seq<Error>
    decreases results.len(),
{
    if results.len() == 0 {
        Seq::empty()
    } else {
        let before = failures(results.drop_last());
        match results.last() {
            Ok(_) => before,
            Err(e) => before.push(e),
        }
    }
}

/// The messages of errors, separated by commas.
pub open spec fn joined_messages(errors: Seq<Error>) -> Seq<char>
    decreases errors.len(),
{
    if errors.len() == 0 {
        Seq::empty()
    } else if errors.len() == 1 {
        error_prefix(errors[0]) + error_cause(errors[0])
    } else {
        joined_messages(errors.drop_last()) + ","@ + error_prefix(errors.last()) + error_cause(errors.last())
    }
}

/// What follows a batch of pod creations.
#[derive(Debug, Clone, PartialEq)]
pub enum CreationOutcome {
    /// Every pod was created; their names.
    Created(Vec<String>),
    /// Some creations failed: the pods that were created are to be deleted again, and `surfaced`
    /// is what the reconciliation fails with; `errors` are the individual failures.
    RollBack { delete: Vec<String>, errors: Vec<Error>, surfaced: Error },
}

/// The error a failed batch of pod creations surfaces as: a deployment error listing every
/// failure's message.
pub fn deployment_failure(errors: &Vec<Error>) -> (r: Error)
    ensures
        r is DeploymentError,
        r->DeploymentError_0@ == joined_messages(errors@),
{
    let mut text = String::new();
    let mut i: usize = 0;
    while i < errors.len()
        invariant
            0 <= i <= errors@.len(),
            text@ == joined_messages(errors@.subrange(0, i as int)),
        decreases errors@.len() - i,
    {
        let ghost before = errors@.subrange(0, i as int);
        let ghost after = errors@.subrange(0, i + 1);
        assert(after.drop_last() =~= before);
        let message = errors[i].message();
        if i == 0 {
            text = message;
        } else {
            text.append(",");
            text.append(message.as_str());
        }
        i = i + 1;
    }
    assert(errors@.subrange(0, i as int) =~= errors@);
    Error::DeploymentError(text)
}

/// Sorts the results of creating a cluster's pods, one result per pod: the names of the created
/// pods, or, when any creation failed, the pods to delete and the errors to report.
pub fn creation_outcome(results: Vec<Result<String, Error>>) -> (r: CreationOutcome)
    ensures
        failures(results@).len() == 0 ==> (r matches CreationOutcome::Created(names) && texts(names@)
            == created_names(results@)),
        failures(results@).len() > 0 ==> (r matches CreationOutcome::RollBack { delete, errors, surfaced } && texts(
            delete@,
        ) == created_names(results@) && errors@ == failures(results@) && surfaced is DeploymentError
            && surfaced->DeploymentError_0@ == joined_messages(failures(results@))),
{
    let ghost all = results@;
    let mut rest = results;
    let mut names: Vec<String> = Vec::new();
    let mut errors: Vec<Error> = Vec::new();
    while rest.len() > 0
        invariant
            rest@.len() <= all.len(),
            rest@ == all.subrange(all.len() - rest@.len(), all.len() as int),
            texts(names@) == created_names(all.subrange(0, all.len() - rest@.len())),
            errors@ == failures(all.subrange(0, all.len() - rest@.len())),
        decreases rest@.len(),
    {
        let ghost k = all.len() - rest@.len();
        let ghost done = all.subrange(0, k);
        let ghost next = all.subrange(0, k + 1);
        assert(rest@[0] == all[k]);
        let item = rest.remove(0);
        assert(rest@ =~= all.subrange(k + 1, all.len() as int));
        assert(next.drop_last() =~= done);
        assert(next.last() == item);
        match item {
            Ok(name) => {
                names.push(name);
                assert(texts(names@) =~= texts(names@.drop_last()).push(names@.last()@));
            },
            Err(e) => {
                errors.push(e);
            },
        }
    }
    assert(all.subrange(0, all.len() as int) =~= all);
    if errors.len() == 0 {
        CreationOutcome::Created(names)
    } else {
        let surfaced = deployment_failure(&errors);
        CreationOutcome::RollBack { delete: names, errors, surfaced }
    }
}

/// A pod as a watch reports it: its name and, once the platform has assigned one, its IP.
#[derive(Debug, Clone, PartialEq)]
pub struct WatchedPod {
    pub name: String,
    pub ip: Option<String>,
}

/// Position of the last entry named `name`, or -1.
pub open spec fn name_index(found: Seq<(Seq<char>, Seq<char>)>, name: Seq<char>) -> int
    decreases found.len(),
{
    if found.len() == 0 {
        -1
    } else if found.last().0 == name {
        found.len() - 1
    } else {
        name_index(found.drop_last(), name)
    }
}

/// `found` after seeing pod `name` with address `ip`: its entry replaced, or a new one added.
pub open spec fn upsert(found: Seq<(Seq<char>, Seq<char>)>, name: Seq<char>, ip: Seq<char>) -> Seq<(Seq<char>, Seq<char>)> {
    let k = name_index(found, name);
    if k >= 0 {
        found.update(k, (name, ip))
    } else {
        found.push((name, ip))
    }
}

/// `found` after seeing `pod`; pods without an IP do not count.
pub open spec fn observe_pod(found: Seq<(Seq<char>, Seq<char>)>, pod: WatchedPod) -> Seq<(Seq<char>, Seq<char>)> {
    match pod.ip {
        Some(ip) => upsert(found, pod.name@, ip@),
        None => found,
    }
}

/// `found` after seeing `batch` in order, stopping as soon as `expected` pods have been found.
pub open spec fn observe_batch(found: Seq<(Seq<char>, Seq<char>)>, expected: nat, batch: Seq<WatchedPod>) -> Seq<(Seq<char>, Seq<char>)>
    decreases batch.len(),
{
    if batch.len() == 0 {
        found
    } else {
        let next = observe_pod(found, batch[0]);
        if next.len() == expected {
            next
        } else {
            observe_batch(next, expected, batch.drop_first())
        }
    }
}

pub open spec fn names_unique(found: Seq<(Seq<char>, Seq<char>)>) -> bool {
    forall|i: int, j: int| 0 <= i < j < found.len() ==> found[i].0 != found[j].0
}

proof fn lemma_name_index(found: Seq<(Seq<char>, Seq<char>)>, name: Seq<char>)
    ensures
        -1 <= name_index(found, name) < found.len(),
        name_index(found, name) >= 0 ==> found[name_index(found, name)].0 == name,
        name_index(found, name) < 0 ==> forall|i: int| 0 <= i < found.len() ==> found[i].0 != name,
    decreases found.len(),
{
    if found.len() > 0 {
        lemma_name_index(found.drop_last(), name);
        assert forall|i: int| 0 <= i < found.len() - 1 implies found.drop_last()[i] == found[i] by {}
    }
}

proof fn lemma_upsert_unique(found: Seq<(Seq<char>, Seq<char>)>, name: Seq<char>, ip: Seq<char>)
    requires
        names_unique(found),
    ensures
        names_unique(upsert(found, name, ip)),
        upsert(found, name, ip).len() <= found.len() + 1,
{
    lemma_name_index(found, name);
}

/// The pods found so far by a watch that waits for `expected` pods to have an IP.
///
/// Pods are told apart by name: a pod reported twice counts once, with its latest address.
pub struct PodWatch {
    expected: usize,
    found: Vec<(String, String)>,
}

/// The views of (name, IP) pairs.
pub open spec fn pairs_view(s: Seq<(String, String)>) -> Seq<(Seq<char>, Seq<char>)> {
    s.map_values(|e: (String, String)| (e.0@, e.1@))
}

impl View for PodWatch {
    type V = Seq<(Seq<char>, Seq<char>)>;

    closed spec fn view(&self) -> Seq<(Seq<char>, Seq<char>)> {
        pairs_view(self.found@)
    }
}

impl PodWatch {
    pub closed spec fn expected(&self) -> nat {
        self.expected as nat
    }

    pub closed spec fn wf(&self) -> bool {
        &&& names_unique(self@)
        &&& self@.len() <= self.expected
    }

    /// A watch that has found nothing yet.
    pub fn new(expected: usize) -> (r: Self)
        ensures
            r.wf(),
            r@ == Seq::<(Seq<char>, Seq<char>)>::empty(),
            r.expected() == expected,
    {
        let r = PodWatch { expected, found: Vec::new() };
        assert(r@ =~= Seq::<(Seq<char>, Seq<char>)>::empty());
        r
    }

    /// Whether all expected pods have been found.
    pub fn is_done(&self) -> (r: bool)
        ensures
            r == (self@.len() == self.expected()),
    {
        self.found.len() == self.expected
    }

    /// Records one pod that the watch reported as added or modified; returns whether all expected
    /// pods have now been found.
    ///
    /// Once done, the watch takes no more pods.
    pub fn observe(&mut self, pod: &WatchedPod) -> (r: bool)
        requires
            old(self).wf(),
        ensures
            final(self).wf(),
            final(self).expected() == old(self).expected(),
            final(self)@ == if old(self)@.len() == old(self).expected() {
                old(self)@
            } else {
                observe_pod(old(self)@, *pod)
            },
            r == (final(self)@.len() == final(self).expected()),
    {
        if self.found.len() == self.expected {
            return true;
        }
        let ip = match &pod.ip {
            Some(ip) => ip,
            None => {
                return false;
            },
        };
        proof {
            lemma_name_index(self@, pod.name@);
            lemma_upsert_unique(self@, pod.name@, ip@);
        }
        let ghost before = self@;
        let mut i: usize = self.found.len();
        while i > 0
            invariant
                i <= self.found@.len(),
                self@ == before,
                before == old(self)@,
                pod.ip == Some(*ip),
                self.expected == old(self).expected,
                self.found@.len() == before.len(),
                names_unique(before),
                before.len() < self.expected,
                forall|k: int| i <= k < before.len() ==> before[k].0 != pod.name@,
            decreases i,
        {
            if self.found[i - 1].0 == pod.name {
                self.found.set(i - 1, (pod.name.clone(), ip.clone()));
                assert(self@ =~= before.update(i - 1, (pod.name@, ip@)));
                proof {
                    lemma_name_index_tail(before, pod.name@, i as int);
                    lemma_upsert_unique(before, pod.name@, ip@);
                }
                return self.found.len() == self.expected;
            }
            i = i - 1;
        }
        proof {
            lemma_name_index(before, pod.name@);
            lemma_upsert_unique(before, pod.name@, ip@);
        }
        self.found.push((pod.name.clone(), ip.clone()));
        assert(self@ =~= before.push((pod.name@, ip@)));
        self.found.len() == self.expected
    }

    /// Records a batch of pods delivered at once, as after the watch restarted; returns whether
    /// all expected pods have now been found.
    pub fn observe_all(&mut self, batch: &Vec<WatchedPod>) -> (r: bool)
        requires
            old(self).wf(),
        ensures
            final(self).wf(),
            final(self).expected() == old(self).expected(),
            final(self)@ == if old(self)@.len() == old(self).expected() {
                old(self)@
            } else {
                observe_batch(old(self)@, old(self).expected(), batch@)
            },
            r == (final(self)@.len() == final(self).expected()),
    {
        if self.found.len() == self.expected {
            return true;
        }
        assert(batch@.subrange(0, batch@.len() as int) =~= batch@);
        let mut i: usize = 0;
        while i < batch.len()
            invariant
                self.wf(),
                self.expected() == old(self).expected(),
                0 <= i <= batch@.len(),
                self@.len() != self.expected(),
                old(self)@.len() != old(self).expected(),
                observe_batch(old(self)@, old(self).expected(), batch@) == observe_batch(
                    self@,
                    self.expected(),
                    batch@.subrange(i as int, batch@.len() as int),
                ),
            decreases batch@.len() - i,
        {
            let ghost rest = batch@.subrange(i as int, batch@.len() as int);
            let ghost before = self@;
            let done = self.observe(&batch[i]);
            assert(rest[0] == batch@[i as int]);
            assert(rest.drop_first() =~= batch@.subrange(i + 1, batch@.len() as int));
            assert(self@ == observe_pod(before, rest[0]));
            if done {
                assert(observe_batch(before, self.expected(), rest) == self@);
                return true;
            }
            i = i + 1;
        }
        assert(batch@.subrange(i as int, batch@.len() as int) =~= Seq::<WatchedPod>::empty());
        false
    }

    /// The pods found, as (name, IP) pairs.
    pub fn found(&self) -> (r: Vec<(String, String)>)
        ensures
            pairs_view(r@) == self@,
            self.wf() ==> names_unique(pairs_view(r@)),
    {
        let mut r: Vec<(String, String)> = Vec::new();
        let mut i: usize = 0;
        while i < self.found.len()
            invariant
                0 <= i <= self.found@.len(),
                r@.len() == i,
                pairs_view(r@) =~= pairs_view(self.found@).subrange(0, i as int),
            decreases self.found@.len() - i,
        {
            let ghost prev = r@;
            r.push((self.found[i].0.clone(), self.found[i].1.clone()));
            assert(r@ =~= prev.push(self.found@[i as int]));
            assert(pairs_view(r@)[i as int] == pairs_view(self.found@)[i as int]);
            i = i + 1;
        }
        assert(pairs_view(self.found@).subrange(0, i as int) =~= self@);
        r
    }
}

proof fn lemma_name_index_tail(found: Seq<(Seq<char>, Seq<char>)>, name: Seq<char>, i: int)
    requires
        0 < i <= found.len(),
        found[i - 1].0 == name,
        forall|k: int| i <= k < found.len() ==> found[k].0 != name,
    ensures
        name_index(found, name) == i - 1,
    decreases found.len(),
{
    if found.len() > i {
        assert(found.last().0 != name);
        lemma_name_index_tail(found.drop_last(), name, i);
    }
}

/// Counts down the pods of a cluster that are still to be deleted.
pub struct DeletionWatch {
    remaining: usize,
}

impl DeletionWatch {
    pub closed spec fn remaining(&self) -> nat {
        self.remaining as nat
    }

    /// Starts from the number of pods listed when the wait began.
    pub fn new(listed: usize) -> (r: Self)
        ensures
            r.remaining() == listed,
    {
        DeletionWatch { remaining: listed }
    }

    /// Whether no pod is left.
    pub fn is_done(&self) -> (r: bool)
        ensures
            r == (self.remaining() == 0),
    {
        self.remaining == 0
    }

    /// Records one deletion event; returns whether no pod is left.
    pub fn deleted(&mut self) -> (r: bool)
        ensures
            final(self).remaining() == if old(self).remaining() == 0 { 0 } else { (old(self).remaining() - 1) as nat },
            r == (final(self).remaining() == 0),
    {
        if self.remaining > 0 {
            self.remaining = self.remaining - 1;
        }
        self.remaining == 0
    }
}

/// A one-line description of a pod for logs: `<name> : <ip>` once it has an IP, else its name.
pub fn get_pod_ip(name: &Option<String>, ip: &Option<String>) -> (r: String)
    ensures
        ip is Some ==> r@ == (match opt_text(*name) {
            Some(n) => n,
            None => "Unnamed_pod"@,
        }) + " : "@ + ip->Some_0@,
        ip is None && name is Some ==> r@ == name->Some_0@,
        ip is None && name is None ==> r@ == "Unknown pod name with unknown IP."@,
{
    match ip {
        Some(ip) => match name {
            Some(n) => concat3(n.as_str(), " : ", ip.as_str()),
            None => concat3("Unnamed_pod", " : ", ip.as_str()),
        },
        None => match name {
            Some(n) => n.clone(),
            None => String::from_str("Unknown pod name with unknown IP."),
        },
    }
}

} // verus!
