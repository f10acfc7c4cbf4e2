//! Startup checks: the custom resource definition's versions, its readiness, and the
//! assisted-clustering module that the ConfigMap is filled from.
use vstd::prelude::*;

use crate::crd::texts;
use crate::text::concat3;

verus! {

/// Exit status of the process when startup fails.
pub const FATAL_EXIT_CODE: i32 = 1;
/// How long to wait for the definition's names to be accepted, in milliseconds.
pub const CRD_READY_TIMEOUT_MS: u64 = 30_000;
/// Pause between two looks at the definition's conditions, in milliseconds.
pub const CRD_READY_POLL_MS: u64 = 500;
/// Name of the environment variable that holds the path of the assisted-clustering module.
pub const H2O_CLUSTERING_JAR_PATH_KEY: &'static str = "H2O_CLUSTERING_JAR_PATH";

/// The spec versions of the custom resource that this operator serves.
pub open spec fn compiled_versions_view() -> Seq<Seq<char>> {
    seq!["v1beta"@]
}

/// The spec versions of the custom resource that this operator serves.
pub fn compiled_versions() -> (r: Vec<String>)
    ensures
        texts(r@) == compiled_versions_view(),
{
    let mut r: Vec<String> = Vec::new();
    r.push(String::from_str("v1beta"));
    assert(texts(r@) =~= compiled_versions_view());
    r
}

fn contains_text(v: &Vec<String>, s: &String) -> (r: bool)
    ensures
        r == texts(v@).contains(s@),
{
    let mut i: usize = 0;
    while i < v.len()
        invariant
            0 <= i <= v@.len(),
            forall|k: int| 0 <= k < i ==> texts(v@)[k] != s@,
        decreases v@.len() - i,
    {
        if v[i] == *s {
            assert(texts(v@)[i as int] == s@);
            return true;
        }
        i = i + 1;
    }
    false
}

fn all_contained(a: &Vec<String>, b: &Vec<String>) -> (r: bool)
    ensures
        r == forall|i: int| 0 <= i < a@.len() ==> texts(b@).contains(#[trigger] texts(a@)[i]),
{
    let mut i: usize = 0;
    while i < a.len()
        invariant
            0 <= i <= a@.len(),
            forall|k: int| 0 <= k < i ==> texts(b@).contains(#[trigger] texts(a@)[k]),
        decreases a@.len() - i,
    {
        if !contains_text(b, &a[i]) {
            assert(texts(a@)[i as int] == a@[i as int]@);
            return false;
        }
        i = i + 1;
    }
    true
}

/// Whether two lists of versions hold the same versions, as sets.
pub fn versions_match(served: &Vec<String>, compiled: &Vec<String>) -> (r: bool)
    ensures
        r == (texts(served@).to_set() == texts(compiled@).to_set()),
{
    let a = all_contained(served, compiled);
    let b = all_contained(compiled, served);
    let ghost sa = texts(served@);
    let ghost sb = texts(compiled@);
    if a && b {
        proof {
            assert forall|x: Seq<char>| sa.to_set().contains(x) <==> sb.to_set().contains(x) by {
                if sa.contains(x) {
                    let i = choose|i: int| 0 <= i < sa.len() && sa[i] == x;
                    assert(sb.contains(sa[i]));
                }
                if sb.contains(x) {
                    let i = choose|i: int| 0 <= i < sb.len() && sb[i] == x;
                    assert(sa.contains(sb[i]));
                }
            }
            assert(sa.to_set() =~= sb.to_set());
        }
        true
    } else {
        proof {
            if !a {
                let i = choose|i: int| 0 <= i < served@.len() && !sb.contains(#[trigger] sa[i]);
                assert(sa.to_set().contains(sa[i]));
                assert(!sb.to_set().contains(sa[i]));
            } else {
                let i = choose|i: int| 0 <= i < compiled@.len() && !sa.contains(#[trigger] sb[i]);
                assert(sb.to_set().contains(sb[i]));
                assert(!sa.to_set().contains(sb[i]));
            }
        }
        false
    }
}

/// What to do about the custom resource definition at startup.
#[derive(Debug, Clone, Copy, PartialEq, Eq, Structural)]
pub enum CrdCheck {
    /// It is absent: install it, then wait until its names are accepted.
    Install,
    /// It is present and serves exactly the compiled versions.
    Proceed,
    /// It is present and serves other versions: another generation of the controller owns it.
    Fatal,
}

/// Decides about the definition found at startup, given the versions it serves, or `None`
/// when it is absent.
pub fn crd_check(served: &Option<Vec<String>>) -> (r: CrdCheck)
    ensures
        served is None ==> r == CrdCheck::Install,
        served matches Some(v) ==> (r == CrdCheck::Fatal <==> texts(v@).to_set() != compiled_versions_view().to_set()),
        served matches Some(v) ==> (r == CrdCheck::Proceed <==> texts(v@).to_set() == compiled_versions_view().to_set()),
{
    match served {
        None => CrdCheck::Install,
        Some(v) => {
            let compiled = compiled_versions();
            if versions_match(v, &compiled) {
                CrdCheck::Proceed
            } else {
                CrdCheck::Fatal
            }
        },
    }
}

/// What to do while waiting for a freshly installed definition.
#[derive(Debug, Clone, Copy, PartialEq, Eq, Structural)]
pub enum CrdWait {
    /// Its names are accepted: go on.
    Ready,
    /// Look again after this many milliseconds.
    RetryAfter(u64),
    /// The wait is over; startup fails.
    TimedOut,
}

/// Decides after a look at the definition's `NamesAccepted` condition.
pub fn crd_wait_step(elapsed_ms: u64, names_accepted: bool) -> (r: CrdWait)
    ensures
        names_accepted ==> r == CrdWait::Ready,
        !names_accepted && elapsed_ms >= CRD_READY_TIMEOUT_MS ==> r == CrdWait::TimedOut,
        !names_accepted && elapsed_ms < CRD_READY_TIMEOUT_MS ==> r == CrdWait::RetryAfter(CRD_READY_POLL_MS),
{
    if names_accepted {
        CrdWait::Ready
    } else if elapsed_ms >= CRD_READY_TIMEOUT_MS {
        CrdWait::TimedOut
    } else {
        CrdWait::RetryAfter(CRD_READY_POLL_MS)
    }
}

/// Checks the path of the assisted-clustering module: the environment variable must be set
/// (`path`), and name a regular file (`is_file`, found by the caller). The error says why not.
pub fn clustering_jar_path(path: Option<String>, is_file: bool) -> (r: Result<String, String>)
    ensures
        path is None ==> (r is Err && r->Err_0@ == "H2O Clustering module JAR path environment variable 'H2O_CLUSTERING_JAR_PATH' not present."@),
        path is Some && is_file ==> (r is Ok && r->Ok_0@ == path->Some_0@),
        path is Some && !is_file ==> (r is Err && r->Err_0@ == "Path leading to H2O assisted clustering module JAR "@ + path->Some_0@
            + " does not represent a file."@),
{
    match path {
        None => Err(String::from_str("H2O Clustering module JAR path environment variable 'H2O_CLUSTERING_JAR_PATH' not present.")),
        Some(p) => {
            if is_file {
                Ok(p)
            } else {
                Err(concat3("Path leading to H2O assisted clustering module JAR ", p.as_str(), " does not represent a file."))
            }
        },
    }
}

/// Whether the existing ConfigMap must be deleted before it is created afresh: whenever one exists.
pub fn configmap_needs_delete(exists: bool) -> (r: bool)
    ensures
        r == exists,
{
    exists
}

} // verus!
