//! Assisted clustering: the decisions taken while a cluster's pods are driven into one H2O
//! cluster over their bootstrap HTTP API.
use vstd::prelude::*;

use crate::fleet::pairs_view;
use crate::crd::{texts, H2OSpec};
use crate::template::{
    lemma_recreated_pods_fresh, leader_label_value, pod_views, rendered_leader_service, rendered_pods, PodManifest,
    PodView, LEADER_LABEL,
};
use crate::text::{concat, concat3, parse_i64, parsed_i64};

verus! {

/// HTTP status of a bootstrap API that is online while the cluster has not formed yet.
pub const STATUS_NOT_CLUSTERED: u16 = 204;
/// HTTP status of an accepted request, and of a cluster status once the cluster has formed.
pub const STATUS_OK: u16 = 200;
/// How long the cluster status is polled before giving up, in milliseconds.
pub const CLUSTERED_TIMEOUT_MS: u64 = 180_000;
/// Pause between two polls of the cluster status, in milliseconds.
pub const CLUSTERED_POLL_MS: u64 = 100;
/// Pause between two rounds of the bootstrap API check, in milliseconds.
pub const API_ONLINE_BACKOFF_MS: u64 = 1000;

/// A flatfile line: the address of one node's H2O port.
pub open spec fn flatfile_entry(ip: Seq<char>) -> Seq<char> {
    ip + ":54321"@
}

pub open spec fn flatfile_entries(ips: Seq<Seq<char>>) -> Seq<Seq<char>> {
    ips.map_values(|ip: Seq<char>| flatfile_entry(ip))
}

/// Lines joined by newlines, with no newline after the last.
pub open spec fn join_lines(lines: Seq<Seq<char>>) -> Seq<char>
    decreases lines.len(),
{
    if lines.len() == 0 {
        Seq::empty()
    } else if lines.len() == 1 {
        lines[0]
    } else {
        join_lines(lines.drop_last()) + "\n"@ + lines.last()
    }
}

/// The flatfile sent to every node: one line per node IP.
pub open spec fn flatfile_text(ips: Seq<Seq<char>>) -> Seq<char> {
    join_lines(flatfile_entries(ips))
}

/// The flatfile listing the given pod IPs.
pub fn create_flatfile(pod_ips: &Vec<String>) -> (r: String)
    ensures
        r@ == flatfile_text(texts(pod_ips@)),
{
    let ghost ips = texts(pod_ips@);
    let mut out = String::new();
    let mut i: usize = 0;
    while i < pod_ips.len()
        invariant
            0 <= i <= pod_ips@.len(),
            ips == texts(pod_ips@),
            out@ == join_lines(flatfile_entries(ips.subrange(0, i as int))),
        decreases pod_ips@.len() - i,
    {
        let ghost before = flatfile_entries(ips.subrange(0, i as int));
        let ghost after = flatfile_entries(ips.subrange(0, i + 1));
        assert(after.drop_last() =~= before);
        assert(after.last() == flatfile_entry(pod_ips@[i as int]@));
        if i == 0 {
            out = concat(pod_ips[i].as_str(), ":54321");
        } else {
            let line = concat3("\n", pod_ips[i].as_str(), ":54321");
            out.append(line.as_str());
            assert(out@ =~= join_lines(before) + "\n"@ + after.last());
        }
        i = i + 1;
    }
    assert(ips.subrange(0, i as int) =~= ips);
    out
}

/// A flatfile has one line per pod IP, in the order given: when the pods' IPs are distinct, each
/// node's address appears in it exactly once.
pub proof fn lemma_flatfile_lists_each_ip_once(ips: Seq<Seq<char>>)
    requires
        ips.no_duplicates(),
    ensures
        flatfile_entries(ips).len() == ips.len(),
        forall|i: int| 0 <= i < ips.len() ==> #[trigger] flatfile_entries(ips)[i] == flatfile_entry(ips[i]),
        flatfile_entries(ips).no_duplicates(),
        flatfile_text(ips) == join_lines(flatfile_entries(ips)),
{
    let e = flatfile_entries(ips);
    assert forall|i: int, j: int| 0 <= i < e.len() && 0 <= j < e.len() && i != j implies e[i] != e[j] by {
        if e[i] == e[j] {
            let a = ips[i];
            let b = ips[j];
            assert(flatfile_entry(a).len() == flatfile_entry(b).len());
            assert(a.len() == b.len());
            assert(a =~= flatfile_entry(a).subrange(0, a.len() as int));
            assert(b =~= flatfile_entry(b).subrange(0, b.len() as int));
        }
    }
}

/// Whether every pod's bootstrap API answered that it is online and not yet clustered; `None`
/// stands for a request that failed.
pub fn clustering_api_online(statuses: &Vec<Option<u16>>) -> (r: bool)
    ensures
        r == forall|i: int| 0 <= i < statuses@.len() ==> #[trigger] statuses@[i] == Some(STATUS_NOT_CLUSTERED),
{
    let mut i: usize = 0;
    while i < statuses.len()
        invariant
            0 <= i <= statuses@.len(),
            forall|k: int| 0 <= k < i ==> #[trigger] statuses@[k] == Some(STATUS_NOT_CLUSTERED),
        decreases statuses@.len() - i,
    {
        match statuses[i] {
            Some(code) => {
                if code != STATUS_NOT_CLUSTERED {
                    return false;
                }
            },
            None => {
                return false;
            },
        }
        i = i + 1;
    }
    true
}

/// Whether every pod accepted the flatfile; `None` stands for a request that failed.
pub fn flatfile_accepted(statuses: &Vec<Option<u16>>) -> (r: bool)
    ensures
        r == forall|i: int| 0 <= i < statuses@.len() ==> #[trigger] statuses@[i] == Some(STATUS_OK),
{
    let mut i: usize = 0;
    while i < statuses.len()
        invariant
            0 <= i <= statuses@.len(),
            forall|k: int| 0 <= k < i ==> #[trigger] statuses@[k] == Some(STATUS_OK),
        decreases statuses@.len() - i,
    {
        match statuses[i] {
            Some(code) => {
                if code != STATUS_OK {
                    return false;
                }
            },
            None => {
                return false;
            },
        }
        i = i + 1;
    }
    true
}

/// What to do after one poll of the cluster status.
#[derive(Debug, Clone, Copy, PartialEq, Eq)]
pub enum PollStep {
    /// The cluster has formed: read the body of this answer.
    ReadStatus,
    /// Poll again after this many milliseconds.
    RetryAfter(u64),
    /// The wait is over and the cluster has not formed.
    TimedOut,
}

/// Decides what follows a poll of the cluster status, given the time spent polling so far and
/// the HTTP status of the answer (`None` when the request failed).
pub fn cluster_status_poll(elapsed_ms: u64, status: Option<u16>) -> (r: PollStep)
    ensures
        status == Some(STATUS_OK) ==> r == PollStep::ReadStatus,
        status != Some(STATUS_OK) && elapsed_ms >= CLUSTERED_TIMEOUT_MS ==> r == PollStep::TimedOut,
        status != Some(STATUS_OK) && elapsed_ms < CLUSTERED_TIMEOUT_MS ==> r == PollStep::RetryAfter(CLUSTERED_POLL_MS),
{
    if status == Some(STATUS_OK) {
        PollStep::ReadStatus
    } else if elapsed_ms >= CLUSTERED_TIMEOUT_MS {
        PollStep::TimedOut
    } else {
        PollStep::RetryAfter(CLUSTERED_POLL_MS)
    }
}

/// Position of the last `:` in `s`, or -1.
pub open spec fn last_colon(s: Seq<char>) -> int
    decreases s.len(),
{
    if s.len() == 0 {
        -1
    } else if s.last() == ':' {
        s.len() - 1
    } else {
        last_colon(s.drop_last())
    }
}

/// The host part of an address, without the brackets around an IPv6 address.
pub open spec fn unbracketed(host: Seq<char>) -> Seq<char> {
    if host.len() >= 2 && host[0] == '[' && host.last() == ']' {
        host.subrange(1, host.len() - 1)
    } else {
        host
    }
}

/// The host of the leader in `leader_node`, written `<host>:<port>`, brackets around an IPv6
/// address removed: present when the text has a non-empty host and a port between 0 and 65535.
/// The host is compared as text with the pods' IPs.
pub open spec fn leader_ip_of(leader_node: Seq<char>) -> Option<Seq<char>> {
    let k = last_colon(leader_node);
    if k <= 0 {
        None
    } else {
        let port = leader_node.subrange(k + 1, leader_node.len() as int);
        let host = unbracketed(leader_node.subrange(0, k));
        match parsed_i64(port) {
            Some(p) => if 0 <= p <= 65535 && host.len() > 0 && port[0] != '+' && port[0] != '-' {
                Some(host)
            } else {
                None
            },
            None => None,
        }
    }
}

proof fn lemma_last_colon(s: Seq<char>)
    ensures
        -1 <= last_colon(s) < s.len(),
        last_colon(s) >= 0 ==> s[last_colon(s)] == ':',
        forall|i: int| last_colon(s) < i < s.len() ==> s[i] != ':',
    decreases s.len(),
{
    if s.len() > 0 {
        lemma_last_colon(s.drop_last());
        assert forall|i: int| 0 <= i < s.len() - 1 implies s.drop_last()[i] == s[i] by {}
    }
}

proof fn lemma_last_colon_at(s: Seq<char>, k: int)
    requires
        0 <= k < s.len(),
        s[k] == ':',
        forall|i: int| k < i < s.len() ==> s[i] != ':',
    ensures
        last_colon(s) == k,
    decreases s.len(),
{
    if s.len() - 1 > k {
        assert(s.last() != ':');
        assert forall|i: int| k < i < s.len() - 1 implies s.drop_last()[i] != ':' by {
            assert(s.drop_last()[i] == s[i]);
        }
        lemma_last_colon_at(s.drop_last(), k);
    }
}

/// Reads the leader's host out of the `leader_node` field of a cluster status; see `leader_ip_of`.
pub fn leader_ip(leader_node: &str) -> (r: Option<String>)
    requires
        leader_node@.len() < usize::MAX,
    ensures
        r matches Some(ip) ==> leader_ip_of(leader_node@) == Some(ip@),
        r is None ==> leader_ip_of(leader_node@) is None,
{
    let ghost s = leader_node@;
    let len = leader_node.unicode_len();
    let mut i: usize = len;
    while i > 0 && leader_node.get_char(i - 1) != ':'
        invariant
            i <= len,
            len == s.len(),
            s == leader_node@,
            forall|k: int| i <= k < len ==> s[k] != ':',
        decreases i,
    {
        i = i - 1;
    }
    proof {
        lemma_last_colon(s);
    }
    if i <= 1 {
        proof {
            if last_colon(s) > 0 {
                assert(s[last_colon(s)] == ':');
            }
        }
        return None;
    }
    let k: usize = i - 1;
    proof {
        lemma_last_colon_at(s, k as int);
    }
    let port = leader_node.substring_char(k + 1, len);
    let host = leader_node.substring_char(0, k);
    let hlen = host.unicode_len();
    let host_ip: &str = if hlen >= 2 && host.get_char(0) == '[' && host.get_char(hlen - 1) == ']' {
        host.substring_char(1, hlen - 1)
    } else {
        host
    };
    assert(host_ip@ == unbracketed(s.subrange(0, k as int)));
    if port.unicode_len() == 0 {
        assert(parsed_i64(port@) is None);
        return None;
    }
    let first = port.get_char(0);
    match parse_i64(port) {
        Some(p) => {
            if 0 <= p && p <= 65535 && host_ip.unicode_len() > 0 && first != '+' && first != '-' {
                Some(String::from_str(host_ip))
            } else {
                None
            }
        },
        None => None,
    }
}

/// Position of the first pod whose IP is `ip`, or -1.
pub open spec fn first_with_ip(pods: Seq<(Seq<char>, Seq<char>)>, ip: Seq<char>) -> int
    decreases pods.len(),
{
    if pods.len() == 0 {
        -1
    } else if pods[0].1 == ip {
        0
    } else {
        let rest = first_with_ip(pods.drop_first(), ip);
        if rest < 0 { -1 } else { rest + 1 }
    }
}

proof fn lemma_first_with_ip_step(pods: Seq<(Seq<char>, Seq<char>)>, ip: Seq<char>, i: int)
    requires
        0 <= i < pods.len(),
        forall|k: int| 0 <= k < i ==> pods[k].1 != ip,
    ensures
        pods[i].1 == ip ==> first_with_ip(pods, ip) == i,
        i == pods.len() - 1 && pods[i].1 != ip ==> first_with_ip(pods, ip) == -1,
    decreases i,
{
    if i > 0 {
        assert forall|k: int| 0 <= k < i - 1 implies pods.drop_first()[k].1 != ip by {
            assert(pods.drop_first()[k] == pods[k + 1]);
        }
        assert(pods.drop_first()[i - 1] == pods[i]);
        assert(pods[0].1 != ip);
        lemma_first_with_ip_step(pods.drop_first(), ip, i - 1);
    } else if pods.len() == 1 && pods[0].1 != ip {
        assert(pods.drop_first().len() == 0);
        assert(first_with_ip(pods.drop_first(), ip) == -1);
    }
}

/// Finds the leader among the (name, IP) pairs of a cluster's pods: the first pod with the
/// leader's IP.
pub fn leader_pod_index(pods: &Vec<(String, String)>, ip: &String) -> (r: Option<usize>)
    ensures
        r matches Some(k) ==> first_with_ip(pairs_view(pods@), ip@) == k,
        r is None ==> first_with_ip(pairs_view(pods@), ip@) == -1,
{
    let ghost v = pairs_view(pods@);
    let mut i: usize = 0;
    while i < pods.len()
        invariant
            0 <= i <= pods@.len(),
            v == pairs_view(pods@),
            forall|k: int| 0 <= k < i ==> v[k].1 != ip@,
        decreases pods@.len() - i,
    {
        if pods[i].1 == *ip {
            proof {
                lemma_first_with_ip_step(v, ip@, i as int);
            }
            return Some(i);
        }
        proof {
            lemma_first_with_ip_step(v, ip@, i as int);
        }
        i = i + 1;
    }
    proof {
        if pods.len() == 0 {
            assert(v.len() == 0);
        } else {
            lemma_first_with_ip_step(v, ip@, pods.len() - 1);
        }
    }
    None
}

/// The merge patch that labels a pod as the leader of cluster `name`; it touches the labels only.
pub fn leader_label_patch(name: &str) -> (r: String)
    ensures
        r@ == "{\"metadata\":{\"labels\":{\"h2o_leader_node_pod\":\""@ + leader_label_value(name@) + "\"}}}"@,
{
    let value = concat(name, "-leader");
    concat3("{\"metadata\":{\"labels\":{\"h2o_leader_node_pod\":\"", value.as_str(), "\"}}}")
}

/// Whether a pod's labels mark it as the leader of cluster `name`.
pub open spec fn carries_leader_label(labels: Seq<(Seq<char>, Seq<char>)>, name: Seq<char>) -> bool {
    labels.contains((LEADER_LABEL@, leader_label_value(name)))
}

/// The pods' labels after the leader patch was applied to pod `k`.
pub open spec fn labels_after_leader_patch(pods: Seq<PodView>, k: int, name: Seq<char>) -> Seq<Seq<(Seq<char>, Seq<char>)>> {
    Seq::new(
        pods.len(),
        |i: int| if i == k { pods[i].labels.push((LEADER_LABEL@, leader_label_value(name))) } else { pods[i].labels },
    )
}

/// Once the leader patch was applied to one pod of a freshly created cluster, exactly that pod
/// carries the leader label, and the leader service selects on that label.
pub proof fn lemma_single_leader(spec: H2OSpec, name: Seq<char>, namespace: Seq<char>, pods: Seq<PodManifest>, k: int)
    requires
        rendered_pods(spec, name, namespace, pods),
        0 <= k < pods.len(),
    ensures
        ({
            let after = labels_after_leader_patch(pod_views(pods), k, name);
            &&& after.len() == pods.len()
            &&& forall|i: int| 0 <= i < after.len() ==> (carries_leader_label(#[trigger] after[i], name) <==> i == k)
        }),
        rendered_leader_service(name, namespace).selector == seq![(LEADER_LABEL@, leader_label_value(name))],
{
    lemma_recreated_pods_fresh(spec, name, namespace, pods);
    let after = labels_after_leader_patch(pod_views(pods), k, name);
    assert forall|i: int| 0 <= i < after.len() implies (carries_leader_label(#[trigger] after[i], name) <==> i == k) by {
        assert(pod_views(pods)[i] == pods[i]@);
        if i == k {
            assert(after[i].last() == (LEADER_LABEL@, leader_label_value(name)));
        } else {
            assert(after[i] == pods[i]@.labels);
        }
    }
}

/// Whether a node reports a healthy cluster of the expected size.
pub fn is_node_healthy(healthy_nodes: usize, unhealthy_nodes: usize, expected_size: usize) -> (r: bool)
    ensures
        r == (healthy_nodes == expected_size && unhealthy_nodes == 0),
{
    healthy_nodes == expected_size && unhealthy_nodes == 0
}

/// Whether a cluster is healthy: it has the expected number of pods and every node reported
/// itself healthy.
pub fn cluster_healthy(pod_count: usize, node_count: u32, node_verdicts: &Vec<bool>) -> (r: bool)
    ensures
        r == (pod_count == node_count && forall|i: int| 0 <= i < node_verdicts@.len() ==> #[trigger] node_verdicts@[i]),
{
    if pod_count != node_count as usize {
        return false;
    }
    let mut i: usize = 0;
    while i < node_verdicts.len()
        invariant
            0 <= i <= node_verdicts@.len(),
            forall|k: int| 0 <= k < i ==> #[trigger] node_verdicts@[k],
        decreases node_verdicts@.len() - i,
    {
        if !node_verdicts[i] {
            return false;
        }
        i = i + 1;
    }
    true
}

} // verus!
