//! Probing the hosts of the cluster, one at a time.
use vstd::prelude::*;
use vstd::string::StringExecFns;
use crate::record::strings_view;

verus! {

/// The hosts of the cluster, in the order they are probed.
pub open spec fn cluster_hosts_spec() -> Seq<Seq<char>> {
    seq![
        "monitor-0"@,
        "tidb-0"@,
        "tikv-0"@,
        "tikv-1"@,
        "tikv-2"@,
        "pd-0"@,
        "pd-1"@,
        "pd-2"@,
    ]
}

/// The hosts of the cluster, in the order they are probed.
pub fn cluster_hosts() -> (r: Vec<String>)
    ensures
        strings_view(r@) == cluster_hosts_spec(),
{
    let r: Vec<String> = vec![
        String::from_str("monitor-0"),
        String::from_str("tidb-0"),
        String::from_str("tikv-0"),
        String::from_str("tikv-1"),
        String::from_str("tikv-2"),
        String::from_str("pd-0"),
        String::from_str("pd-1"),
        String::from_str("pd-2"),
    ];
    assert(strings_view(r@) =~= cluster_hosts_spec());
    r
}

/// The next step of a probe of the cluster.
#[derive(Debug, PartialEq, Clone)]
pub enum ClusterProbe {
    /// Ask this host for its status next.
    Probe(String),
    /// The probe is over: the status of every host, or `None` where a host
    /// answered with nothing, which means the cluster has no hosts yet.
    Done(Option<Vec<String>>),
}

/// Some answer is empty.
pub open spec fn has_empty(outputs: Seq<Seq<char>>) -> bool {
    exists|i: int| 0 <= i < outputs.len() && (#[trigger] outputs[i]).len() == 0
}

/// Given the answers of the hosts probed so far, in order, says which host to
/// probe next, or what the probe found.
pub fn get_cluster_info(outputs: Vec<String>) -> (r: ClusterProbe)
    ensures
        has_empty(strings_view(outputs@)) ==> r == ClusterProbe::Done(None),
        !has_empty(strings_view(outputs@)) && outputs@.len() >= cluster_hosts_spec().len() ==> (
        r matches ClusterProbe::Done(Some(v)) && v@ == outputs@),
        !has_empty(strings_view(outputs@)) && outputs@.len() < cluster_hosts_spec().len() ==> (
        r matches ClusterProbe::Probe(h) && h@ == cluster_hosts_spec()[outputs@.len() as int]),
{
    let mut i: usize = 0;
    while i < outputs.len()
        invariant
            i <= outputs.len(),
            forall|k: int| 0 <= k < i ==> (#[trigger] outputs@[k])@.len() > 0,
        decreases outputs.len() - i,
    {
        if outputs[i].unicode_len() == 0 {
            assert(strings_view(outputs@)[i as int].len() == 0);
            return ClusterProbe::Done(None);
        }
        i += 1;
    }
    assert(!has_empty(strings_view(outputs@))) by {
        assert forall|k: int| 0 <= k < outputs@.len() implies (#[trigger] strings_view(outputs@)[k]).len() > 0 by {
            assert(outputs@[k]@.len() > 0);
        }
    }
    let hosts = cluster_hosts();
    if outputs.len() < hosts.len() {
        let h = hosts[outputs.len()].clone();
        assert(h@ == strings_view(hosts@)[outputs@.len() as int]);
        ClusterProbe::Probe(h)
    } else {
        ClusterProbe::Done(Some(outputs))
    }
}

} // verus!
