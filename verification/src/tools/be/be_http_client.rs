use crate::config_loader::DorisConfig;
use crate::error::{CliError, ErrorView};
use crate::text::{
    concat3, contains, decimal_text, has_substring, holds_text, join, joined, lines, lines_of,
    opt_str, sorted_set, strictly_in_order, texts, u64_to_string,
};
use crate::tools::mysql::cluster::{
    alive_hosts, backend_views, BackendView, ClusterInfo, ClusterInfoView,
};
use vstd::prelude::*;

verus! {

/// The address at which a storage node is asked where no node is known.
pub open spec fn default_be_ip() -> Seq<char> {
    "127.0.0.1"@
}

/// The web ports of the storage nodes that are alive, in order.
pub open spec fn alive_http_ports(backends: Seq<BackendView>) -> Seq<u16>
    decreases backends.len(),
{
    if backends.len() == 0 {
        seq![]
    } else if backends.last().alive {
        alive_http_ports(backends.drop_last()).push(backends.last().http_port)
    } else {
        alive_http_ports(backends.drop_last())
    }
}

/// The ports on which the storage role's web server is asked: the port of the
/// record where it names one; else the ports of the storage nodes of the cluster
/// that are alive; else the two usual ports.
pub open spec fn be_http_ports(webserver_port: Option<Option<u16>>, cluster: Option<ClusterInfoView>)
    -> Seq<u16> {
    let configured = match webserver_port {
        Some(Some(p)) => seq![p],
        _ => seq![],
    };
    let known = match cluster {
        Some(c) => alive_http_ports(c.backends),
        None => seq![],
    };
    if configured.len() > 0 {
        configured
    } else if known.len() > 0 {
        known
    } else {
        seq![8040u16, 8041u16]
    }
}

/// The port of a record, where there is a record.
pub open spec fn configured_port(config: Option<&DorisConfig>) -> Option<Option<u16>> {
    match config {
        Some(c) => Some(c.webserver_port),
        None => None,
    }
}

/// What optional knowledge of the cluster holds.
pub open spec fn opt_cluster(cluster: Option<&ClusterInfo>) -> Option<ClusterInfoView> {
    match cluster {
        Some(c) => Some(c@),
        None => None,
    }
}

/// The ports on which the storage role's web server is asked, from the
/// reconciled record and from what is known of the cluster, as far as either
/// could be loaded. This never fails.
pub fn get_be_http_ports(config: Option<&DorisConfig>, cluster: Option<&ClusterInfo>) -> (r: Result<
    Vec<u16>,
    CliError,
>)
    ensures
        r is Ok,
        r->Ok_0@ == be_http_ports(configured_port(config), opt_cluster(cluster)),
{
    match config {
        Some(c) => match c.webserver_port {
            Some(p) => {
                let mut ports: Vec<u16> = Vec::new();
                ports.push(p);
                assert(ports@ =~= seq![p]);
                return Ok(ports);
            },
            None => {},
        },
        None => {},
    }
    match cluster {
        Some(info) => {
            let mut ports: Vec<u16> = Vec::new();
            let ghost all = backend_views(info.backends@);
            let mut i: usize = 0;
            assert(all.take(0) =~= Seq::<BackendView>::empty());
            while i < info.backends.len()
                invariant
                    i <= info.backends.len(),
                    all == backend_views(info.backends@),
                    ports@ == alive_http_ports(all.take(i as int)),
                decreases info.backends.len() - i,
            {
                let ghost next = all.take(i + 1);
                assert(next.drop_last() == all.take(i as int));
                assert(next.last() == info.backends@[i as int]@);
                if info.backends[i].alive {
                    ports.push(info.backends[i].http_port);
                }
                i += 1;
            }
            assert(all.take(info.backends.len() as int) == all);
            if ports.len() > 0 {
                return Ok(ports);
            }
        },
        None => {},
    }
    let mut ports: Vec<u16> = Vec::new();
    ports.push(8040);
    ports.push(8041);
    assert(ports@ =~= seq![8040u16, 8041u16]);
    Ok(ports)
}

/// The addresses of the storage nodes to ask: those of the cluster that are
/// alive, or the local address where none is known.
pub open spec fn be_ips(cluster: Option<ClusterInfoView>) -> Seq<Seq<char>> {
    let known = match cluster {
        Some(c) => alive_hosts(c.backends),
        None => seq![],
    };
    if known.len() > 0 {
        known
    } else {
        seq![default_be_ip()]
    }
}

/// The addresses of the storage nodes to ask. This never fails.
pub fn get_be_ip(cluster: Option<&ClusterInfo>) -> (r: Result<Vec<String>, CliError>)
    ensures
        r is Ok,
        texts(r->Ok_0@) == be_ips(opt_cluster(cluster)),
{
    match cluster {
        Some(info) => {
            let hosts = info.list_be_hosts();
            if hosts.len() > 0 {
                return Ok(hosts);
            }
        },
        None => {},
    }
    let mut hosts: Vec<String> = Vec::new();
    hosts.push("127.0.0.1".to_owned());
    assert(texts(hosts@) =~= seq![default_be_ip()]);
    Ok(hosts)
}

/// The hosts to ask, in order and each once: the host that the operator chose,
/// where one was chosen, and the hosts of the cluster; the local address where
/// there is neither.
pub fn be_hosts(selected: Option<&str>, cluster_hosts: &Vec<String>) -> (r: Vec<String>)
    ensures
        strictly_in_order(texts(r@)),
        forall|s: Seq<char>|
            holds_text(texts(r@), s) <==> if selected is None && cluster_hosts@.len() == 0 {
                s == default_be_ip()
            } else {
                opt_str(selected) == Some(s) || holds_text(texts(cluster_hosts@), s)
            },
{
    let mut all: Vec<String> = Vec::new();
    match selected {
        Some(host) => {
            all.push(host.to_owned());
        },
        None => {},
    }
    let ghost first = texts(all@);
    let mut i: usize = 0;
    while i < cluster_hosts.len()
        invariant
            i <= cluster_hosts.len(),
            texts(all@) =~= first + texts(cluster_hosts@).take(i as int),
        decreases cluster_hosts.len() - i,
    {
        let ghost before = texts(all@);
        all.push(cluster_hosts[i].clone());
        assert(texts(all@) =~= before.push(cluster_hosts@[i as int]@));
        assert(texts(cluster_hosts@).take(i + 1) =~= texts(cluster_hosts@).take(i as int).push(
            cluster_hosts@[i as int]@,
        ));
        i += 1;
    }
    if all.len() == 0 {
        all.push("127.0.0.1".to_owned());
    }
    let ghost wanted = texts(all@);
    proof {
        let cluster = texts(cluster_hosts@);
        assert(cluster.take(cluster.len() as int) == cluster);
        assert forall|s: Seq<char>| holds_text(wanted, s) <==> if selected is None
            && cluster_hosts@.len() == 0 {
            s == default_be_ip()
        } else {
            opt_str(selected) == Some(s) || holds_text(cluster, s)
        } by {
            if selected is None && cluster_hosts@.len() == 0 {
                assert(wanted =~= seq![default_be_ip()]);
                if s == default_be_ip() {
                    assert(wanted[0] == s);
                }
            } else {
                assert(wanted =~= first + cluster);
                if opt_str(selected) == Some(s) {
                    assert(wanted[0] == s);
                }
                if holds_text(cluster, s) {
                    let k = choose|k: int| 0 <= k < cluster.len() && cluster[k] == s;
                    assert(wanted[first.len() + k] == s);
                }
                if holds_text(wanted, s) {
                    let k = choose|k: int| 0 <= k < wanted.len() && wanted[k] == s;
                    if k >= first.len() {
                        assert(cluster[k - first.len()] == s);
                    }
                }
            }
        }
    }
    sorted_set(&all)
}

/// Whether each port is below the next, so that none occurs twice.
pub open spec fn ascending(ports: Seq<u16>) -> bool {
    forall|i: int, j: int| 0 <= i < j < ports.len() ==> ports[i] < ports[j]
}

/// The ports of a list in ascending order, each once.
pub fn ascending_ports(ports: &Vec<u16>) -> (r: Vec<u16>)
    ensures
        ascending(r@),
        forall|p: u16| r@.contains(p) <==> ports@.contains(p),
{
    let mut out: Vec<u16> = Vec::new();
    let mut i: usize = 0;
    while i < ports.len()
        invariant
            i <= ports.len(),
            ascending(out@),
            forall|p: u16| out@.contains(p) <==> ports@.take(i as int).contains(p),
        decreases ports.len() - i,
    {
        let port = ports[i];
        let mut at: usize = 0;
        while at < out.len() && out[at] < port
            invariant
                at <= out.len(),
                ascending(out@),
                forall|k: int| 0 <= k < at ==> out@[k] < port,
            decreases out.len() - at,
        {
            at += 1;
        }
        let ghost held = out@;
        let ghost seen = ports@.take(i as int);
        let ghost next = ports@.take(i + 1);
        assert(next =~= seen.push(port));
        if at == out.len() || out[at] != port {
            out.insert(at, port);
            assert(out@ =~= held.take(at as int) + seq![port] + held.skip(at as int));
            assert forall|p: u16| out@.contains(p) <==> next.contains(p) by {
                if held.contains(p) {
                    let k = choose|k: int| 0 <= k < held.len() && held[k] == p;
                    if k < at {
                        assert(out@[k] == p);
                    } else {
                        assert(out@[k + 1] == p);
                    }
                }
                if p == port {
                    assert(out@[at as int] == p);
                    assert(next[i as int] == p);
                }
                if out@.contains(p) && p != port {
                    let k = choose|k: int| 0 <= k < out@.len() && out@[k] == p;
                    if k < at {
                        assert(held[k] == p);
                    } else {
                        assert(held[k - 1] == p);
                    }
                    assert(seen.contains(p));
                    let n = choose|n: int| 0 <= n < seen.len() && seen[n] == p;
                    assert(next[n] == p);
                }
                if next.contains(p) && p != port {
                    let n = choose|n: int| 0 <= n < next.len() && next[n] == p;
                    assert(seen[n] == p);
                }
            }
        } else {
            assert forall|p: u16| out@.contains(p) <==> next.contains(p) by {
                if p == port {
                    assert(out@[at as int] == p);
                    assert(next[i as int] == p);
                }
                if out@.contains(p) {
                    assert(seen.contains(p));
                    let n = choose|n: int| 0 <= n < seen.len() && seen[n] == p;
                    assert(next[n] == p);
                }
                if next.contains(p) && p != port {
                    let n = choose|n: int| 0 <= n < next.len() && next[n] == p;
                    assert(seen[n] == p);
                }
            }
        }
        i += 1;
    }
    assert(ports@.take(ports.len() as int) == ports@);
    out
}

/// What a list of addresses holds: hosts with ports.
pub open spec fn target_views(v: Seq<(String, u16)>) -> Seq<(Seq<char>, u16)> {
    Seq::new(v.len(), |i: int| (v[i].0@, v[i].1))
}

/// A host with each port of a list.
pub open spec fn host_targets(host: Seq<char>, ports: Seq<u16>) -> Seq<(Seq<char>, u16)> {
    Seq::new(ports.len(), |j: int| (host, ports[j]))
}

/// Each host of a list with each port of a list: the first host with all
/// ports in turn, then the next host, and so on.
pub open spec fn targets_of(hosts: Seq<Seq<char>>, ports: Seq<u16>) -> Seq<(Seq<char>, u16)>
    decreases hosts.len(),
{
    if hosts.len() == 0 {
        seq![]
    } else {
        targets_of(hosts.drop_last(), ports) + host_targets(hosts.last(), ports)
    }
}

/// The addresses to ask, in the order in which they are tried: each host with
/// each port.
pub fn be_targets(hosts: &Vec<String>, ports: &Vec<u16>) -> (r: Vec<(String, u16)>)
    ensures
        target_views(r@) == targets_of(texts(hosts@), ports@),
{
    let ghost all = texts(hosts@);
    let mut out: Vec<(String, u16)> = Vec::new();
    let mut i: usize = 0;
    assert(all.take(0) =~= Seq::<Seq<char>>::empty());
    assert(target_views(out@) =~= seq![]);
    while i < hosts.len()
        invariant
            i <= hosts.len(),
            all == texts(hosts@),
            target_views(out@) == targets_of(all.take(i as int), ports@),
        decreases hosts.len() - i,
    {
        let ghost next = all.take(i + 1);
        assert(next.drop_last() == all.take(i as int));
        assert(next.last() == hosts@[i as int]@);
        let ghost before = target_views(out@);
        let mut j: usize = 0;
        while j < ports.len()
            invariant
                j <= ports.len(),
                i < hosts.len(),
                target_views(out@) =~= before + host_targets(hosts@[i as int]@, ports@).take(
                    j as int,
                ),
            decreases ports.len() - j,
        {
            let ghost held = target_views(out@);
            out.push((hosts[i].clone(), ports[j]));
            assert(target_views(out@) =~= held.push((hosts@[i as int]@, ports@[j as int])));
            assert(host_targets(hosts@[i as int]@, ports@).take(j + 1) =~= host_targets(
                hosts@[i as int]@,
                ports@,
            ).take(j as int).push((hosts@[i as int]@, ports@[j as int])));
            j += 1;
        }
        assert(host_targets(hosts@[i as int]@, ports@).take(ports.len() as int) == host_targets(
            hosts@[i as int]@,
            ports@,
        ));
        i += 1;
    }
    assert(all.take(hosts.len() as int) == all);
    out
}

/// An address as it is written: the host, a colon and the port.
pub fn target_name(host: &str, port: u16) -> (r: String)
    ensures
        r@ == host@ + ":"@ + decimal_text(port as nat),
{
    concat3(host, ":", u64_to_string(port as u64).as_str())
}

/// The address of an endpoint of a storage node's web server.
pub fn endpoint_url(host: &str, port: u16, endpoint: &str) -> (r: String)
    ensures
        r@ == "http://"@ + host@ + ":"@ + crate::text::decimal_text(port as nat) + endpoint@,
{
    let n = crate::text::u64_to_string(port as u64);
    let head = concat3("http://", host, ":");
    concat3(head.as_str(), n.as_str(), endpoint)
}

/// The lines of `all` that hold `pattern`, in order.
pub open spec fn matching_lines(all: Seq<Seq<char>>, pattern: Seq<char>) -> Seq<Seq<char>>
    decreases all.len(),
{
    if all.len() == 0 {
        seq![]
    } else if has_substring(all.last(), pattern) {
        matching_lines(all.drop_last(), pattern).push(all.last())
    } else {
        matching_lines(all.drop_last(), pattern)
    }
}

/// What is kept of a node's answer: all of it, or with a filter the lines that
/// hold the filter, one to a line.
pub open spec fn filtered(content: Seq<char>, filter: Option<Seq<char>>) -> Seq<char> {
    match filter {
        Some(pattern) => joined(matching_lines(lines_of(content), pattern), "\n"@),
        None => content,
    }
}

/// What is kept of the answer of a storage node's web server.
pub fn request_be_webserver_port(content: &str, filter_pattern: Option<&str>) -> (r: String)
    ensures
        r@ == filtered(content@, opt_str(filter_pattern)),
{
    match filter_pattern {
        Some(pattern) => {
            let all = lines(content);
            let mut kept: Vec<String> = Vec::new();
            let ghost rows = texts(all@);
            let mut i: usize = 0;
            assert(rows.take(0) =~= Seq::<Seq<char>>::empty());
            assert(texts(kept@) =~= seq![]);
            while i < all.len()
                invariant
                    i <= all.len(),
                    rows == texts(all@),
                    texts(kept@) == matching_lines(rows.take(i as int), pattern@),
                decreases all.len() - i,
            {
                let ghost next = rows.take(i + 1);
                assert(next.drop_last() == rows.take(i as int));
                assert(next.last() == all@[i as int]@);
                if contains(all[i].as_str(), pattern) {
                    let ghost before = texts(kept@);
                    kept.push(all[i].clone());
                    assert(texts(kept@) =~= before.push(all@[i as int]@));
                }
                i += 1;
            }
            assert(rows.take(all.len() as int) == rows);
            join(&kept, "\n")
        },
        None => content.to_owned(),
    }
}

/// What is said where no storage node answered; `targets` are the addresses
/// that were tried.
pub fn unreachable_error(targets: &Vec<String>) -> (r: CliError)
    ensures
        r@ == ErrorView::ToolExecutionFailed(
            "Could not connect to any BE http port ("@ + joined(texts(targets@), ", "@)
                + "). Check if BE is running."@,
        ),
{
    let list = join(targets, ", ");
    CliError::ToolExecutionFailed(
        concat3(
            "Could not connect to any BE http port (",
            list.as_str(),
            "). Check if BE is running.",
        ),
    )
}

} // verus!
