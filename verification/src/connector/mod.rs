//! Connections to a BOB cluster: the address of each node's client is the
//! node's own address with the port of the cluster's hostname.
pub mod base64_text;
pub mod client;
pub mod dto;
pub mod pairs;
pub mod paths;
pub mod request;

use self::client::{base_path_of, into_base_path, route_response, Endpoint, ResponseRoute};
use self::pairs::{
    lemma_set_pair, lemma_set_pairs_last_wins, name_index, names_distinct, pairs_view, set_named,
    set_pair, set_pairs,
};

use crate::models::models::{
    check_hostname, port_of, sanitize_hostname, Hostname, HostnameError,
};
use crate::services::dto::{NodeAddress, NodeName};
use crate::services::APIError;
use crate::text::{
    all_ascii_digits, ascii_lowercase, chars_of, decimal_text, decimal_value, is_ascii_digit,
    is_ascii_text, last_index_of, lemma_ascii_lowercase_append, lemma_ascii_lowercase_keeps,
    lemma_decimal_text, lemma_last_index_of, lemma_trim_start_append, push_decimal, string_of,
    trim, trim_start,
};
use vstd::prelude::*;

verus! {

/// Why the port of an address could not be changed.
#[derive(Clone, Copy, Debug, PartialEq, Eq, Structural)]
pub enum ChangePortError {
    /// The address does not parse as a socket address.
    NotSocketAddress,
    /// The address holds no `:`.
    BadAddress,
    /// The address with the new port is not a hostname.
    InvalidHostname(HostnameError),
}

/// The text that changing the port of `address` to `port` yields, before it
/// is made a hostname: everything before the last `:`, then `:` and the port.
pub open spec fn address_with_port(address: Seq<char>, port: nat) -> Seq<char> {
    address.subrange(0, last_index_of(address, ':')) + seq![':'] + decimal_text(port)
}

/// What changing the port of `address` to that of a hostname with text `src`
/// gives: `Err(NotSocketAddress)` where the address is not a socket address,
/// `Err(BadAddress)` where it holds no `:`, else the hostname made of
/// [`address_with_port`], or why it is none.
pub open spec fn change_port_result(address: Seq<char>, socket_address: bool, src: Seq<char>) -> Result<
    Seq<char>,
    ChangePortError,
> {
    if !socket_address {
        Err(ChangePortError::NotSocketAddress)
    } else if last_index_of(address, ':') < 0 {
        Err(ChangePortError::BadAddress)
    } else {
        match check_hostname(sanitize_hostname(address_with_port(address, port_of(src)))) {
            Ok(h) => Ok(h),
            Err(e) => Err(ChangePortError::InvalidHostname(e)),
        }
    }
}

/// Changes port of the address with specified [`Hostname`]: keeps what comes
/// before the last `:` of `address` and puts the port of `src_hostname` after
/// it. `socket_address` tells whether `address` parses as a
/// `std::net::SocketAddr`, a check the caller makes; an address that does not
/// is refused.
pub fn change_port(address: &str, socket_address: bool, src_hostname: &Hostname) -> (r: Result<
    Hostname,
    ChangePortError,
>)
    ensures
        r is Ok <==> change_port_result(address@, socket_address, src_hostname@) is Ok,
        r matches Ok(h) ==> change_port_result(address@, socket_address, src_hostname@) == Ok::<
            Seq<char>,
            ChangePortError,
        >(h@),
        r matches Err(e) ==> change_port_result(address@, socket_address, src_hostname@) == Err::<
            Seq<char>,
            ChangePortError,
        >(e),
        is_ascii_text(address@) ==> (r matches Ok(h) ==> port_of(h@) == port_of(src_hostname@)),
{
    if !socket_address {
        return Err(ChangePortError::NotSocketAddress);
    }
    let v = chars_of(address);
    proof {
        lemma_last_index_of(v@, ':');
    }
    let n = v.len();
    let mut j: usize = n;
    assert(v@.subrange(0, n as int) =~= v@);
    while j > 0 && v[j - 1] != ':'
        invariant
            j <= n == v.len(),
            last_index_of(v@, ':') == last_index_of(v@.subrange(0, j as int), ':'),
        decreases j,
    {
        assert(v@.subrange(0, j as int).drop_last() =~= v@.subrange(0, j - 1));
        j = j - 1;
    }
    if j == 0 {
        assert(v@.subrange(0, 0) =~= Seq::<char>::empty());
        return Err(ChangePortError::BadAddress);
    }
    assert(last_index_of(v@.subrange(0, j as int), ':') == j - 1);
    let mut body = string_of(&v, 0, j);
    let port = src_hostname.port();
    push_decimal(&mut body, port as u64);
    assert(v@.subrange(0, j as int) =~= v@.subrange(0, j - 1) + seq![':']);
    assert(body@ =~= address_with_port(address@, port_of(src_hostname@)));
    let ghost text = body@;
    match Hostname::new(body) {
        Ok(h) => {
            proof {
                if is_ascii_text(address@) {
                    lemma_new_port_kept(v@.subrange(0, j - 1), port as nat, text, h@);
                }
            }
            Ok(h)
        },
        Err(e) => Err(ChangePortError::InvalidHostname(e)),
    }
}

/// The port after the last `:` of `w:d`, where `d` holds digits only, is the
/// number `d` denotes.
proof fn lemma_port_after_last_colon(w: Seq<char>, d: Seq<char>)
    requires
        d.len() >= 1,
        all_ascii_digits(d),
    ensures
        port_of(w + seq![':'] + d) == decimal_value(d),
{
    let s = w + seq![':'] + d;
    lemma_last_index_of(s, ':');
    let j = last_index_of(s, ':');
    assert(s[w.len() as int] == ':');
    if j > w.len() {
        assert(s[j] == d[j - w.len() - 1]);
        assert(is_ascii_digit(d[j - w.len() - 1]));
    }
    assert(j == w.len());
    assert(s.subrange(j + 1, s.len() as int) =~= d);
}

/// An ASCII address `w:port` made a hostname keeps its port: trimming and
/// lowercasing leave the colon and the digits after it as they are.
proof fn lemma_new_port_kept(w: Seq<char>, port: nat, text: Seq<char>, h: Seq<char>)
    requires
        text == w + seq![':'] + decimal_text(port),
        is_ascii_text(w),
        is_ascii_text(text) ==> h == ascii_lowercase(trim(text)),
    ensures
        port_of(h) == port,
{
    let d = decimal_text(port);
    lemma_decimal_text(port);
    let tail = seq![':'] + d;
    assert(text =~= w + tail);
    assert forall|i: int| 0 <= i < text.len() implies (#[trigger] text[i] as u32) < 0x80 by {
        if i < w.len() {
            assert(text[i] == w[i]);
        } else if i > w.len() {
            assert(text[i] == d[i - w.len() - 1]);
            assert(is_ascii_digit(d[i - w.len() - 1]));
        }
    }
    assert(tail[0] == ':');
    lemma_trim_start_append(w, tail);
    let ts = trim_start(w) + tail;
    assert(ts.last() == d.last());
    assert(is_ascii_digit(d[d.len() - 1]));
    assert(trim(text) == ts);
    lemma_ascii_lowercase_append(trim_start(w), tail);
    assert forall|i: int| 0 <= i < tail.len() implies !('A' <= #[trigger] tail[i] <= 'Z') by {
        if i > 0 {
            assert(tail[i] == d[i - 1]);
            assert(is_ascii_digit(d[i - 1]));
        }
    }
    lemma_ascii_lowercase_keeps(tail);
    assert(h =~= ascii_lowercase(trim_start(w)) + seq![':'] + d);
    lemma_port_after_last_colon(ascii_lowercase(trim_start(w)), d);
}

/// A node of a cluster as the nodes request lists it, with whether its
/// address parses as a `std::net::SocketAddr`, a check the caller makes.
pub struct ClusterNode {
    pub name: NodeName,
    pub address: NodeAddress,
    pub socket_address: bool,
}

/// The base path of the client of each node of a cluster, by node name: for
/// each node in order whose address is a socket address, whose port can be
/// changed to that of `src` and whose hostname then makes an `http` base
/// path, that base path is set for its name, so the last such node of a name
/// wins.
pub open spec fn cluster_base_path_pairs(nodes: Seq<ClusterNode>, src: Seq<char>) -> Seq<
    (Seq<char>, Seq<char>),
>
    decreases nodes.len(),
{
    if nodes.len() == 0 {
        Seq::empty()
    } else {
        let rest = cluster_base_path_pairs(nodes.drop_last(), src);
        let node = nodes.last();
        match change_port_result(node.address@, node.socket_address, src) {
            Ok(h) => match base_path_of(h, Some("http"@)) {
                Some(b) => set_pair(rest, node.name@, b),
                None => rest,
            },
            Err(_) => rest,
        }
    }
}

/// The nodes of a cluster that get a client, in order, each with the base
/// path of its client; names may repeat.
pub open spec fn cluster_entries(nodes: Seq<ClusterNode>, src: Seq<char>) -> Seq<
    (Seq<char>, Seq<char>),
>
    decreases nodes.len(),
{
    if nodes.len() == 0 {
        Seq::empty()
    } else {
        let rest = cluster_entries(nodes.drop_last(), src);
        let node = nodes.last();
        match change_port_result(node.address@, node.socket_address, src) {
            Ok(h) => match base_path_of(h, Some("http"@)) {
                Some(b) => rest.push((node.name@, b)),
                None => rest,
            },
            Err(_) => rest,
        }
    }
}

proof fn lemma_cluster_pairs_are_set(nodes: Seq<ClusterNode>, src: Seq<char>)
    ensures
        cluster_base_path_pairs(nodes, src) == set_pairs(Seq::empty(), cluster_entries(nodes, src)),
    decreases nodes.len(),
{
    if nodes.len() > 0 {
        lemma_cluster_pairs_are_set(nodes.drop_last(), src);
        let rest = cluster_entries(nodes.drop_last(), src);
        let node = nodes.last();
        match change_port_result(node.address@, node.socket_address, src) {
            Ok(h) => match base_path_of(h, Some("http"@)) {
                Some(b) => {
                    assert(rest.push((node.name@, b)).drop_last() =~= rest);
                },
                None => {},
            },
            Err(_) => {},
        }
    }
}

/// Of the nodes that get a client, the last one of a name wins: its base
/// path is the one the clients hold for that name.
pub proof fn lemma_cluster_last_node_wins(nodes: Seq<ClusterNode>, src: Seq<char>, k: int)
    requires
        0 <= k < cluster_entries(nodes, src).len(),
        forall|j: int|
            k < j < cluster_entries(nodes, src).len() ==> #[trigger] cluster_entries(nodes, src)[j].0
                != cluster_entries(nodes, src)[k].0,
    ensures
        ({
            let r = cluster_base_path_pairs(nodes, src);
            let e = cluster_entries(nodes, src)[k];
            name_index(r, e.0) >= 0 && r[name_index(r, e.0)].1 == e.1
        }),
{
    lemma_cluster_pairs_are_set(nodes, src);
    lemma_set_pairs_last_wins(Seq::empty(), cluster_entries(nodes, src), k);
}

/// No node name occurs twice among the clients of a cluster.
pub proof fn lemma_cluster_names_distinct(nodes: Seq<ClusterNode>, src: Seq<char>)
    ensures
        names_distinct(cluster_base_path_pairs(nodes, src)),
    decreases nodes.len(),
{
    if nodes.len() > 0 {
        lemma_cluster_names_distinct(nodes.drop_last(), src);
        let rest = cluster_base_path_pairs(nodes.drop_last(), src);
        let node = nodes.last();
        match change_port_result(node.address@, node.socket_address, src) {
            Ok(h) => match base_path_of(h, Some("http"@)) {
                Some(b) => lemma_set_pair(rest, node.name@, b),
                None => {},
            },
            Err(_) => {},
        }
    }
}

/// The base paths of the clients of the nodes of a cluster, by node name, as
/// [`cluster_base_path_pairs`] gives them: nodes whose port cannot be changed
/// or whose hostname makes no base path are left out, and of nodes that share
/// a name the last one wins; no name occurs twice
/// ([`lemma_cluster_names_distinct`]).
pub fn cluster_base_paths(nodes: &Vec<ClusterNode>, src: &Hostname) -> (r: Vec<
    (NodeName, String),
>)
    ensures
        pairs_view(r@) == cluster_base_path_pairs(nodes@, src@),
{
    let mut out: Vec<(NodeName, String)> = Vec::new();
    let mut i: usize = 0;
    while i < nodes.len()
        invariant
            i <= nodes.len(),
            pairs_view(out@) == cluster_base_path_pairs(nodes@.subrange(0, i as int), src@),
        decreases nodes.len() - i,
    {
        let ghost prefix = nodes@.subrange(0, i + 1);
        assert(prefix.drop_last() =~= nodes@.subrange(0, i as int));
        assert(prefix.last() == nodes@[i as int]);
        let node = &nodes[i];
        match change_port(node.address.as_str(), node.socket_address, src) {
            Ok(h) => {
                let text = h.into_inner();
                match into_base_path(text.as_str(), Some("http")) {
                    Ok(base) => {
                        set_named(&mut out, node.name.clone(), base);
                    },
                    Err(_) => {},
                }
            },
            Err(_) => {},
        }
        i = i + 1;
    }
    assert(nodes@.subrange(0, nodes.len() as int) =~= nodes@);
    out
}

/// How a BOB node answered the request for the nodes of its cluster.
#[derive(Clone, Copy, Debug, PartialEq, Eq, Structural)]
pub enum NodesAnswer {
    /// The list of nodes.
    Nodes,
    /// The request was refused.
    PermissionDenied,
}

/// How an answer to the request for the nodes is read: a list of nodes at
/// `200`, a refusal at `403`, and no answer the client accepts otherwise.
pub open spec fn nodes_answer_of(status: u16) -> Option<NodesAnswer> {
    if status == 200 {
        Some(NodesAnswer::Nodes)
    } else if status == 403 {
        Some(NodesAnswer::PermissionDenied)
    } else {
        None
    }
}

/// What is probed: the cluster through the node it was reached at, or one
/// node of the cluster by name.
#[derive(Clone, Copy, Debug, PartialEq, Eq, Structural)]
pub enum ProbeTarget {
    /// The cluster: the probe reports the code the node answered with.
    Cluster,
    /// One node: the probe reads the answer as the nodes request does.
    Node,
}

/// What a probe of `target` reports for the status code the node answered
/// the request for its nodes with. The cluster's probe reports the code it
/// received, whatever it is. A node's probe reports `200` for a list of
/// nodes and `401 Unauthorized` for a refusal, and fails (`None`) on any
/// other code.
pub open spec fn probe_report(target: ProbeTarget, status: u16) -> Option<u16> {
    match target {
        ProbeTarget::Cluster => Some(status),
        ProbeTarget::Node => match nodes_answer_of(status) {
            Some(NodesAnswer::Nodes) => Some(200),
            Some(NodesAnswer::PermissionDenied) => Some(401),
            None => None,
        },
    }
}

/// The status code a probe of `target` reports, as [`probe_report`] gives it.
pub fn probe_status(target: ProbeTarget, status: u16) -> (r: Option<u16>)
    ensures
        r == probe_report(target, status),
{
    match target {
        ProbeTarget::Cluster => Some(status),
        ProbeTarget::Node => match route_response(Endpoint::Nodes, status) {
            ResponseRoute::Success => Some(200),
            ResponseRoute::PermissionDeniedWithoutBody => Some(401),
            _ => None,
        },
    }
}

/// Why connecting to a cluster stops after asking for its nodes: a request
/// that failed (`None`) ends in `RequestFailed`, a refusal ends in
/// `InvalidStatusCode(403)`; a list of nodes goes on (`None`).
pub fn connect_error(answer: Option<NodesAnswer>) -> (r: Option<APIError>)
    ensures
        answer is None ==> r == Some(APIError::RequestFailed),
        answer == Some(NodesAnswer::PermissionDenied) ==> r == Some(APIError::InvalidStatusCode(403)),
        answer == Some(NodesAnswer::Nodes) ==> r is None,
{
    match answer {
        None => Some(APIError::RequestFailed),
        Some(NodesAnswer::PermissionDenied) => Some(APIError::InvalidStatusCode(403)),
        Some(NodesAnswer::Nodes) => None,
    }
}

} // verus!
