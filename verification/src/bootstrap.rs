//! The nodes that a local cluster is started with.
use vstd::prelude::*;
use crate::decimal::{decimal, to_decimal};

verus! {

/// A node of a locally started cluster.
#[derive(Debug)]
pub struct Node {
    pub id: u8,
    pub hostname: String,
    pub port: u16,
}

impl Node {
    /// A node with the given id, host name and port.
    pub fn new(id: u8, hostname: String, port: u16) -> (node: Self)
        ensures
            node.id == id,
            node.hostname == hostname,
            node.port == port,
    {
        Node { id, hostname, port }
    }
}

/// The pool that a local cluster of `count` nodes starts with: node `i`
/// (from 0) has id `i + 1`, the given host name, and port `start_port + i`.
pub open spec fn pool_node_ok(node: Node, i: int, hostname: Seq<char>, start_port: u16) -> bool {
    &&& node.id == i + 1
    &&& node.hostname@ == hostname
    &&& node.port == start_port + i
}

/// The nodes of a local cluster of `count` nodes on `hostname`, with
/// consecutive ports from `start_port`. The port after the last one must
/// still be a port.
pub fn node_pool(count: u8, hostname: &str, start_port: u16) -> (nodes: Vec<Node>)
    requires
        start_port + count <= u16::MAX,
    ensures
        nodes.len() == count,
        forall|i: int| 0 <= i < count ==> pool_node_ok(#[trigger] nodes[i], i, hostname@, start_port),
{
    let mut nodes: Vec<Node> = Vec::new();
    let mut i: u8 = 0;
    while i < count
        invariant
            i <= count,
            start_port + count <= u16::MAX,
            nodes.len() == i,
            forall|j: int| 0 <= j < i ==> pool_node_ok(#[trigger] nodes[j], j, hostname@, start_port),
        decreases count - i,
    {
        let port: u16 = start_port + i as u16;
        nodes.push(Node::new(i + 1, hostname.to_owned(), port));
        i = i + 1;
    }
    nodes
}

/// The name of the node that listens on `port`: `Node-` and the port.
pub open spec fn node_name_spec(port: nat) -> Seq<char> {
    "Node-"@ + decimal(port)
}

/// The name of the node that listens on `port`, as `format!("Node-{}", port)`.
pub fn node_name(port: u16) -> (name: String)
    ensures
        name@ == node_name_spec(port as nat),
{
    let mut name = "Node-".to_owned();
    let digits = to_decimal(port as u32);
    name.append(digits.as_str());
    name
}

} // verus!
