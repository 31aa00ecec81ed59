//! The provenance-graph fragment produced from one telemetry record: typed
//! nodes behind validating constructors, plus an accumulator holding a set of
//! nodes and an ordered list of labeled edges between node keys.

use vstd::prelude::*;

verus! {

/// Which node variant a validation failure is about.
#[derive(Clone, Copy, Debug, PartialEq, Eq, Structural)]
pub enum NodeKind {
    Asset,
    Process,
    File,
}

/// Whether a process node records the creation observed in this event or a
/// process that already existed.
#[derive(Clone, Copy, Debug, PartialEq, Eq, Structural)]
pub enum ProcessState {
    Created,
    Existing,
}

/// File nodes built here always describe files that already exist.
#[derive(Clone, Copy, Debug, PartialEq, Eq, Structural)]
pub enum FileState {
    Existing,
}

/// A node failed validation: a required field of the named node kind was
/// missing or empty. The whole translation aborts on the first such failure.
#[derive(Debug)]
pub enum GraphBuildError {
    ValidationFailed { node_kind: NodeKind, detail: String },
}

/// The mathematical value of a `GraphBuildError`.
pub ghost enum GraphBuildErrorView {
    ValidationFailed { node_kind: NodeKind, detail: Seq<char> },
}

impl View for GraphBuildError {
    type V = GraphBuildErrorView;

    open spec fn view(&self) -> GraphBuildErrorView {
        match self {
            GraphBuildError::ValidationFailed { node_kind, detail } => {
                GraphBuildErrorView::ValidationFailed { node_kind: *node_kind, detail: detail@ }
            },
        }
    }
}

/// One graph node. Every variant carries its key, an opaque identifier that
/// is stable and unique within a single translation call.
#[derive(Debug)]
pub enum Node {
    Asset { key: u64, asset_id: String, hostname: String },
    Process {
        key: u64,
        asset_id: String,
        hostname: String,
        state: ProcessState,
        created_timestamp: Option<u64>,
        last_seen_timestamp: Option<u64>,
        process_name: Option<String>,
        process_id: u64,
    },
    File { key: u64, asset_id: String, file_path: String, state: FileState, last_seen_timestamp: u64 },
}

/// The mathematical value of a `Node`.
pub ghost enum NodeView {
    Asset { key: u64, asset_id: Seq<char>, hostname: Seq<char> },
    Process {
        key: u64,
        asset_id: Seq<char>,
        hostname: Seq<char>,
        state: ProcessState,
        created_timestamp: Option<u64>,
        last_seen_timestamp: Option<u64>,
        process_name: Option<Seq<char>>,
        process_id: u64,
    },
    File { key: u64, asset_id: Seq<char>, file_path: Seq<char>, state: FileState, last_seen_timestamp: u64 },
}

impl NodeView {
    pub open spec fn key(self) -> u64 {
        match self {
            NodeView::Asset { key, .. } => key,
            NodeView::Process { key, .. } => key,
            NodeView::File { key, .. } => key,
        }
    }

    /// The required-field invariant that the validating constructors enforce:
    /// identifying strings are non-empty, and a process carries the timestamp
    /// that its state calls for.
    pub open spec fn wf(self) -> bool {
        match self {
            NodeView::Asset { asset_id, hostname, .. } => {
                asset_id.len() > 0 && hostname.len() > 0
            },
            NodeView::Process { asset_id, hostname, state, created_timestamp, last_seen_timestamp, .. } => {
                &&& asset_id.len() > 0
                &&& hostname.len() > 0
                &&& (state == ProcessState::Created ==> created_timestamp is Some)
                &&& (state == ProcessState::Existing ==> last_seen_timestamp is Some)
            },
            NodeView::File { asset_id, file_path, .. } => {
                asset_id.len() > 0 && file_path.len() > 0
            },
        }
    }
}

impl View for Node {
    type V = NodeView;

    open spec fn view(&self) -> NodeView {
        match self {
            Node::Asset { key, asset_id, hostname } => {
                NodeView::Asset { key: *key, asset_id: asset_id@, hostname: hostname@ }
            },
            Node::Process {
                key,
                asset_id,
                hostname,
                state,
                created_timestamp,
                last_seen_timestamp,
                process_name,
                process_id,
            } => {
                NodeView::Process {
                    key: *key,
                    asset_id: asset_id@,
                    hostname: hostname@,
                    state: *state,
                    created_timestamp: *created_timestamp,
                    last_seen_timestamp: *last_seen_timestamp,
                    process_name: match process_name {
                        Some(name) => Some(name@),
                        None => None,
                    },
                    process_id: *process_id,
                }
            },
            Node::File { key, asset_id, file_path, state, last_seen_timestamp } => {
                NodeView::File {
                    key: *key,
                    asset_id: asset_id@,
                    file_path: file_path@,
                    state: *state,
                    last_seen_timestamp: *last_seen_timestamp,
                }
            },
        }
    }
}

impl Node {
    /// The key this node was built with.
    pub fn key(&self) -> (k: u64)
        ensures
            k == self@.key(),
    {
        match self {
            Node::Asset { key, .. } => *key,
            Node::Process { key, .. } => *key,
            Node::File { key, .. } => *key,
        }
    }

    /// Validating constructor for a host asset node: both identifying strings
    /// must be non-empty.
    pub fn new_asset(key: u64, asset_id: String, hostname: String) -> (r: Result<
        Node,
        GraphBuildError,
    >)
        ensures
            ({
                if asset_id@.len() == 0 {
                    r matches Err(e) && e@ == (GraphBuildErrorView::ValidationFailed {
                        node_kind: NodeKind::Asset,
                        detail: "asset_id"@,
                    })
                } else if hostname@.len() == 0 {
                    r matches Err(e) && e@ == (GraphBuildErrorView::ValidationFailed {
                        node_kind: NodeKind::Asset,
                        detail: "hostname"@,
                    })
                } else {
                    r matches Ok(n) && n@ == (NodeView::Asset {
                        key: key,
                        asset_id: asset_id@,
                        hostname: hostname@,
                    }) && n@.wf()
                }
            }),
    {
        if asset_id.as_str().is_empty() {
            return Err(
                GraphBuildError::ValidationFailed {
                    node_kind: NodeKind::Asset,
                    detail: "asset_id".to_owned(),
                },
            );
        }
        if hostname.as_str().is_empty() {
            return Err(
                GraphBuildError::ValidationFailed {
                    node_kind: NodeKind::Asset,
                    detail: "hostname".to_owned(),
                },
            );
        }
        Ok(Node::Asset { key, asset_id, hostname })
    }

    /// Validating constructor for the process whose creation this event
    /// observed: state `Created`, with a creation timestamp and a name.
    pub fn new_process_created(
        key: u64,
        asset_id: String,
        hostname: String,
        created_timestamp: u64,
        process_name: String,
        process_id: u64,
    ) -> (r: Result<Node, GraphBuildError>)
        ensures
            ({
                if asset_id@.len() == 0 {
                    r matches Err(e) && e@ == (GraphBuildErrorView::ValidationFailed {
                        node_kind: NodeKind::Process,
                        detail: "asset_id"@,
                    })
                } else if hostname@.len() == 0 {
                    r matches Err(e) && e@ == (GraphBuildErrorView::ValidationFailed {
                        node_kind: NodeKind::Process,
                        detail: "hostname"@,
                    })
                } else {
                    r matches Ok(n) && n@ == (NodeView::Process {
                        key: key,
                        asset_id: asset_id@,
                        hostname: hostname@,
                        state: ProcessState::Created,
                        created_timestamp: Some(created_timestamp),
                        last_seen_timestamp: None,
                        process_name: Some(process_name@),
                        process_id: process_id,
                    }) && n@.wf()
                }
            }),
    {
        if asset_id.as_str().is_empty() {
            return Err(
                GraphBuildError::ValidationFailed {
                    node_kind: NodeKind::Process,
                    detail: "asset_id".to_owned(),
                },
            );
        }
        if hostname.as_str().is_empty() {
            return Err(
                GraphBuildError::ValidationFailed {
                    node_kind: NodeKind::Process,
                    detail: "hostname".to_owned(),
                },
            );
        }
        Ok(
            Node::Process {
                key,
                asset_id,
                hostname,
                state: ProcessState::Created,
                created_timestamp: Some(created_timestamp),
                last_seen_timestamp: None,
                process_name: Some(process_name),
                process_id,
            },
        )
    }

    /// Validating constructor for a process that already existed when the
    /// event arrived (the parent): state `Existing`, last-seen timestamp
    /// only, no name, since its own creation was not observed here.
    pub fn new_process_existing(
        key: u64,
        asset_id: String,
        hostname: String,
        last_seen_timestamp: u64,
        process_id: u64,
    ) -> (r: Result<Node, GraphBuildError>)
        ensures
            ({
                if asset_id@.len() == 0 {
                    r matches Err(e) && e@ == (GraphBuildErrorView::ValidationFailed {
                        node_kind: NodeKind::Process,
                        detail: "asset_id"@,
                    })
                } else if hostname@.len() == 0 {
                    r matches Err(e) && e@ == (GraphBuildErrorView::ValidationFailed {
                        node_kind: NodeKind::Process,
                        detail: "hostname"@,
                    })
                } else {
                    r matches Ok(n) && n@ == (NodeView::Process {
                        key: key,
                        asset_id: asset_id@,
                        hostname: hostname@,
                        state: ProcessState::Existing,
                        created_timestamp: None,
                        last_seen_timestamp: Some(last_seen_timestamp),
                        process_name: None,
                        process_id: process_id,
                    }) && n@.wf()
                }
            }),
    {
        if asset_id.as_str().is_empty() {
            return Err(
                GraphBuildError::ValidationFailed {
                    node_kind: NodeKind::Process,
                    detail: "asset_id".to_owned(),
                },
            );
        }
        if hostname.as_str().is_empty() {
            return Err(
                GraphBuildError::ValidationFailed {
                    node_kind: NodeKind::Process,
                    detail: "hostname".to_owned(),
                },
            );
        }
        Ok(
            Node::Process {
                key,
                asset_id,
                hostname,
                state: ProcessState::Existing,
                created_timestamp: None,
                last_seen_timestamp: Some(last_seen_timestamp),
                process_name: None,
                process_id,
            },
        )
    }

    /// Validating constructor for an executable file node: the asset id and
    /// the file path must be non-empty.
    pub fn new_file(key: u64, asset_id: String, file_path: String, last_seen_timestamp: u64) -> (r:
        Result<Node, GraphBuildError>)
        ensures
            ({
                if asset_id@.len() == 0 {
                    r matches Err(e) && e@ == (GraphBuildErrorView::ValidationFailed {
                        node_kind: NodeKind::File,
                        detail: "asset_id"@,
                    })
                } else if file_path@.len() == 0 {
                    r matches Err(e) && e@ == (GraphBuildErrorView::ValidationFailed {
                        node_kind: NodeKind::File,
                        detail: "file_path"@,
                    })
                } else {
                    r matches Ok(n) && n@ == (NodeView::File {
                        key: key,
                        asset_id: asset_id@,
                        file_path: file_path@,
                        state: FileState::Existing,
                        last_seen_timestamp: last_seen_timestamp,
                    }) && n@.wf()
                }
            }),
    {
        if asset_id.as_str().is_empty() {
            return Err(
                GraphBuildError::ValidationFailed {
                    node_kind: NodeKind::File,
                    detail: "asset_id".to_owned(),
                },
            );
        }
        if file_path.as_str().is_empty() {
            return Err(
                GraphBuildError::ValidationFailed {
                    node_kind: NodeKind::File,
                    detail: "file_path".to_owned(),
                },
            );
        }
        Ok(Node::File { key, asset_id, file_path, state: FileState::Existing, last_seen_timestamp })
    }
}

/// One labeled edge between two node keys. The label is an open string tag,
/// not a closed enumeration, so new edge kinds need no type change.
#[derive(Debug)]
pub struct Edge {
    pub label: String,
    pub source_key: u64,
    pub dest_key: u64,
}

/// The mathematical value of an `Edge`.
pub ghost struct EdgeView {
    pub label: Seq<char>,
    pub source_key: u64,
    pub dest_key: u64,
}

impl View for Edge {
    type V = EdgeView;

    open spec fn view(&self) -> EdgeView {
        EdgeView { label: self.label@, source_key: self.source_key, dest_key: self.dest_key }
    }
}

/// The mathematical value of a `Graph`: the node sequence and the ordered
/// edge sequence.
#[verifier::ext_equal]
pub ghost struct GraphView {
    pub nodes: Seq<NodeView>,
    pub edges: Seq<EdgeView>,
}

impl GraphView {
    /// Some node of the graph carries this key.
    pub open spec fn contains_key(self, key: u64) -> bool {
        exists|i: int| 0 <= i < self.nodes.len() && (#[trigger] self.nodes[i]).key() == key
    }

    /// A well-formed graph: node keys are unique, every node satisfies its
    /// required-field invariant, and every edge's endpoints are nodes present
    /// in the same graph.
    pub open spec fn wf(self) -> bool {
        &&& forall|i: int, j: int|
            0 <= i < j < self.nodes.len() ==> (#[trigger] self.nodes[i]).key() != (
            #[trigger] self.nodes[j]).key()
        &&& forall|i: int| 0 <= i < self.nodes.len() ==> (#[trigger] self.nodes[i]).wf()
        &&& forall|i: int|
            0 <= i < self.edges.len() ==> self.contains_key(
                (#[trigger] self.edges[i]).source_key,
            ) && self.contains_key(self.edges[i].dest_key)
    }
}

/// The in-memory graph fragment accumulated from one telemetry record.
#[derive(Debug)]
pub struct Graph {
    pub nodes: Vec<Node>,
    pub edges: Vec<Edge>,
}

impl View for Graph {
    type V = GraphView;

    open spec fn view(&self) -> GraphView {
        GraphView {
            nodes: Seq::new(self.nodes@.len(), |i: int| self.nodes@[i]@),
            edges: Seq::new(self.edges@.len(), |i: int| self.edges@[i]@),
        }
    }
}

impl Graph {
    /// An empty graph.
    pub fn new() -> (g: Graph)
        ensures
            g@.nodes.len() == 0,
            g@.edges.len() == 0,
    {
        Graph { nodes: Vec::new(), edges: Vec::new() }
    }

    /// Appends a node.
    pub fn add_node(&mut self, node: Node)
        ensures
            final(self)@.nodes == old(self)@.nodes.push(node@),
            final(self)@.edges == old(self)@.edges,
    {
        self.nodes.push(node);
        proof {
            assert(self@.nodes =~= old(self)@.nodes.push(self.nodes@.last()@));
            assert(self@.edges =~= old(self)@.edges);
        }
    }

    /// Appends a labeled edge from the node keyed `source_key` to the node
    /// keyed `dest_key`.
    pub fn add_edge(&mut self, label: &str, source_key: u64, dest_key: u64)
        ensures
            final(self)@.nodes == old(self)@.nodes,
            final(self)@.edges == old(self)@.edges.push(
                (EdgeView { label: label@, source_key: source_key, dest_key: dest_key }),
            ),
    {
        self.edges.push(Edge { label: label.to_owned(), source_key, dest_key });
        proof {
            assert(self@.nodes =~= old(self)@.nodes);
            assert(self@.edges =~= old(self)@.edges.push(
                EdgeView { label: label@, source_key: source_key, dest_key: dest_key },
            ));
        }
    }

    pub fn node_count(&self) -> (n: usize)
        ensures
            n == self@.nodes.len(),
    {
        self.nodes.len()
    }

    pub fn edge_count(&self) -> (n: usize)
        ensures
            n == self@.edges.len(),
    {
        self.edges.len()
    }

    /// The first node carrying the given key, if any.
    pub fn get_node(&self, key: u64) -> (r: Option<&Node>)
        ensures
            match r {
                Some(node) => node@.key() == key && exists|i: int|
                    0 <= i < self@.nodes.len() && self@.nodes[i] == node@,
                None => !self@.contains_key(key),
            },
    {
        let n = self.nodes.len();
        let mut i: usize = 0;
        while i < n
            invariant
                0 <= i <= n,
                n == self@.nodes.len(),
                n == self.nodes@.len(),
                forall|j: int| 0 <= j < i ==> (#[trigger] self@.nodes[j]).key() != key,
            decreases n - i,
        {
            let node = &self.nodes[i];
            if node.key() == key {
                proof {
                    assert(self@.nodes[i as int] == node@);
                }
                return Some(node);
            }
            i = i + 1;
        }
        None
    }
}

} // verus!
