//! The translator: dispatches on the table name, decodes the columns, and
//! builds the provenance-graph fragment for one process-creation event.

use vstd::prelude::*;
use vstd::pervasive::unreached;
use vstd::string::StrSliceExecFns;

use crate::graph::EdgeView;
use crate::graph::FileState;
use crate::graph::Graph;
use crate::graph::GraphBuildError;
use crate::graph::GraphBuildErrorView;
use crate::graph::GraphView;
use crate::graph::Node;
use crate::graph::NodeKind;
use crate::graph::NodeView;
use crate::graph::ProcessState;
use crate::schema::Columns;
use crate::schema::DecodeError;
use crate::schema::Envelope;
use crate::schema::ProcessQueryRecord;
use crate::schema::ProcessQueryRecordView;
use crate::schema::decode_process_record;
use crate::schema::spec_decode_process;
use crate::schema::str_eq;

verus! {

/// Node key of the host asset, stable within one translation call.
pub const KEY_ASSET: u64 = 0;

/// Node key of the process whose creation the event describes.
pub const KEY_CHILD: u64 = 1;

/// Node key of the child's executable file, when the path is known.
pub const KEY_FILE: u64 = 2;

/// Node key of the parent process, when the ancestry is known.
pub const KEY_PARENT: u64 = 3;

/// A translation failure: either the telemetry could not be decoded, or a
/// built node violated a required-field invariant. Never a partial graph.
#[derive(Debug)]
pub enum TranslateError {
    Decode(DecodeError),
    Build(GraphBuildError),
}

/// The resolved start time of the child process: when the kernel could not
/// report one (the sentinel -1), the envelope's observation time stands in,
/// preserving coarse ordering; any other reported value is used directly.
pub open spec fn spec_start_time(time: i64, observed_time: u64) -> u64 {
    if time == -1 {
        observed_time
    } else {
        time as u64
    }
}

/// The host asset node built from one record.
pub open spec fn spec_asset_node(host: Seq<char>) -> NodeView {
    NodeView::Asset { key: KEY_ASSET, asset_id: host, hostname: host }
}

/// The child process node built from one record.
pub open spec fn spec_child_node(
    host: Seq<char>,
    start_time: u64,
    rec: ProcessQueryRecordView,
) -> NodeView {
    NodeView::Process {
        key: KEY_CHILD,
        asset_id: host,
        hostname: host,
        state: ProcessState::Created,
        created_timestamp: Some(start_time),
        last_seen_timestamp: None,
        process_name: Some(rec.name),
        process_id: rec.pid,
    }
}

/// The executable file node built when the record's path is non-empty.
pub open spec fn spec_file_node(
    host: Seq<char>,
    start_time: u64,
    rec: ProcessQueryRecordView,
) -> NodeView {
    NodeView::File {
        key: KEY_FILE,
        asset_id: host,
        file_path: rec.path,
        state: FileState::Existing,
        last_seen_timestamp: start_time,
    }
}

/// The parent process node built when the record's parent id is known.
pub open spec fn spec_parent_node(
    host: Seq<char>,
    start_time: u64,
    rec: ProcessQueryRecordView,
) -> NodeView {
    NodeView::Process {
        key: KEY_PARENT,
        asset_id: host,
        hostname: host,
        state: ProcessState::Existing,
        created_timestamp: None,
        last_seen_timestamp: Some(start_time),
        process_name: None,
        process_id: rec.parent as u64,
    }
}

/// The full graph fragment built from one successfully decoded process
/// record: host asset and child process always; the executable file exactly
/// when the path is non-empty; the parent process exactly when the parent id
/// is non-negative. Nodes and edges appear in construction order.
pub open spec fn spec_process_graph(
    host: Seq<char>,
    start_time: u64,
    rec: ProcessQueryRecordView,
) -> GraphView {
    let file_nodes = if rec.path.len() > 0 {
        seq![spec_file_node(host, start_time, rec)]
    } else {
        Seq::<NodeView>::empty()
    };
    let parent_nodes = if rec.parent >= 0 {
        seq![spec_parent_node(host, start_time, rec)]
    } else {
        Seq::<NodeView>::empty()
    };
    let file_edges = if rec.path.len() > 0 {
        seq![(EdgeView { label: "bin_file"@, source_key: KEY_CHILD, dest_key: KEY_FILE })]
    } else {
        Seq::<EdgeView>::empty()
    };
    let parent_edges = if rec.parent >= 0 {
        seq![
            (EdgeView { label: "children"@, source_key: KEY_PARENT, dest_key: KEY_CHILD }),
            (EdgeView { label: "asset_processes"@, source_key: KEY_ASSET, dest_key: KEY_PARENT }),
        ]
    } else {
        Seq::<EdgeView>::empty()
    };
    GraphView {
        nodes: file_nodes + parent_nodes + seq![
            spec_child_node(host, start_time, rec),
            spec_asset_node(host),
        ],
        edges: file_edges + parent_edges + seq![
            (EdgeView { label: "asset_processes"@, source_key: KEY_ASSET, dest_key: KEY_CHILD }),
        ],
    }
}

/// Every graph fragment built from a record of a non-empty host is well
/// formed: node keys are distinct, every node carries its required fields,
/// and every edge joins nodes present in the same fragment.
pub proof fn lemma_spec_process_graph_wf(
    host: Seq<char>,
    start_time: u64,
    rec: ProcessQueryRecordView,
)
    requires
        host.len() > 0,
    ensures
        spec_process_graph(host, start_time, rec).wf(),
{
    let g = spec_process_graph(host, start_time, rec);
    let child_at = g.nodes.len() - 2;
    let asset_at = g.nodes.len() - 1;
    assert(g.nodes[child_at] == spec_child_node(host, start_time, rec));
    assert(g.nodes[asset_at] == spec_asset_node(host));
    assert(g.contains_key(KEY_CHILD));
    assert(g.contains_key(KEY_ASSET));
    if rec.path.len() > 0 {
        assert(g.nodes[0] == spec_file_node(host, start_time, rec));
        assert(g.contains_key(KEY_FILE));
    }
    if rec.parent >= 0 {
        let parent_at = if rec.path.len() > 0 { 1int } else { 0int };
        assert(g.nodes[parent_at] == spec_parent_node(host, start_time, rec));
        assert(g.contains_key(KEY_PARENT));
    }
    assert forall|i: int| 0 <= i < g.edges.len() implies g.contains_key(
        (#[trigger] g.edges[i]).source_key,
    ) && g.contains_key(g.edges[i].dest_key) by {
        if rec.path.len() > 0 && i == 0 {
            assert(g.edges[i].source_key == KEY_CHILD && g.edges[i].dest_key == KEY_FILE);
        }
    }
}

/// Whatever the record holds, the fragment contains at least the asset and
/// child nodes and the asset-to-child edge: they are always its last two
/// nodes and its last edge.
pub proof fn lemma_graph_minimum_content(
    host: Seq<char>,
    start_time: u64,
    rec: ProcessQueryRecordView,
)
    ensures
        ({
            let g = spec_process_graph(host, start_time, rec);
            &&& g.nodes.len() >= 2
            &&& g.nodes[g.nodes.len() - 2] == spec_child_node(host, start_time, rec)
            &&& g.nodes[g.nodes.len() - 1] == spec_asset_node(host)
            &&& g.edges.len() >= 1
            &&& g.edges[g.edges.len() - 1] == (EdgeView {
                label: "asset_processes"@,
                source_key: KEY_ASSET,
                dest_key: KEY_CHILD,
            })
        }),
{
}

/// A record with a known executable path and a known parent yields the full
/// fragment: exactly four nodes (file, parent, child, asset) and exactly
/// four edges, `bin_file` child-to-file, `children` parent-to-child,
/// `asset_processes` asset-to-parent and `asset_processes` asset-to-child.
pub proof fn lemma_full_graph_shape(host: Seq<char>, start_time: u64, rec: ProcessQueryRecordView)
    requires
        rec.path.len() > 0,
        rec.parent >= 0,
    ensures
        ({
            let g = spec_process_graph(host, start_time, rec);
            &&& g.nodes.len() == 4
            &&& g.nodes[0] == spec_file_node(host, start_time, rec)
            &&& g.nodes[1] == spec_parent_node(host, start_time, rec)
            &&& g.nodes[2] == spec_child_node(host, start_time, rec)
            &&& g.nodes[3] == spec_asset_node(host)
            &&& g.edges.len() == 4
            &&& g.edges[0] == (EdgeView {
                label: "bin_file"@,
                source_key: KEY_CHILD,
                dest_key: KEY_FILE,
            })
            &&& g.edges[1] == (EdgeView {
                label: "children"@,
                source_key: KEY_PARENT,
                dest_key: KEY_CHILD,
            })
            &&& g.edges[2] == (EdgeView {
                label: "asset_processes"@,
                source_key: KEY_ASSET,
                dest_key: KEY_PARENT,
            })
            &&& g.edges[3] == (EdgeView {
                label: "asset_processes"@,
                source_key: KEY_ASSET,
                dest_key: KEY_CHILD,
            })
        }),
{
}

/// An empty executable path removes exactly the file node and the
/// `bin_file` edge; every other node and edge of the fragment is unchanged.
pub proof fn lemma_empty_path_no_file(
    host: Seq<char>,
    start_time: u64,
    rec: ProcessQueryRecordView,
)
    requires
        rec.path.len() == 0,
    ensures
        ({
            let g = spec_process_graph(host, start_time, rec);
            &&& forall|i: int| 0 <= i < g.nodes.len() ==> !((#[trigger] g.nodes[i]) is File)
            &&& forall|i: int|
                0 <= i < g.edges.len() ==> (#[trigger] g.edges[i]).label != "bin_file"@
            &&& g.nodes == (if rec.parent >= 0 {
                seq![
                    spec_parent_node(host, start_time, rec),
                    spec_child_node(host, start_time, rec),
                    spec_asset_node(host),
                ]
            } else {
                seq![spec_child_node(host, start_time, rec), spec_asset_node(host)]
            })
            &&& g.edges == (if rec.parent >= 0 {
                seq![
                    (EdgeView { label: "children"@, source_key: KEY_PARENT, dest_key: KEY_CHILD }),
                    (EdgeView {
                        label: "asset_processes"@,
                        source_key: KEY_ASSET,
                        dest_key: KEY_PARENT,
                    }),
                    (EdgeView {
                        label: "asset_processes"@,
                        source_key: KEY_ASSET,
                        dest_key: KEY_CHILD,
                    }),
                ]
            } else {
                seq![
                    (EdgeView {
                        label: "asset_processes"@,
                        source_key: KEY_ASSET,
                        dest_key: KEY_CHILD,
                    }),
                ]
            })
        }),
{
    let g = spec_process_graph(host, start_time, rec);
    reveal_strlit("bin_file");
    reveal_strlit("children");
    reveal_strlit("asset_processes");
    assert("children"@ != "bin_file"@) by {
        assert("children"@[0] != "bin_file"@[0]);
    }
    assert("asset_processes"@ != "bin_file"@) by {
        assert("asset_processes"@.len() != "bin_file"@.len());
    }
    if rec.parent >= 0 {
        assert(g.nodes =~= seq![
            spec_parent_node(host, start_time, rec),
            spec_child_node(host, start_time, rec),
            spec_asset_node(host),
        ]);
        assert(g.edges =~= seq![
            (EdgeView { label: "children"@, source_key: KEY_PARENT, dest_key: KEY_CHILD }),
            (EdgeView { label: "asset_processes"@, source_key: KEY_ASSET, dest_key: KEY_PARENT }),
            (EdgeView { label: "asset_processes"@, source_key: KEY_ASSET, dest_key: KEY_CHILD }),
        ]);
    } else {
        assert(g.nodes =~= seq![
            spec_child_node(host, start_time, rec),
            spec_asset_node(host),
        ]);
        assert(g.edges =~= seq![
            (EdgeView { label: "asset_processes"@, source_key: KEY_ASSET, dest_key: KEY_CHILD }),
        ]);
    }
}

/// An unknown (negative) parent id removes exactly the parent node, the
/// `children` edge and the asset-to-parent edge; no edge touches the parent
/// key, and the rest of the fragment is unchanged.
pub proof fn lemma_unknown_parent_no_parent(
    host: Seq<char>,
    start_time: u64,
    rec: ProcessQueryRecordView,
)
    requires
        rec.parent < 0,
    ensures
        ({
            let g = spec_process_graph(host, start_time, rec);
            &&& forall|i: int| 0 <= i < g.nodes.len() ==> (#[trigger] g.nodes[i]).key() != KEY_PARENT
            &&& forall|i: int|
                0 <= i < g.edges.len() ==> (#[trigger] g.edges[i]).label != "children"@ && g.edges[i].source_key
                    != KEY_PARENT && g.edges[i].dest_key != KEY_PARENT
            &&& g.nodes == (if rec.path.len() > 0 {
                seq![
                    spec_file_node(host, start_time, rec),
                    spec_child_node(host, start_time, rec),
                    spec_asset_node(host),
                ]
            } else {
                seq![spec_child_node(host, start_time, rec), spec_asset_node(host)]
            })
            &&& g.edges == (if rec.path.len() > 0 {
                seq![
                    (EdgeView { label: "bin_file"@, source_key: KEY_CHILD, dest_key: KEY_FILE }),
                    (EdgeView {
                        label: "asset_processes"@,
                        source_key: KEY_ASSET,
                        dest_key: KEY_CHILD,
                    }),
                ]
            } else {
                seq![
                    (EdgeView {
                        label: "asset_processes"@,
                        source_key: KEY_ASSET,
                        dest_key: KEY_CHILD,
                    }),
                ]
            })
        }),
{
    let g = spec_process_graph(host, start_time, rec);
    reveal_strlit("bin_file");
    reveal_strlit("children");
    reveal_strlit("asset_processes");
    assert("bin_file"@ != "children"@) by {
        assert("bin_file"@[0] != "children"@[0]);
    }
    assert("asset_processes"@ != "children"@) by {
        assert("asset_processes"@.len() != "children"@.len());
    }
    if rec.path.len() > 0 {
        assert(g.nodes =~= seq![
            spec_file_node(host, start_time, rec),
            spec_child_node(host, start_time, rec),
            spec_asset_node(host),
        ]);
        assert(g.edges =~= seq![
            (EdgeView { label: "bin_file"@, source_key: KEY_CHILD, dest_key: KEY_FILE }),
            (EdgeView { label: "asset_processes"@, source_key: KEY_ASSET, dest_key: KEY_CHILD }),
        ]);
    } else {
        assert(g.nodes =~= seq![
            spec_child_node(host, start_time, rec),
            spec_asset_node(host),
        ]);
        assert(g.edges =~= seq![
            (EdgeView { label: "asset_processes"@, source_key: KEY_ASSET, dest_key: KEY_CHILD }),
        ]);
    }
}

/// The start-time fallback: the sentinel -1 is replaced by the envelope's
/// observation time, and any non-negative reported time is used unchanged,
/// whatever the observation time; the child's creation timestamp is always
/// the resolved start time.
pub proof fn lemma_start_time_resolution(
    time: i64,
    observed_time: u64,
    host: Seq<char>,
    rec: ProcessQueryRecordView,
)
    ensures
        time == -1 ==> spec_start_time(time, observed_time) == observed_time,
        time >= 0 ==> spec_start_time(time, observed_time) == time,
        spec_child_node(host, spec_start_time(time, observed_time), rec)->created_timestamp
            == Some(spec_start_time(time, observed_time)),
{
}

/// Builds the graph fragment for one decoded process record. Fails exactly
/// when the host identifier is empty, since every node's identifying strings
/// are drawn from it; an empty executable path and a negative parent id are
/// legitimate "unknown" states, never errors.
pub fn build_process_graph(
    host_identifier: &String,
    observed_time: u64,
    record: &ProcessQueryRecord,
) -> (r: Result<Graph, GraphBuildError>)
    ensures
        ({
            if host_identifier@.len() == 0 {
                r matches Err(e) && e@ == (GraphBuildErrorView::ValidationFailed {
                    node_kind: NodeKind::Asset,
                    detail: "asset_id"@,
                })
            } else {
                r matches Ok(g) && g@ == spec_process_graph(
                    host_identifier@,
                    spec_start_time(record.time, observed_time),
                    record@,
                ) && g@.wf()
            }
        }),
{
    let mut graph = Graph::new();

    // The kernel reports -1 when it could not determine a start time; the
    // arrival time then stands in for the unknown creation time.
    let process_start_time: u64 = if record.time == -1 {
        observed_time
    } else {
        #[verifier::truncate] (record.time as u64)
    };

    let asset = match Node::new_asset(
        KEY_ASSET,
        host_identifier.clone(),
        host_identifier.clone(),
    ) {
        Ok(node) => node,
        Err(e) => {
            return Err(e);
        },
    };

    let child = match Node::new_process_created(
        KEY_CHILD,
        host_identifier.clone(),
        host_identifier.clone(),
        process_start_time,
        record.name.clone(),
        record.pid,
    ) {
        Ok(node) => node,
        Err(_) => unreached(),
    };

    if !record.path.as_str().is_empty() {
        let child_exe = match Node::new_file(
            KEY_FILE,
            host_identifier.clone(),
            record.path.clone(),
            process_start_time,
        ) {
            Ok(node) => node,
            Err(_) => unreached(),
        };
        graph.add_edge("bin_file", child.key(), child_exe.key());
        graph.add_node(child_exe);
    }

    // A negative parent id means the ancestry could not be determined; that
    // is a legitimate outcome and simply produces no parent substructure.
    if record.parent >= 0 {
        let parent_process = match Node::new_process_existing(
            KEY_PARENT,
            host_identifier.clone(),
            host_identifier.clone(),
            process_start_time,
            record.parent as u64,
        ) {
            Ok(node) => node,
            Err(_) => unreached(),
        };
        graph.add_edge("children", parent_process.key(), child.key());
        graph.add_edge("asset_processes", asset.key(), parent_process.key());
        graph.add_node(parent_process);
    }

    graph.add_edge("asset_processes", asset.key(), child.key());
    graph.add_node(child);
    graph.add_node(asset);

    proof {
        let expected = spec_process_graph(
            host_identifier@,
            spec_start_time(record.time, observed_time),
            record@,
        );
        assert(graph@.nodes =~= expected.nodes);
        assert(graph@.edges =~= expected.edges);
        assert(graph@ =~= expected);
        lemma_spec_process_graph_wf(
            host_identifier@,
            spec_start_time(record.time, observed_time),
            record@,
        );
    }
    Ok(graph)
}

/// The single entry point: selects the schema by the envelope's table name,
/// decodes the columns, and runs the builder. Exactly one table is
/// supported; any other name fails with `UnsupportedQueryKind`, and a decode
/// failure is propagated unchanged. No partial graph is ever returned.
pub fn translate(envelope: &Envelope) -> (r: Result<Graph, TranslateError>)
    ensures
        ({
            if envelope.query_name@ != "processes"@ {
                r matches Err(TranslateError::Decode(DecodeError::UnsupportedQueryKind { name }))
                    && name@ == envelope.query_name@
            } else {
                match spec_decode_process(envelope.columns@) {
                    Err(derr) => r matches Err(TranslateError::Decode(e)) && e@ == derr,
                    Ok(rec) => {
                        if envelope.host_identifier@.len() == 0 {
                            r matches Err(TranslateError::Build(e)) && e@ == (
                            GraphBuildErrorView::ValidationFailed {
                                node_kind: NodeKind::Asset,
                                detail: "asset_id"@,
                            })
                        } else {
                            r matches Ok(g) && g@ == spec_process_graph(
                                envelope.host_identifier@,
                                spec_start_time(rec.time, envelope.observed_time),
                                rec,
                            ) && g@.wf()
                        }
                    },
                }
            }
        }),
{
    if !str_eq(envelope.query_name.as_str(), "processes") {
        return Err(
            TranslateError::Decode(
                DecodeError::UnsupportedQueryKind { name: envelope.query_name.clone() },
            ),
        );
    }
    let record = match decode_process_record(&envelope.columns) {
        Ok(rec) => rec,
        Err(e) => {
            return Err(TranslateError::Decode(e));
        },
    };
    match build_process_graph(&envelope.host_identifier, envelope.observed_time, &record) {
        Ok(graph) => Ok(graph),
        Err(e) => Err(TranslateError::Build(e)),
    }
}

} // verus!
