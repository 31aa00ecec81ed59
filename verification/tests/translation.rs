use osquery_subgraph::Columns;
use osquery_subgraph::DecodeError;
use osquery_subgraph::Envelope;
use osquery_subgraph::FileState;
use osquery_subgraph::Graph;
use osquery_subgraph::GraphBuildError;
use osquery_subgraph::Node;
use osquery_subgraph::NodeKind;
use osquery_subgraph::ProcessState;
use osquery_subgraph::TranslateError;
use osquery_subgraph::KEY_ASSET;
use osquery_subgraph::KEY_CHILD;
use osquery_subgraph::KEY_FILE;
use osquery_subgraph::KEY_PARENT;
use osquery_subgraph::translate;

fn make_columns(pairs: &[(&str, &str)]) -> Columns {
    let mut cols = Columns::new();
    for (name, value) in pairs {
        cols.push((*name).to_owned(), (*value).to_owned());
    }
    cols
}

fn process_envelope(host: &str, observed_time: u64, pairs: &[(&str, &str)]) -> Envelope {
    Envelope {
        host_identifier: host.to_owned(),
        observed_time,
        query_name: "processes".to_owned(),
        columns: make_columns(pairs),
    }
}

fn standard_columns() -> Vec<(&'static str, &'static str)> {
    vec![
        ("pid", "10"),
        ("name", "bash"),
        ("path", "/bin/bash"),
        ("cmdline", "bash"),
        ("parent", "1"),
        ("time", "-1"),
    ]
}

fn edge_triples(graph: &Graph) -> Vec<(String, u64, u64)> {
    graph
        .edges
        .iter()
        .map(|e| (e.label.clone(), e.source_key, e.dest_key))
        .collect()
}

#[test]
fn full_record_yields_four_nodes_and_four_edges() {
    let envelope = process_envelope("host-1", 100, &standard_columns());
    let graph = translate(&envelope).unwrap();
    assert_eq!(graph.node_count(), 4);
    assert_eq!(graph.edge_count(), 4);
    assert_eq!(
        edge_triples(&graph),
        vec![
            ("bin_file".to_owned(), KEY_CHILD, KEY_FILE),
            ("children".to_owned(), KEY_PARENT, KEY_CHILD),
            ("asset_processes".to_owned(), KEY_ASSET, KEY_PARENT),
            ("asset_processes".to_owned(), KEY_ASSET, KEY_CHILD),
        ]
    );
}

#[test]
fn end_to_end_example() {
    let envelope = process_envelope("host-1", 100, &standard_columns());
    let graph = translate(&envelope).unwrap();

    match graph.get_node(KEY_ASSET).unwrap() {
        Node::Asset { asset_id, hostname, .. } => {
            assert_eq!(asset_id, "host-1");
            assert_eq!(hostname, "host-1");
        }
        other => panic!("expected an asset node, got {:?}", other),
    }

    match graph.get_node(KEY_CHILD).unwrap() {
        Node::Process {
            asset_id,
            hostname,
            state,
            created_timestamp,
            last_seen_timestamp,
            process_name,
            process_id,
            ..
        } => {
            assert_eq!(asset_id, "host-1");
            assert_eq!(hostname, "host-1");
            assert_eq!(*state, ProcessState::Created);
            assert_eq!(*created_timestamp, Some(100));
            assert_eq!(*last_seen_timestamp, None);
            assert_eq!(process_name.as_deref(), Some("bash"));
            assert_eq!(*process_id, 10);
        }
        other => panic!("expected the child process node, got {:?}", other),
    }

    match graph.get_node(KEY_PARENT).unwrap() {
        Node::Process {
            state,
            created_timestamp,
            last_seen_timestamp,
            process_name,
            process_id,
            ..
        } => {
            assert_eq!(*state, ProcessState::Existing);
            assert_eq!(*created_timestamp, None);
            assert_eq!(*last_seen_timestamp, Some(100));
            assert_eq!(*process_name, None);
            assert_eq!(*process_id, 1);
        }
        other => panic!("expected the parent process node, got {:?}", other),
    }

    match graph.get_node(KEY_FILE).unwrap() {
        Node::File { asset_id, file_path, state, last_seen_timestamp, .. } => {
            assert_eq!(asset_id, "host-1");
            assert_eq!(file_path, "/bin/bash");
            assert_eq!(*state, FileState::Existing);
            assert_eq!(*last_seen_timestamp, 100);
        }
        other => panic!("expected a file node, got {:?}", other),
    }

    assert_eq!(
        edge_triples(&graph),
        vec![
            ("bin_file".to_owned(), KEY_CHILD, KEY_FILE),
            ("children".to_owned(), KEY_PARENT, KEY_CHILD),
            ("asset_processes".to_owned(), KEY_ASSET, KEY_PARENT),
            ("asset_processes".to_owned(), KEY_ASSET, KEY_CHILD),
        ]
    );
}

#[test]
fn empty_path_omits_file_node_and_bin_file_edge() {
    let envelope = process_envelope(
        "host-1",
        100,
        &[
            ("pid", "10"),
            ("name", "bash"),
            ("path", ""),
            ("cmdline", "bash"),
            ("parent", "1"),
            ("time", "-1"),
        ],
    );
    let graph = translate(&envelope).unwrap();
    assert_eq!(graph.node_count(), 3);
    assert_eq!(graph.edge_count(), 3);
    assert!(graph.get_node(KEY_FILE).is_none());
    assert!(graph.edges.iter().all(|e| e.label != "bin_file"));
    assert_eq!(
        edge_triples(&graph),
        vec![
            ("children".to_owned(), KEY_PARENT, KEY_CHILD),
            ("asset_processes".to_owned(), KEY_ASSET, KEY_PARENT),
            ("asset_processes".to_owned(), KEY_ASSET, KEY_CHILD),
        ]
    );
}

#[test]
fn negative_parent_omits_parent_node_and_edges() {
    let envelope = process_envelope(
        "host-1",
        100,
        &[
            ("pid", "10"),
            ("name", "bash"),
            ("path", "/bin/bash"),
            ("cmdline", "bash"),
            ("parent", "-1"),
            ("time", "-1"),
        ],
    );
    let graph = translate(&envelope).unwrap();
    assert_eq!(graph.node_count(), 3);
    assert_eq!(graph.edge_count(), 2);
    assert!(graph.get_node(KEY_PARENT).is_none());
    assert!(graph.edges.iter().all(|e| e.label != "children"));
    assert!(graph
        .edges
        .iter()
        .all(|e| e.source_key != KEY_PARENT && e.dest_key != KEY_PARENT));
    assert_eq!(
        edge_triples(&graph),
        vec![
            ("bin_file".to_owned(), KEY_CHILD, KEY_FILE),
            ("asset_processes".to_owned(), KEY_ASSET, KEY_CHILD),
        ]
    );
}

fn child_created_timestamp(graph: &Graph) -> Option<u64> {
    match graph.get_node(KEY_CHILD).unwrap() {
        Node::Process { created_timestamp, .. } => *created_timestamp,
        other => panic!("expected the child process node, got {:?}", other),
    }
}

#[test]
fn sentinel_time_falls_back_to_observed_time() {
    let envelope = process_envelope(
        "host-1",
        1000,
        &[
            ("pid", "10"),
            ("name", "bash"),
            ("path", "/bin/bash"),
            ("cmdline", "bash"),
            ("parent", "1"),
            ("time", "-1"),
        ],
    );
    let graph = translate(&envelope).unwrap();
    assert_eq!(child_created_timestamp(&graph), Some(1000));
}

#[test]
fn reported_time_wins_over_observed_time() {
    let envelope = process_envelope(
        "host-1",
        9999,
        &[
            ("pid", "10"),
            ("name", "bash"),
            ("path", "/bin/bash"),
            ("cmdline", "bash"),
            ("parent", "1"),
            ("time", "500"),
        ],
    );
    let graph = translate(&envelope).unwrap();
    assert_eq!(child_created_timestamp(&graph), Some(500));
}

#[test]
fn negative_non_sentinel_time_wraps_as_unsigned() {
    let envelope = process_envelope(
        "host-1",
        100,
        &[
            ("pid", "10"),
            ("name", "bash"),
            ("path", "/bin/bash"),
            ("cmdline", "bash"),
            ("parent", "1"),
            ("time", "-5"),
        ],
    );
    let graph = translate(&envelope).unwrap();
    assert_eq!(child_created_timestamp(&graph), Some((-5i64) as u64));
}

#[test]
fn unsupported_query_name_is_rejected() {
    let envelope = Envelope {
        host_identifier: "host-1".to_owned(),
        observed_time: 100,
        query_name: "file_events".to_owned(),
        columns: make_columns(&standard_columns()),
    };
    match translate(&envelope) {
        Err(TranslateError::Decode(DecodeError::UnsupportedQueryKind { name })) => {
            assert_eq!(name, "file_events");
        }
        other => panic!("expected an unsupported-query error, got {:?}", other),
    }
}

#[test]
fn decode_failure_propagates_unchanged() {
    let envelope = process_envelope(
        "host-1",
        100,
        &[
            ("pid", "abc"),
            ("name", "bash"),
            ("path", "/bin/bash"),
            ("cmdline", "bash"),
            ("parent", "1"),
            ("time", "-1"),
        ],
    );
    match translate(&envelope) {
        Err(TranslateError::Decode(DecodeError::InvalidNumeric { field, raw_value })) => {
            assert_eq!(field, "pid");
            assert_eq!(raw_value, "abc");
        }
        other => panic!("expected an invalid-numeric error, got {:?}", other),
    }
}

#[test]
fn empty_host_identifier_fails_asset_validation() {
    let envelope = process_envelope("", 100, &standard_columns());
    match translate(&envelope) {
        Err(TranslateError::Build(GraphBuildError::ValidationFailed { node_kind, detail })) => {
            assert_eq!(node_kind, NodeKind::Asset);
            assert_eq!(detail, "asset_id");
        }
        other => panic!("expected an asset validation failure, got {:?}", other),
    }
}
