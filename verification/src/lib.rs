//! Translation of one endpoint-telemetry record that describes a
//! process-creation event into a typed provenance-graph fragment (host asset,
//! child process, optional parent process, optional executable file), ready
//! for merging into a security graph store.
//!
//! The telemetry schema is weakly typed: numeric fields arrive as decimal
//! text, and the reserved value -1 stands for "unknown". The modules here
//! decode that schema strictly, dispatch on the table name, and build a
//! validated graph, surfacing every failure as a structured error.

pub mod graph;
pub mod numeric;
pub mod schema;
pub mod translate;

pub use graph::Edge;
pub use graph::FileState;
pub use graph::Graph;
pub use graph::GraphBuildError;
pub use graph::Node;
pub use graph::NodeKind;
pub use graph::ProcessState;
pub use numeric::parse_i64;
pub use numeric::parse_u64;
pub use schema::Columns;
pub use schema::DecodeError;
pub use schema::Envelope;
pub use schema::ProcessQueryRecord;
pub use schema::decode_process_record;
pub use translate::KEY_ASSET;
pub use translate::KEY_CHILD;
pub use translate::KEY_FILE;
pub use translate::KEY_PARENT;
pub use translate::TranslateError;
pub use translate::build_process_graph;
pub use translate::translate;
