//! Nodes and edges of a force-directed graph, collected from typed entities.

pub mod decimal;
pub mod edge;
pub mod graph;
pub mod json;
pub mod laws;
pub mod node;
pub mod records;
pub mod text;

pub use crate::edge::Edge;
pub use crate::edge::ToEdge;
pub use crate::edge::ToEdgeJSON;
pub use crate::graph::Graph;
pub use crate::graph::ToGraph;
pub use crate::graph::ZoomNode;
pub use crate::json::SerializationError;
pub use crate::json::ToJson;
pub use crate::node::Node;
pub use crate::node::ToNode;
pub use crate::node::ToNodeJSON;
pub use crate::records::Records;
pub use crate::text::DebugText;
pub use crate::text::DisplayText;
