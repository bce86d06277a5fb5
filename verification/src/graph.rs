//! The graph: nodes and edges as JSON, by variant and by identifier.

use crate::edge::Edge;
use crate::json::fails_with;
use crate::json::json_object;
use crate::json::object_value;
use crate::json::outcome;
use crate::json::SerializationError;
use crate::json::ToJson;
use crate::node::node_of;
use crate::node::node_parts_json;
use crate::node::Node;
use crate::node::ToNode;
use crate::node::ToNodeJSON;
use crate::records::collections_object;
use crate::records::lookup;
use crate::records::put;
use crate::records::Records;
use crate::text::link_id;
use crate::text::link_id_text;
use crate::text::record_id;
use crate::text::record_id_text;
use crate::text::DebugText;
use crate::text::DisplayText;
use vstd::prelude::*;

verus! {

/// What a graph holds: its nodes and its edges, each by the display form of
/// the variant and by identifier.
pub struct GraphView {
    /// The nodes.
    pub nodes: Map<Seq<char>, Map<Seq<char>, serde_json::Value>>,
    /// The edges.
    pub edges: Map<Seq<char>, Map<Seq<char>, serde_json::Value>>,
}

/// Success without a value where the JSON form exists, its failure otherwise.
pub open spec fn stored(json: Result<serde_json::Value, Seq<char>>) -> Result<(), Seq<char>> {
    match json {
        Ok(_) => Ok(()),
        Err(message) => Err(message),
    }
}

impl GraphView {
    /// The graph without nodes and edges.
    pub open spec fn empty() -> GraphView {
        GraphView { nodes: Map::empty(), edges: Map::empty() }
    }

    /// The graph after the node is added: where the node has a JSON form, it
    /// stands under the node's variant and identifier, in place of what
    /// stood there; where it has none, nothing changes.
    pub open spec fn with_node<NV: DisplayText + ToJson, PK: ToJson, T: ToJson>(
        self,
        node: Node<NV, PK, T>,
    ) -> GraphView {
        match node.json() {
            Ok(json) => GraphView {
                nodes: put(self.nodes, node.variant.display_text(), node.id@, json),
                edges: self.edges,
            },
            Err(_) => self,
        }
    }

    /// The graph after the edge is added: where the edge has a JSON form, it
    /// stands under the edge's variant and identifier, in place of what
    /// stood there; where it has none, nothing changes.
    pub open spec fn with_edge<EV: DisplayText + ToJson, PK: ToJson, T: ToJson>(
        self,
        edge: Edge<EV, PK, T>,
    ) -> GraphView {
        match edge.json() {
            Ok(json) => GraphView {
                nodes: self.nodes,
                edges: put(self.edges, edge.variant.display_text(), edge.id@, json),
            },
            Err(_) => self,
        }
    }

    /// The graph after the source, the edge and the target are added in this
    /// order, up to the first of them that has no JSON form, and the failure
    /// of that one. What was added before the failure stays.
    pub open spec fn linked<
        NVS: DisplayText + ToJson,
        PKS: ToJson,
        TS: ToJson,
        EV: DisplayText + ToJson,
        ET: ToJson,
        NVT: DisplayText + ToJson,
        PKT: ToJson,
        TT: ToJson,
    >(
        self,
        source: Node<NVS, PKS, TS>,
        edge: Edge<EV, (PKS, PKT), ET>,
        target: Node<NVT, PKT, TT>,
    ) -> (GraphView, Result<(), Seq<char>>) {
        if source.json() is Err {
            (self, stored(source.json()))
        } else if edge.json() is Err {
            (self.with_node(source), stored(edge.json()))
        } else {
            (self.with_node(source).with_edge(edge).with_node(target), stored(target.json()))
        }
    }

    /// Whether adding the source, the edge and the target in this order
    /// takes this graph to `after`, with the given result.
    pub open spec fn links_to<
        NVS: DisplayText + ToJson,
        PKS: ToJson,
        TS: ToJson,
        EV: DisplayText + ToJson,
        ET: ToJson,
        NVT: DisplayText + ToJson,
        PKT: ToJson,
        TT: ToJson,
    >(
        self,
        source: Node<NVS, PKS, TS>,
        edge: Edge<EV, (PKS, PKT), ET>,
        target: Node<NVT, PKT, TT>,
        after: GraphView,
        result: Result<(), Seq<char>>,
    ) -> bool {
        self.linked(source, edge, target) == (after, result)
    }
}

/// Whether the edge is the link of the given variant and props from the
/// source to the target: its primary key is the pair of their primary keys,
/// its identifier is formatted from their keys and its variant, and its ends
/// are their identifiers.
pub open spec fn link_of<NVS, PKS: DebugText, TS, EV: DisplayText, ET, NVT, PKT: DebugText, TT>(
    source: Node<NVS, PKS, TS>,
    target: Node<NVT, PKT, TT>,
    variant: EV,
    props: ET,
    edge: Edge<EV, (PKS, PKT), ET>,
) -> bool {
    &&& edge.variant == variant
    &&& edge.variant_pk == (source.variant_pk, target.variant_pk)
    &&& edge.id@ == link_id_text(
        source.variant_pk.debug_text(),
        variant.display_text(),
        target.variant_pk.debug_text(),
    )
    &&& edge.source@ == source.id@
    &&& edge.target@ == target.id@
    &&& edge.props == props
}

/// Whether the three records are those of a link between two entities: the
/// nodes of the entities, and the edge of the given variant and props from
/// the one to the other.
pub open spec fn link_records<
    NVS: DisplayText,
    PKS: DebugText,
    TS,
    EV: DisplayText,
    ET,
    NVT: DisplayText,
    PKT: DebugText,
    TT,
    S: ToNode<NVS, PKS, TS> + ?Sized,
    G: ToNode<NVT, PKT, TT> + ?Sized,
>(
    n_source: &S,
    n_target: &G,
    variant: EV,
    props: ET,
    source: Node<NVS, PKS, TS>,
    edge: Edge<EV, (PKS, PKT), ET>,
    target: Node<NVT, PKT, TT>,
) -> bool {
    &&& node_of(n_source, source)
    &&& node_of(n_target, target)
    &&& link_of(source, target, variant, props, edge)
}

/// A graph of nodes and edges, each kept as the JSON object it is sent as.
///
/// A graph starts empty and grows by insertion. By insertion an edge enters
/// only together with its two nodes. A graph that was sent can be taken up
/// again from its records.
pub struct Graph {
    nodes: Records,
    edges: Records,
}

impl View for Graph {
    type V = GraphView;

    closed spec fn view(&self) -> GraphView {
        GraphView { nodes: self.nodes@, edges: self.edges@ }
    }
}

/// The JSON object of a graph: its nodes under `nodes`, its edges under
/// `edges`.
pub open spec fn graph_object(graph: GraphView) -> serde_json::Value {
    json_object(
        Map::empty().insert("nodes"@, collections_object(graph.nodes)).insert(
            "edges"@,
            collections_object(graph.edges),
        ),
    )
}

impl ToJson for Graph {
    /// The object of the graph. It never fails.
    open spec fn json(&self) -> Result<serde_json::Value, Seq<char>> {
        Ok(graph_object(self@))
    }

    fn to_json(&self) -> (result: Result<serde_json::Value, SerializationError>) {
        let nodes = match self.nodes.to_json() {
            Ok(value) => value,
            Err(error) => {
                return Err(error);
            },
        };
        let edges = match self.edges.to_json() {
            Ok(value) => value,
            Err(error) => {
                return Err(error);
            },
        };
        let mut object = serde_json::Map::new();
        object.insert("nodes".to_owned(), nodes);
        object.insert("edges".to_owned(), edges);
        Ok(object_value(object))
    }
}

impl Graph {
    /// Returns a graph without nodes and edges.
    pub fn new() -> (graph: Graph)
        ensures
            graph@ == GraphView::empty(),
    {
        Graph { nodes: Records::new(), edges: Records::new() }
    }

    /// Returns the graph with the given nodes and edges, taken as they are:
    /// the way back for a graph that was sent.
    pub fn from_records(nodes: Records, edges: Records) -> (graph: Graph)
        ensures
            graph@ == (GraphView { nodes: nodes@, edges: edges@ }),
    {
        Graph { nodes, edges }
    }

    /// The nodes of the graph.
    pub fn nodes(&self) -> (nodes: &Records)
        ensures
            nodes@ == self@.nodes,
    {
        &self.nodes
    }

    /// The edges of the graph.
    pub fn edges(&self) -> (edges: &Records)
        ensures
            edges@ == self@.edges,
    {
        &self.edges
    }

    /// Adds a node, under the display form of its variant and under its
    /// identifier. A node that stood there is replaced.
    ///
    /// Fails where the node has no JSON form, and then leaves the graph as it
    /// was.
    pub fn add_node<NV, PK, T>(&mut self, node: &Node<NV, PK, T>) -> (result: Result<
        (),
        SerializationError,
    >) where NV: DisplayText + ToJson, PK: ToJson, T: ToJson
        ensures
            final(self)@ == old(self)@.with_node(*node),
            outcome(result) == stored(node.json()),
            result is Err ==> final(self)@ == old(self)@,
            result is Ok ==> lookup(final(self)@.nodes, node.variant.display_text(), node.id@)
                == Some(node.json()->Ok_0),
    {
        let json = match node.to_node_json() {
            Ok(json) => json,
            Err(error) => {
                return Err(error);
            },
        };
        let collection = node.variant.to_display_text();
        let id = node.id.clone();
        self.nodes.insert(collection, id, json);
        Ok(())
    }

    /// Adds the node of an entity, and returns the node.
    ///
    /// Fails where a typed part of the node has no JSON form, with the
    /// failure of the first part that fails, and then leaves the graph as it
    /// was.
    pub fn add_node_from<NV, PK, T, N>(&mut self, n: &N) -> (result: Result<
        Node<NV, PK, T>,
        SerializationError,
    >) where
        NV: DisplayText + ToJson,
        PK: DebugText + ToJson,
        T: ToJson,
        N: ToNodeJSON<NV, PK, T> + ?Sized,

        ensures
            match result {
                Ok(node) => node_of(n, node) && node.json() is Ok && final(self)@ == old(
                    self,
                )@.with_node(node),
                Err(error) => fails_with(node_parts_json(n), error@) && final(self)@ == old(self)@,
            },
    {
        let node = n.to_node();
        match self.add_node(&node) {
            Ok(()) => Ok(node),
            Err(error) => Err(error),
        }
    }

    /// Adds an edge, under the display form of its variant and under its
    /// identifier. An edge that stood there is replaced.
    ///
    /// Fails where the edge has no JSON form, and then leaves the graph as it
    /// was.
    fn add_edge<EV, PK, T>(&mut self, edge: &Edge<EV, PK, T>) -> (result: Result<
        (),
        SerializationError,
    >) where EV: DisplayText + ToJson, PK: ToJson, T: ToJson
        ensures
            final(self)@ == old(self)@.with_edge(*edge),
            outcome(result) == stored(edge.json()),
            result is Err ==> final(self)@ == old(self)@,
            result is Ok ==> lookup(final(self)@.edges, edge.variant.display_text(), edge.id@)
                == Some(edge.json()->Ok_0),
    {
        let json = match edge.to_edge_json() {
            Ok(json) => json,
            Err(error) => {
                return Err(error);
            },
        };
        let collection = edge.variant.to_display_text();
        let id = edge.id.clone();
        self.edges.insert(collection, id, json);
        Ok(())
    }

    /// Links two entities: adds the node of the source, then the edge of the
    /// given variant and props from the source to the target, then the node
    /// of the target, and returns the three records.
    ///
    /// The primary key of the edge is the pair of the primary keys of the two
    /// entities, and its identifier is formatted from the debug form of the
    /// source's key, the display form of the variant and the debug form of
    /// the target's key.
    ///
    /// Fails at the first of the three records that has no JSON form. What
    /// was added before the failure stays in the graph.
    pub fn source_edge_target<NVS, PKS, TS, EV, ET, NVT, PKT, TT, S, G>(
        &mut self,
        n_source: &S,
        n_target: &G,
        edge_variant: EV,
        edge_props: ET,
    ) -> (result: Result<
        (Node<NVS, PKS, TS>, Edge<EV, (PKS, PKT), ET>, Node<NVT, PKT, TT>),
        SerializationError,
    >) where
        NVS: DisplayText + ToJson,
        PKS: DebugText + ToJson,
        TS: ToJson,
        EV: DisplayText + ToJson,
        ET: ToJson,
        NVT: DisplayText + ToJson,
        PKT: DebugText + ToJson,
        TT: ToJson,
        S: ToNode<NVS, PKS, TS> + ?Sized,
        G: ToNode<NVT, PKT, TT> + ?Sized,

        ensures
            match result {
                Ok((source, edge, target)) => link_records(
                    n_source,
                    n_target,
                    edge_variant,
                    edge_props,
                    source,
                    edge,
                    target,
                ) && old(self)@.links_to(source, edge, target, final(self)@, Ok(())),
                Err(error) => exists|
                    source: Node<NVS, PKS, TS>,
                    edge: Edge<EV, (PKS, PKT), ET>,
                    target: Node<NVT, PKT, TT>,
                | #[trigger]
                    link_records(
                        n_source,
                        n_target,
                        edge_variant,
                        edge_props,
                        source,
                        edge,
                        target,
                    ) && old(self)@.links_to(source, edge, target, final(self)@, Err(error@)),
            },
    {
        let source = n_source.to_node();
        let target = n_target.to_node();
        let source_pk = n_source.node_pk();
        let target_pk = n_target.node_pk();
        let id = link_id(&source_pk, &edge_variant, &target_pk);
        let edge = Edge {
            variant: edge_variant,
            variant_pk: (source_pk, target_pk),
            id,
            source: source.id.clone(),
            target: target.id.clone(),
            props: edge_props,
        };
        assert(link_records(n_source, n_target, edge_variant, edge_props, source, edge, target));
        match self.add_node(&source) {
            Ok(()) => {},
            Err(error) => {
                return Err(error);
            },
        }
        match self.add_edge(&edge) {
            Ok(()) => {},
            Err(error) => {
                return Err(error);
            },
        }
        match self.add_node(&target) {
            Ok(()) => {},
            Err(error) => {
                return Err(error);
            },
        }
        Ok((source, edge, target))
    }
}

/// An entity that adds what it stands for to a graph.
///
/// An implementor writes `mut_graph` from the insertions of `Graph`, and says
/// in `graph_step` what it does.
pub trait ToGraph {
    /// Whether `mut_graph` may take a graph from `before` to `after` with
    /// the given result. As provided it allows every step: an implementor
    /// states its own.
    open spec fn graph_step(
        &self,
        before: GraphView,
        after: GraphView,
        result: Result<(), Seq<char>>,
    ) -> bool {
        true
    }

    /// Adds to the graph what the entity stands for.
    fn mut_graph(&self, graph: &mut Graph) -> (result: Result<(), SerializationError>)
        ensures
            self.graph_step(old(graph)@, final(graph)@, outcome(result)),
    ;

    /// Returns the graph of the entity alone: what `mut_graph` makes of the
    /// empty graph. Fails where `mut_graph` fails, with its failure.
    fn to_graph(&self) -> (result: Result<Graph, SerializationError>)
        ensures
            result matches Ok(made) ==> self.graph_step(GraphView::empty(), made@, Ok(())),
            result matches Err(error) ==> exists|after: GraphView| #[trigger]
                self.graph_step(GraphView::empty(), after, Err(error@)),
    {
        let mut graph = Graph::new();
        let step = self.mut_graph(&mut graph);
        let ghost after = graph@;
        let result = match step {
            Ok(()) => Ok(graph),
            Err(error) => Err(error),
        };
        assert(result matches Err(error) ==> self.graph_step(
            GraphView::empty(),
            after,
            Err(error@),
        ));
        result
    }
}

/// The identifier of the node to look at first: formatted as the identifier
/// of a node is, from the variant and the primary key.
pub open spec fn zoom_id_text<EV: DisplayText, PK: DebugText>(target: Option<(EV, PK)>) -> Option<
    Seq<char>,
> {
    match target {
        Some((variant, pk)) => Some(record_id_text(variant.display_text(), pk.debug_text())),
        None => None,
    }
}

/// An optional text, by its view.
pub open spec fn text_view(text: Option<String>) -> Option<Seq<char>> {
    match text {
        Some(text) => Some(text@),
        None => None,
    }
}

/// An entity that adds what it stands for to a graph, and names the node to
/// look at first.
pub trait ZoomNode<EV: DisplayText, PK: DebugText>: ToGraph {
    /// The variant and the primary key of the node to look at first, if
    /// there is one. As provided it is left open: an implementor states it.
    open spec fn spec_zoom_to(&self) -> Option<(EV, PK)> {
        arbitrary()
    }

    /// Returns the variant and the primary key of the node to look at first,
    /// if there is one.
    fn zoom_to(&self) -> (target: Option<(EV, PK)>)
        ensures
            target == self.spec_zoom_to(),
    ;

    /// Returns the identifier of the node to look at first, if there is one:
    /// the identifier that a node of that variant and primary key has.
    fn zoom_to_id(&self) -> (id: Option<String>)
        ensures
            text_view(id) == zoom_id_text(self.spec_zoom_to()),
    {
        match self.zoom_to() {
            Some((variant, pk)) => Some(record_id(&variant, &pk)),
            None => None,
        }
    }
}

} // verus!
