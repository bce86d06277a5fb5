//! Laws of the graph: what holds of every graph, node and edge.

use crate::edge::edge_of;
use crate::edge::Edge;
use crate::edge::ToEdge;
use crate::graph::link_of;
use crate::graph::zoom_id_text;
use crate::graph::GraphView;
use crate::graph::ZoomNode;
use crate::json::ToJson;
use crate::node::node_of;
use crate::node::Node;
use crate::node::ToNode;
use crate::records::collection_of;
use crate::records::lookup;
use crate::records::put;
use crate::text::link_id_text;
use crate::text::record_id_text;
use crate::text::DebugText;
use crate::text::DisplayText;
use vstd::prelude::*;

verus! {

/// The node of an entity that keeps the provided identifier has the
/// identifier formatted from the entity's variant and primary key.
pub proof fn law_default_node_id<NV: DisplayText, PK: DebugText, T, E: ToNode<NV, PK, T> + ?Sized>(
    entity: &E,
    node: Node<NV, PK, T>,
)
    requires
        node_of(entity, node),
        entity.default_node_id(),
    ensures
        node.id@ == record_id_text(
            entity.spec_node_variant().display_text(),
            entity.spec_node_pk().debug_text(),
        ),
{
}

/// The edge of an entity that keeps the provided identifier has the
/// identifier formatted from the entity's variant and primary key.
pub proof fn law_default_edge_id<EV: DisplayText, PK: DebugText, T, E: ToEdge<EV, PK, T> + ?Sized>(
    entity: &E,
    edge: Edge<EV, PK, T>,
)
    requires
        edge_of(entity, edge),
        entity.default_edge_id(),
    ensures
        edge.id@ == record_id_text(
            entity.spec_edge_variant().display_text(),
            entity.spec_edge_pk().debug_text(),
        ),
{
}

/// The identifier of the node of an entity is one that the entity's
/// `node_id` returns, as provided or as the implementor wrote it.
pub proof fn law_node_id_is_from_node_id<
    NV: DisplayText,
    PK: DebugText,
    T,
    E: ToNode<NV, PK, T> + ?Sized,
>(entity: &E, node: Node<NV, PK, T>)
    requires
        node_of(entity, node),
    ensures
        call_ensures(E::node_id, (entity,), node.id),
{
}

/// The identifier of the edge of an entity is one that the entity's
/// `edge_id` returns, as provided or as the implementor wrote it.
pub proof fn law_edge_id_is_from_edge_id<
    EV: DisplayText,
    PK: DebugText,
    T,
    E: ToEdge<EV, PK, T> + ?Sized,
>(entity: &E, edge: Edge<EV, PK, T>)
    requires
        edge_of(entity, edge),
    ensures
        call_ensures(E::edge_id, (entity,), edge.id),
{
}

/// A record that was put is found under its collection and identifier.
pub proof fn law_put_then_lookup(
    records: Map<Seq<char>, Map<Seq<char>, serde_json::Value>>,
    collection: Seq<char>,
    id: Seq<char>,
    json: serde_json::Value,
)
    ensures
        lookup(put(records, collection, id, json), collection, id) == Some(json),
{
}

/// Putting a record leaves every other record as it was: nothing is taken
/// out, and only the record under the same collection and identifier is
/// replaced.
pub proof fn law_put_keeps_others(
    records: Map<Seq<char>, Map<Seq<char>, serde_json::Value>>,
    collection: Seq<char>,
    id: Seq<char>,
    json: serde_json::Value,
    other_collection: Seq<char>,
    other_id: Seq<char>,
)
    requires
        other_collection != collection || other_id != id,
    ensures
        lookup(put(records, collection, id, json), other_collection, other_id) == lookup(
            records,
            other_collection,
            other_id,
        ),
{
}

/// Putting two records under one collection and identifier leaves what
/// putting the second alone leaves: one entry under that identifier, with
/// the second record.
pub proof fn law_last_put_stays(
    records: Map<Seq<char>, Map<Seq<char>, serde_json::Value>>,
    collection: Seq<char>,
    id: Seq<char>,
    first: serde_json::Value,
    second: serde_json::Value,
)
    ensures
        put(put(records, collection, id, first), collection, id, second) == put(
            records,
            collection,
            id,
            second,
        ),
        collection_of(
            put(put(records, collection, id, first), collection, id, second),
            collection,
        ).dom() == collection_of(records, collection).dom().insert(id),
{
    let once = put(records, collection, id, first);
    let twice = put(once, collection, id, second);
    assert(collection_of(once, collection).insert(id, second) =~= collection_of(
        records,
        collection,
    ).insert(id, second));
    assert(twice =~= put(records, collection, id, second));
    assert(collection_of(twice, collection).dom() =~= collection_of(
        records,
        collection,
    ).dom().insert(id));
}

/// Two records put under one collection and two identifiers are both found.
pub proof fn law_distinct_ids_both_stay(
    records: Map<Seq<char>, Map<Seq<char>, serde_json::Value>>,
    collection: Seq<char>,
    first_id: Seq<char>,
    first: serde_json::Value,
    second_id: Seq<char>,
    second: serde_json::Value,
)
    requires
        first_id != second_id,
    ensures
        lookup(
            put(put(records, collection, first_id, first), collection, second_id, second),
            collection,
            first_id,
        ) == Some(first),
        lookup(
            put(put(records, collection, first_id, first), collection, second_id, second),
            collection,
            second_id,
        ) == Some(second),
{
}

/// After a node with a JSON form is added, the node's JSON form is found
/// under the display form of its variant and under its identifier, and the
/// edges are as they were.
pub proof fn law_added_node_is_found<NV: DisplayText + ToJson, PK: ToJson, T: ToJson>(
    graph: GraphView,
    node: Node<NV, PK, T>,
)
    requires
        node.json() is Ok,
    ensures
        lookup(graph.with_node(node).nodes, node.variant.display_text(), node.id@) == Some(
            node.json()->Ok_0,
        ),
        graph.with_node(node).edges == graph.edges,
{
}

/// After an edge with a JSON form is added, the edge's JSON form is found
/// under the display form of its variant and under its identifier, and the
/// nodes are as they were.
pub proof fn law_added_edge_is_found<EV: DisplayText + ToJson, PK: ToJson, T: ToJson>(
    graph: GraphView,
    edge: Edge<EV, PK, T>,
)
    requires
        edge.json() is Ok,
    ensures
        lookup(graph.with_edge(edge).edges, edge.variant.display_text(), edge.id@) == Some(
            edge.json()->Ok_0,
        ),
        graph.with_edge(edge).nodes == graph.nodes,
{
}

/// Adding a node twice is adding it once; and of two nodes with one variant
/// and one identifier, the second stays.
pub proof fn law_same_node_id_overwrites<NV: DisplayText + ToJson, PK: ToJson, T: ToJson>(
    graph: GraphView,
    first: Node<NV, PK, T>,
    second: Node<NV, PK, T>,
)
    requires
        first.json() is Ok,
        second.json() is Ok,
        first.variant.display_text() == second.variant.display_text(),
        first.id@ == second.id@,
    ensures
        graph.with_node(first).with_node(second) == graph.with_node(second),
        graph.with_node(first).with_node(first) == graph.with_node(first),
{
    law_last_put_stays(
        graph.nodes,
        first.variant.display_text(),
        first.id@,
        first.json()->Ok_0,
        second.json()->Ok_0,
    );
    law_last_put_stays(
        graph.nodes,
        first.variant.display_text(),
        first.id@,
        first.json()->Ok_0,
        first.json()->Ok_0,
    );
}

/// Of two edges with one variant: where their identifiers are the same, the
/// second takes the place of the first; where they differ, both are found.
pub proof fn law_edges_collide_by_id<EV: DisplayText + ToJson, PK: ToJson, T: ToJson>(
    graph: GraphView,
    first: Edge<EV, PK, T>,
    second: Edge<EV, PK, T>,
)
    requires
        first.json() is Ok,
        second.json() is Ok,
        first.variant.display_text() == second.variant.display_text(),
    ensures
        first.id@ == second.id@ ==> graph.with_edge(first).with_edge(second) == graph.with_edge(
            second,
        ),
        first.id@ != second.id@ ==> lookup(
            graph.with_edge(first).with_edge(second).edges,
            first.variant.display_text(),
            first.id@,
        ) == Some(first.json()->Ok_0) && lookup(
            graph.with_edge(first).with_edge(second).edges,
            second.variant.display_text(),
            second.id@,
        ) == Some(second.json()->Ok_0),
{
    if first.id@ == second.id@ {
        law_last_put_stays(
            graph.edges,
            first.variant.display_text(),
            first.id@,
            first.json()->Ok_0,
            second.json()->Ok_0,
        );
    }
}

/// Two links of one variant between the same two nodes have the same
/// identifier, whatever their props: the second takes the place of the
/// first.
pub proof fn law_links_share_id<NVS, PKS: DebugText, TS, EV: DisplayText, ET, NVT, PKT: DebugText, TT>(
    source: Node<NVS, PKS, TS>,
    target: Node<NVT, PKT, TT>,
    variant: EV,
    first_props: ET,
    first: Edge<EV, (PKS, PKT), ET>,
    second_props: ET,
    second: Edge<EV, (PKS, PKT), ET>,
)
    requires
        link_of(source, target, variant, first_props, first),
        link_of(source, target, variant, second_props, second),
    ensures
        first.id@ == second.id@,
        first.id@ == link_id_text(
            source.variant_pk.debug_text(),
            variant.display_text(),
            target.variant_pk.debug_text(),
        ),
{
}

/// After a link whose three records have a JSON form: the edge is found
/// under its variant and identifier; both nodes' identifiers are found under
/// the nodes' variants, the target with its own JSON form and the source
/// with its own unless the target took its place; and the ends of the edge
/// are the identifiers of the two nodes.
pub proof fn law_link_is_stored<
    NVS: DisplayText + ToJson,
    PKS: DebugText + ToJson,
    TS: ToJson,
    EV: DisplayText + ToJson,
    ET: ToJson,
    NVT: DisplayText + ToJson,
    PKT: DebugText + ToJson,
    TT: ToJson,
>(
    graph: GraphView,
    source: Node<NVS, PKS, TS>,
    edge: Edge<EV, (PKS, PKT), ET>,
    target: Node<NVT, PKT, TT>,
    variant: EV,
    props: ET,
)
    requires
        link_of(source, target, variant, props, edge),
        graph.linked(source, edge, target).1 is Ok,
    ensures
        source.json() is Ok && edge.json() is Ok && target.json() is Ok,
        edge.source@ == source.id@ && edge.target@ == target.id@,
        lookup(graph.linked(source, edge, target).0.edges, variant.display_text(), edge.id@)
            == Some(edge.json()->Ok_0),
        lookup(
            graph.linked(source, edge, target).0.nodes,
            target.variant.display_text(),
            target.id@,
        ) == Some(target.json()->Ok_0),
        lookup(
            graph.linked(source, edge, target).0.nodes,
            source.variant.display_text(),
            source.id@,
        ) == (if source.variant.display_text() == target.variant.display_text() && source.id@
            == target.id@ {
            Some(target.json()->Ok_0)
        } else {
            Some(source.json()->Ok_0)
        }),
{
}

/// A record without a JSON form leaves no trace: adding such a node or such
/// an edge changes nothing.
pub proof fn law_failed_record_changes_nothing<
    NV: DisplayText + ToJson,
    EV: DisplayText + ToJson,
    PK: ToJson,
    T: ToJson,
>(graph: GraphView, node: Node<NV, PK, T>, edge: Edge<EV, PK, T>)
    ensures
        node.json() is Err ==> graph.with_node(node) == graph,
        edge.json() is Err ==> graph.with_edge(edge) == graph,
{
}

/// A link that fails leaves in the graph what was added before the failure
/// and nothing of the record that failed: nothing at all where the source
/// fails, the source alone where the edge fails, the source and the edge
/// where the target fails.
pub proof fn law_failed_link_keeps_what_came_before<
    NVS: DisplayText + ToJson,
    PKS: ToJson,
    TS: ToJson,
    EV: DisplayText + ToJson,
    ET: ToJson,
    NVT: DisplayText + ToJson,
    PKT: ToJson,
    TT: ToJson,
>(
    graph: GraphView,
    source: Node<NVS, PKS, TS>,
    edge: Edge<EV, (PKS, PKT), ET>,
    target: Node<NVT, PKT, TT>,
)
    requires
        graph.linked(source, edge, target).1 is Err,
    ensures
        source.json() is Err ==> graph.linked(source, edge, target).0 == graph,
        source.json() is Ok && edge.json() is Err ==> graph.linked(source, edge, target).0
            == graph.with_node(source),
        source.json() is Ok && edge.json() is Ok ==> target.json() is Err && graph.linked(
            source,
            edge,
            target,
        ).0 == graph.with_node(source).with_edge(edge),
        graph.linked(source, edge, target).0.edges == graph.edges || edge.json() is Ok,
{
}

/// The identifier to look at first is the identifier of the node of the
/// entity that has that variant and primary key, where the entity keeps the
/// provided identifier.
pub proof fn law_zoom_id_is_node_id<
    NV: DisplayText,
    PK: DebugText,
    T,
    Z: ZoomNode<NV, PK> + ?Sized,
    E: ToNode<NV, PK, T> + ?Sized,
>(zoom: &Z, entity: &E, node: Node<NV, PK, T>)
    requires
        zoom.spec_zoom_to() == Some((entity.spec_node_variant(), entity.spec_node_pk())),
        node_of(entity, node),
        entity.default_node_id(),
    ensures
        zoom_id_text(zoom.spec_zoom_to()) == Some(node.id@),
{
}

} // verus!
