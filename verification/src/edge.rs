//! Edges, and the entities that present themselves as edges.

use crate::json::fails_with;
use crate::json::json_object;
use crate::json::json_string;
use crate::json::object_value;
use crate::json::outcome;
use crate::json::string_value;
use crate::json::succeeds_with;
use crate::json::SerializationError;
use crate::json::ToJson;
use crate::node::parts_json;
use crate::text::record_id;
use crate::text::record_id_text;
use crate::text::DebugText;
use crate::text::DisplayText;
use vstd::prelude::*;

verus! {

/// One directed relationship between two nodes of a graph.
///
/// `EV` is the type of the variant, `PK` that of the primary key within the
/// variant, `T` that of the props of the variant.
#[derive(Debug)]
pub struct Edge<EV, PK, T> {
    /// The kind of the edge.
    pub variant: EV,
    /// The primary key within the variant.
    pub variant_pk: PK,
    /// The identifier of the edge among the edges of its variant, its own
    /// even where another edge has the same source and target.
    pub id: String,
    /// The identifier of the node that the edge leaves.
    pub source: String,
    /// The identifier of the node that the edge reaches.
    pub target: String,
    /// What else the variant tells of the edge.
    pub props: T,
}

/// The JSON object of an edge: its six fields under their names.
pub open spec fn edge_object(
    variant: serde_json::Value,
    variant_pk: serde_json::Value,
    id: Seq<char>,
    source: Seq<char>,
    target: Seq<char>,
    props: serde_json::Value,
) -> serde_json::Value {
    json_object(
        Map::empty().insert("variant"@, variant).insert("variant_pk"@, variant_pk).insert(
            "id"@,
            json_string(id),
        ).insert("source"@, json_string(source)).insert("target"@, json_string(target)).insert(
            "props"@,
            props,
        ),
    )
}

impl<EV: ToJson, PK: ToJson, T: ToJson> ToJson for Edge<EV, PK, T> {
    /// The object of the edge, or the failure of its first part that has no
    /// JSON form.
    open spec fn json(&self) -> Result<serde_json::Value, Seq<char>> {
        match parts_json(self.variant.json(), self.variant_pk.json(), self.props.json()) {
            Err(message) => Err(message),
            Ok((v, k, p)) => Ok(edge_object(v, k, self.id@, self.source@, self.target@, p)),
        }
    }

    fn to_json(&self) -> (result: Result<serde_json::Value, SerializationError>) {
        let variant = match self.variant.to_json() {
            Ok(value) => value,
            Err(error) => {
                return Err(error);
            },
        };
        let variant_pk = match self.variant_pk.to_json() {
            Ok(value) => value,
            Err(error) => {
                return Err(error);
            },
        };
        let props = match self.props.to_json() {
            Ok(value) => value,
            Err(error) => {
                return Err(error);
            },
        };
        let mut object = serde_json::Map::new();
        object.insert("variant".to_owned(), variant);
        object.insert("variant_pk".to_owned(), variant_pk);
        object.insert("id".to_owned(), string_value(self.id.clone()));
        object.insert("source".to_owned(), string_value(self.source.clone()));
        object.insert("target".to_owned(), string_value(self.target.clone()));
        object.insert("props".to_owned(), props);
        Ok(object_value(object))
    }
}

impl<EV: ToJson, PK: ToJson, T: ToJson> Edge<EV, PK, T> {
    /// Converts the edge to the JSON object that a graph stores for it.
    ///
    /// Fails where the variant, the primary key or the props have no JSON
    /// form, with the failure of the first of them that fails.
    pub fn to_edge_json(&self) -> (result: Result<serde_json::Value, SerializationError>)
        ensures
            outcome(result) == self.json(),
    {
        self.to_json()
    }
}

impl<EV: DisplayText, PK: DebugText, T> Edge<EV, PK, T> {
    /// Whether the edge has the given variant, primary key, ends and props,
    /// and, where `default_id` holds, the identifier formatted from the
    /// variant and the primary key.
    pub open spec fn holds(
        &self,
        variant: EV,
        variant_pk: PK,
        source: Seq<char>,
        target: Seq<char>,
        props: T,
        default_id: bool,
    ) -> bool {
        &&& self.variant == variant
        &&& self.variant_pk == variant_pk
        &&& self.source@ == source
        &&& self.target@ == target
        &&& self.props == props
        &&& default_id ==> self.id@ == record_id_text(
            variant.display_text(),
            variant_pk.debug_text(),
        )
    }
}

/// An entity that presents itself as an edge.
///
/// An implementor gives the variant, the primary key, the two ends and the
/// props. The identifier and the edge are provided. Each operation is a
/// function of the entity: the `spec_` functions say which. As provided they
/// are left open, and an implementor states them.
pub trait ToEdge<EV: DisplayText, PK: DebugText, T> {
    /// The variant of the entity.
    open spec fn spec_edge_variant(&self) -> EV {
        arbitrary()
    }

    /// The primary key of the entity.
    open spec fn spec_edge_pk(&self) -> PK {
        arbitrary()
    }

    /// The identifier of the node that the entity leaves.
    open spec fn spec_edge_source(&self) -> Seq<char> {
        arbitrary()
    }

    /// The identifier of the node that the entity reaches.
    open spec fn spec_edge_target(&self) -> Seq<char> {
        arbitrary()
    }

    /// The props of the entity.
    open spec fn spec_edge_props(&self) -> T {
        arbitrary()
    }

    /// Whether `edge_id` formats the identifier as the provided one does. An
    /// implementor that writes an `edge_id` with another format states
    /// `false` here.
    open spec fn default_edge_id(&self) -> bool {
        true
    }

    /// Returns the variant of the entity.
    fn edge_variant(&self) -> (variant: EV)
        ensures
            variant == self.spec_edge_variant(),
    ;

    /// Returns the primary key of the entity.
    fn edge_pk(&self) -> (pk: PK)
        ensures
            pk == self.spec_edge_pk(),
    ;

    /// Returns the identifier of the entity: as provided, the variant, the
    /// separator and the debug form of the primary key.
    fn edge_id(&self) -> (id: String)
        ensures
            self.default_edge_id() ==> id@ == record_id_text(
                self.spec_edge_variant().display_text(),
                self.spec_edge_pk().debug_text(),
            ),
    {
        let variant = self.edge_variant();
        let pk = self.edge_pk();
        record_id(&variant, &pk)
    }

    /// Returns the identifier of the node that the entity leaves.
    fn edge_source(&self) -> (source: String)
        ensures
            source@ == self.spec_edge_source(),
    ;

    /// Returns the identifier of the node that the entity reaches.
    fn edge_target(&self) -> (target: String)
        ensures
            target@ == self.spec_edge_target(),
    ;

    /// Returns the props of the entity.
    fn edge_props(&self) -> (props: T)
        ensures
            props == self.spec_edge_props(),
    ;

    /// Assembles the edge of the entity: its variant, primary key, ends and
    /// props, with the identifier that `edge_id` returns.
    fn to_edge(&self) -> (edge: Edge<EV, PK, T>)
        ensures
            edge.holds(
                self.spec_edge_variant(),
                self.spec_edge_pk(),
                self.spec_edge_source(),
                self.spec_edge_target(),
                self.spec_edge_props(),
                self.default_edge_id(),
            ),
            call_ensures(Self::edge_id, (self,), edge.id),
    {
        let variant = self.edge_variant();
        let variant_pk = self.edge_pk();
        let id = self.edge_id();
        let source = self.edge_source();
        let target = self.edge_target();
        let props = self.edge_props();
        Edge { variant, variant_pk, id, source, target, props }
    }
}

/// Whether the edge is the one of the entity: it has the entity's variant,
/// primary key, ends and props, and an identifier that the entity's
/// `edge_id` returns; where that is the provided one, the identifier
/// formatted from the variant and the primary key.
pub open spec fn edge_of<EV: DisplayText, PK: DebugText, T, E: ToEdge<EV, PK, T> + ?Sized>(
    entity: &E,
    edge: Edge<EV, PK, T>,
) -> bool {
    &&& edge.holds(
        entity.spec_edge_variant(),
        entity.spec_edge_pk(),
        entity.spec_edge_source(),
        entity.spec_edge_target(),
        entity.spec_edge_props(),
        entity.default_edge_id(),
    )
    &&& call_ensures(E::edge_id, (entity,), edge.id)
}

/// The JSON forms of the typed parts of the entity's edge, or the failure of
/// the first part that fails.
pub open spec fn edge_parts_json<
    EV: DisplayText + ToJson,
    PK: DebugText + ToJson,
    T: ToJson,
    E: ToEdge<EV, PK, T> + ?Sized,
>(entity: &E) -> Result<(serde_json::Value, serde_json::Value, serde_json::Value), Seq<char>> {
    parts_json(
        entity.spec_edge_variant().json(),
        entity.spec_edge_pk().json(),
        entity.spec_edge_props().json(),
    )
}

/// An entity that presents itself as an edge and as the JSON object of that
/// edge. Both operations are provided.
pub trait ToEdgeJSON<EV, PK, T>: ToEdge<EV, PK, T> where
    EV: DisplayText + ToJson,
    PK: DebugText + ToJson,
    T: ToJson,
 {
    /// Assembles the edge of the entity and converts it to JSON.
    ///
    /// Fails where a typed part of the edge has no JSON form, with the
    /// failure of the first part that fails.
    fn to_edge_and_json(&self) -> (result: Result<
        (Edge<EV, PK, T>, serde_json::Value),
        SerializationError,
    >)
        ensures
            match result {
                Ok((edge, json)) => edge_of(self, edge) && succeeds_with(edge.json(), json),
                Err(error) => fails_with(edge_parts_json(self), error@),
            },
    {
        let edge = self.to_edge();
        match edge.to_edge_json() {
            Ok(json) => Ok((edge, json)),
            Err(error) => Err(error),
        }
    }

    /// Converts the edge of the entity to JSON.
    ///
    /// Fails where a typed part of the edge has no JSON form, with the
    /// failure of the first part that fails.
    fn to_edge_json(&self) -> (result: Result<serde_json::Value, SerializationError>)
        ensures
            match result {
                Ok(json) => exists|edge: Edge<EV, PK, T>| #[trigger]
                    edge_of(self, edge) && succeeds_with(edge.json(), json),
                Err(error) => fails_with(edge_parts_json(self), error@),
            },
    {
        match self.to_edge_and_json() {
            Ok((edge, json)) => {
                assert(edge_of(self, edge));
                Ok(json)
            },
            Err(error) => Err(error),
        }
    }
}

} // verus!
