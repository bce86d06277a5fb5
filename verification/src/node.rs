//! Nodes, and the entities that present themselves as nodes.

use crate::json::fails_with;
use crate::json::json_object;
use crate::json::json_string;
use crate::json::object_value;
use crate::json::outcome;
use crate::json::string_value;
use crate::json::succeeds_with;
use crate::json::SerializationError;
use crate::json::ToJson;
use crate::text::record_id;
use crate::text::record_id_text;
use crate::text::DebugText;
use crate::text::DisplayText;
use vstd::prelude::*;

verus! {

/// One entity of a graph.
///
/// `NV` is the type of the variant, `PK` that of the primary key within the
/// variant, `T` that of the props of the variant.
#[derive(Clone, Debug)]
pub struct Node<NV, PK, T> {
    /// The kind of the node.
    pub variant: NV,
    /// The primary key within the variant.
    pub variant_pk: PK,
    /// The identifier of the node among all the nodes of a graph.
    pub id: String,
    /// The name shown for the node.
    pub name: String,
    /// What else the variant tells of the node.
    pub props: T,
}

/// The JSON forms of the three typed parts of a record, taken in the order
/// variant, primary key, props: all three, or the failure of the first part
/// that fails.
pub open spec fn parts_json(
    variant: Result<serde_json::Value, Seq<char>>,
    variant_pk: Result<serde_json::Value, Seq<char>>,
    props: Result<serde_json::Value, Seq<char>>,
) -> Result<(serde_json::Value, serde_json::Value, serde_json::Value), Seq<char>> {
    match variant {
        Err(message) => Err(message),
        Ok(v) => match variant_pk {
            Err(message) => Err(message),
            Ok(k) => match props {
                Err(message) => Err(message),
                Ok(p) => Ok((v, k, p)),
            },
        },
    }
}

/// The JSON object of a node: its five fields under their names.
pub open spec fn node_object(
    variant: serde_json::Value,
    variant_pk: serde_json::Value,
    id: Seq<char>,
    name: Seq<char>,
    props: serde_json::Value,
) -> serde_json::Value {
    json_object(
        Map::empty().insert("variant"@, variant).insert("variant_pk"@, variant_pk).insert(
            "id"@,
            json_string(id),
        ).insert("name"@, json_string(name)).insert("props"@, props),
    )
}

impl<NV: ToJson, PK: ToJson, T: ToJson> ToJson for Node<NV, PK, T> {
    /// The object of the node, or the failure of its first part that has no
    /// JSON form.
    open spec fn json(&self) -> Result<serde_json::Value, Seq<char>> {
        match parts_json(self.variant.json(), self.variant_pk.json(), self.props.json()) {
            Err(message) => Err(message),
            Ok((v, k, p)) => Ok(node_object(v, k, self.id@, self.name@, p)),
        }
    }

    fn to_json(&self) -> (result: Result<serde_json::Value, SerializationError>) {
        let variant = match self.variant.to_json() {
            Ok(value) => value,
            Err(error) => {
                return Err(error);
            },
        };
        let variant_pk = match self.variant_pk.to_json() {
            Ok(value) => value,
            Err(error) => {
                return Err(error);
            },
        };
        let props = match self.props.to_json() {
            Ok(value) => value,
            Err(error) => {
                return Err(error);
            },
        };
        let mut object = serde_json::Map::new();
        object.insert("variant".to_owned(), variant);
        object.insert("variant_pk".to_owned(), variant_pk);
        object.insert("id".to_owned(), string_value(self.id.clone()));
        object.insert("name".to_owned(), string_value(self.name.clone()));
        object.insert("props".to_owned(), props);
        Ok(object_value(object))
    }
}

impl<NV: ToJson, PK: ToJson, T: ToJson> Node<NV, PK, T> {
    /// Converts the node to the JSON object that a graph stores for it.
    ///
    /// Fails where the variant, the primary key or the props have no JSON
    /// form, with the failure of the first of them that fails.
    pub fn to_node_json(&self) -> (result: Result<serde_json::Value, SerializationError>)
        ensures
            outcome(result) == self.json(),
    {
        self.to_json()
    }
}

impl<NV: DisplayText, PK: DebugText, T> Node<NV, PK, T> {
    /// Whether the node has the given variant, primary key, name and props,
    /// and, where `default_id` holds, the identifier formatted from the
    /// variant and the primary key.
    pub open spec fn holds(
        &self,
        variant: NV,
        variant_pk: PK,
        name: Seq<char>,
        props: T,
        default_id: bool,
    ) -> bool {
        &&& self.variant == variant
        &&& self.variant_pk == variant_pk
        &&& self.name@ == name
        &&& self.props == props
        &&& default_id ==> self.id@ == record_id_text(
            variant.display_text(),
            variant_pk.debug_text(),
        )
    }
}

/// An entity that presents itself as a node.
///
/// An implementor gives the variant, the primary key, the name and the props.
/// The identifier and the node are provided. Each operation is a function of
/// the entity: the `spec_` functions say which. As provided they are left
/// open, and an implementor states them.
pub trait ToNode<NV: DisplayText, PK: DebugText, T> {
    /// The variant of the entity.
    open spec fn spec_node_variant(&self) -> NV {
        arbitrary()
    }

    /// The primary key of the entity.
    open spec fn spec_node_pk(&self) -> PK {
        arbitrary()
    }

    /// The name of the entity.
    open spec fn spec_node_name(&self) -> Seq<char> {
        arbitrary()
    }

    /// The props of the entity.
    open spec fn spec_node_props(&self) -> T {
        arbitrary()
    }

    /// Whether `node_id` formats the identifier as the provided one does. An
    /// implementor that writes a `node_id` with another format states
    /// `false` here.
    open spec fn default_node_id(&self) -> bool {
        true
    }

    /// Where a picture of the entity is found, if anywhere: as provided,
    /// nowhere. An implementor that writes a `node_image_url` of its own
    /// states here what it returns.
    open spec fn spec_node_image_url(&self) -> Option<Seq<char>> {
        None
    }

    /// What the entity adds to the label of an edge that leaves it, if
    /// anything: as provided, nothing. An implementor that writes an
    /// `edge_source_comment` of its own states here what it returns.
    open spec fn spec_edge_source_comment(&self) -> Option<Seq<char>> {
        None
    }

    /// What the entity adds to the label of an edge that reaches it, if
    /// anything: as provided, nothing. An implementor that writes an
    /// `edge_target_comment` of its own states here what it returns.
    open spec fn spec_edge_target_comment(&self) -> Option<Seq<char>> {
        None
    }

    /// Returns the variant of the entity.
    fn node_variant(&self) -> (variant: NV)
        ensures
            variant == self.spec_node_variant(),
    ;

    /// Returns the primary key of the entity.
    fn node_pk(&self) -> (pk: PK)
        ensures
            pk == self.spec_node_pk(),
    ;

    /// Returns the identifier of the entity: as provided, the variant, the
    /// separator and the debug form of the primary key.
    fn node_id(&self) -> (id: String)
        ensures
            self.default_node_id() ==> id@ == record_id_text(
                self.spec_node_variant().display_text(),
                self.spec_node_pk().debug_text(),
            ),
    {
        let variant = self.node_variant();
        let pk = self.node_pk();
        record_id(&variant, &pk)
    }

    /// Returns the name of the entity.
    fn node_name(&self) -> (name: String)
        ensures
            name@ == self.spec_node_name(),
    ;

    /// Returns where a picture of the entity is found, if anywhere: as
    /// provided, nowhere. What is returned is the entity's picture, and
    /// nothing is returned of an entity that has none.
    fn node_image_url(&self) -> (url: Option<String>)
        ensures
            self.spec_node_image_url() is None ==> url is None,
            url matches Some(text) ==> self.spec_node_image_url() == Some(text@),
    {
        None
    }

    /// Returns the props of the entity.
    fn node_props(&self) -> (props: T)
        ensures
            props == self.spec_node_props(),
    ;

    /// Assembles the node of the entity: its variant, primary key, name and
    /// props, with the identifier that `node_id` returns.
    fn to_node(&self) -> (node: Node<NV, PK, T>)
        ensures
            node.holds(
                self.spec_node_variant(),
                self.spec_node_pk(),
                self.spec_node_name(),
                self.spec_node_props(),
                self.default_node_id(),
            ),
            call_ensures(Self::node_id, (self,), node.id),
    {
        let variant = self.node_variant();
        let variant_pk = self.node_pk();
        let id = self.node_id();
        let name = self.node_name();
        let props = self.node_props();
        Node { variant, variant_pk, id, name, props }
    }

    /// Returns what the entity adds to the label of an edge that leaves it: as
    /// provided, nothing. What is returned is the entity's comment, and
    /// nothing is returned of an entity that has none. The library does not
    /// read it.
    fn edge_source_comment(&self) -> (comment: Option<String>)
        ensures
            self.spec_edge_source_comment() is None ==> comment is None,
            comment matches Some(text) ==> self.spec_edge_source_comment() == Some(text@),
    {
        None
    }

    /// Returns what the entity adds to the label of an edge that reaches it:
    /// as provided, nothing. What is returned is the entity's comment, and
    /// nothing is returned of an entity that has none. The library does not
    /// read it.
    fn edge_target_comment(&self) -> (comment: Option<String>)
        ensures
            self.spec_edge_target_comment() is None ==> comment is None,
            comment matches Some(text) ==> self.spec_edge_target_comment() == Some(text@),
    {
        None
    }
}

/// Whether the node is the one of the entity: it has the entity's variant,
/// primary key, name and props, and an identifier that the entity's
/// `node_id` returns; where that is the provided one, the identifier
/// formatted from the variant and the primary key.
pub open spec fn node_of<NV: DisplayText, PK: DebugText, T, E: ToNode<NV, PK, T> + ?Sized>(
    entity: &E,
    node: Node<NV, PK, T>,
) -> bool {
    &&& node.holds(
        entity.spec_node_variant(),
        entity.spec_node_pk(),
        entity.spec_node_name(),
        entity.spec_node_props(),
        entity.default_node_id(),
    )
    &&& call_ensures(E::node_id, (entity,), node.id)
}

/// The JSON forms of the typed parts of the entity's node, or the failure of
/// the first part that fails.
pub open spec fn node_parts_json<
    NV: DisplayText + ToJson,
    PK: DebugText + ToJson,
    T: ToJson,
    E: ToNode<NV, PK, T> + ?Sized,
>(entity: &E) -> Result<(serde_json::Value, serde_json::Value, serde_json::Value), Seq<char>> {
    parts_json(
        entity.spec_node_variant().json(),
        entity.spec_node_pk().json(),
        entity.spec_node_props().json(),
    )
}

/// An entity that presents itself as a node and as the JSON object of that
/// node. Both operations are provided.
pub trait ToNodeJSON<NV, PK, T>: ToNode<NV, PK, T> where
    NV: DisplayText + ToJson,
    PK: DebugText + ToJson,
    T: ToJson,
 {
    /// Assembles the node of the entity and converts it to JSON.
    ///
    /// Fails where a typed part of the node has no JSON form, with the
    /// failure of the first part that fails.
    fn to_node_and_json(&self) -> (result: Result<
        (Node<NV, PK, T>, serde_json::Value),
        SerializationError,
    >)
        ensures
            match result {
                Ok((node, json)) => node_of(self, node) && succeeds_with(node.json(), json),
                Err(error) => fails_with(node_parts_json(self), error@),
            },
    {
        let node = self.to_node();
        match node.to_node_json() {
            Ok(json) => Ok((node, json)),
            Err(error) => Err(error),
        }
    }

    /// Converts the node of the entity to JSON.
    ///
    /// Fails where a typed part of the node has no JSON form, with the
    /// failure of the first part that fails.
    fn to_node_json(&self) -> (result: Result<serde_json::Value, SerializationError>)
        ensures
            match result {
                Ok(json) => exists|node: Node<NV, PK, T>| #[trigger]
                    node_of(self, node) && succeeds_with(node.json(), json),
                Err(error) => fails_with(node_parts_json(self), error@),
            },
    {
        match self.to_node_and_json() {
            Ok((node, json)) => {
                assert(node_of(self, node));
                Ok(json)
            },
            Err(error) => Err(error),
        }
    }
}

} // verus!
