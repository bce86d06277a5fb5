use force_graph::Graph;
use force_graph::Records;
use force_graph::SerializationError;
use force_graph::ToGraph;
use force_graph::ToJson;
use force_graph::ToNode;
use force_graph::ToNodeJSON;
use force_graph::ZoomNode;

fn sorted(mut names: Vec<String>) -> Vec<String> {
    names.sort();
    names
}

#[derive(Debug, Clone)]
struct Props {
    since: u32,
    broken: bool,
}

impl Props {
    fn since(since: u32) -> Props {
        Props { since, broken: false }
    }

    fn broken() -> Props {
        Props { since: 0, broken: true }
    }
}

impl ToJson for Props {
    fn to_json(&self) -> Result<serde_json::Value, SerializationError> {
        if self.broken {
            return Err(SerializationError::new(String::from("props cannot be serialized")));
        }
        let mut object = serde_json::Map::new();
        object.insert(String::from("since"), serde_json::Value::from(self.since));
        Ok(serde_json::Value::Object(object))
    }
}

#[derive(Debug, Clone)]
struct Entity {
    variant: &'static str,
    pk: i32,
    name: &'static str,
    props: Props,
}

impl Entity {
    fn person(pk: i32, name: &'static str) -> Entity {
        Entity { variant: "person", pk, name, props: Props::since(pk as u32) }
    }

    fn broken(pk: i32, name: &'static str) -> Entity {
        Entity { variant: "person", pk, name, props: Props::broken() }
    }
}

impl ToNode<String, i32, Props> for Entity {
    fn node_variant(&self) -> String {
        String::from(self.variant)
    }

    fn node_pk(&self) -> i32 {
        self.pk
    }

    fn node_name(&self) -> String {
        String::from(self.name)
    }

    fn node_props(&self) -> Props {
        self.props.clone()
    }
}

impl ToNodeJSON<String, i32, Props> for Entity {}

fn knows() -> String {
    String::from("knows")
}

#[test]
fn new_graph_is_empty() {
    let graph = Graph::new();
    assert!(sorted(graph.nodes().collections()).is_empty());
    assert!(sorted(graph.edges().collections()).is_empty());
    let json = graph.to_json().unwrap();
    assert_eq!(json.as_object().unwrap().len(), 2);
    assert_eq!(json["nodes"], serde_json::Value::Object(serde_json::Map::new()));
    assert_eq!(json["edges"], serde_json::Value::Object(serde_json::Map::new()));
}

#[test]
fn added_node_is_found_under_variant_and_id() {
    let mut graph = Graph::new();
    let node = Entity::person(1, "Alice").to_node();
    graph.add_node(&node).unwrap();
    let stored = graph.nodes().get("person", "person|1").unwrap();
    assert_eq!(stored, &node.to_node_json().unwrap());
    assert_eq!(stored["name"], "Alice");
    assert_eq!(sorted(graph.nodes().collections()), vec![String::from("person")]);
    assert!(sorted(graph.edges().collections()).is_empty());
}

#[test]
fn add_node_from_returns_the_node() {
    let mut graph = Graph::new();
    let node = graph.add_node_from(&Entity::person(1, "Alice")).unwrap();
    assert_eq!(node.id, "person|1");
    assert_eq!(node.variant, "person");
    assert_eq!(node.variant_pk, 1);
    assert_eq!(node.name, "Alice");
    assert_eq!(graph.nodes().get("person", "person|1"), Some(&node.to_node_json().unwrap()));
}

#[test]
fn same_node_twice_is_one_entry_with_the_last_value() {
    let mut graph = Graph::new();
    graph.add_node_from(&Entity::person(1, "Alice")).unwrap();
    graph.add_node_from(&Entity::person(1, "Alice")).unwrap();
    assert_eq!(sorted(graph.nodes().ids("person")), vec![String::from("person|1")]);
    graph.add_node_from(&Entity::person(1, "Alicia")).unwrap();
    assert_eq!(sorted(graph.nodes().ids("person")), vec![String::from("person|1")]);
    assert_eq!(graph.nodes().get("person", "person|1").unwrap()["name"], "Alicia");
}

#[test]
fn nodes_of_two_variants_go_to_two_collections() {
    let mut graph = Graph::new();
    graph.add_node_from(&Entity::person(1, "Alice")).unwrap();
    let document = Entity { variant: "document", pk: 1, name: "Deed", props: Props::since(3) };
    graph.add_node_from(&document).unwrap();
    assert_eq!(
        sorted(graph.nodes().collections()),
        vec![String::from("document"), String::from("person")]
    );
    assert_eq!(graph.nodes().get("document", "document|1").unwrap()["name"], "Deed");
    assert_eq!(graph.nodes().get("person", "document|1"), None);
}

#[test]
fn alice_knows_bob() {
    let alice = Entity::person(1, "Alice");
    let bob = Entity::person(2, "Bob");
    let mut graph = Graph::new();
    let (source, edge, target) =
        graph.source_edge_target(&alice, &bob, knows(), Props::since(2020)).unwrap();
    assert_eq!(source.id, "person|1");
    assert_eq!(target.id, "person|2");
    assert_eq!(edge.id, "1|knows|2");
    assert_eq!(edge.variant, "knows");
    assert_eq!(edge.variant_pk, (1, 2));
    assert_eq!(edge.source, "person|1");
    assert_eq!(edge.target, "person|2");
    assert_eq!(edge.props.since, 2020);
    assert_eq!(
        sorted(graph.nodes().ids("person")),
        vec![String::from("person|1"), String::from("person|2")]
    );
    assert_eq!(sorted(graph.nodes().collections()), vec![String::from("person")]);
    assert_eq!(sorted(graph.edges().collections()), vec![String::from("knows")]);
    assert_eq!(sorted(graph.edges().ids("knows")), vec![String::from("1|knows|2")]);
    let stored = graph.edges().get("knows", "1|knows|2").unwrap();
    assert_eq!(stored["source"], "person|1");
    assert_eq!(stored["target"], "person|2");
    assert_eq!(stored["variant"], "knows");
    assert_eq!(stored["variant_pk"][0], 1);
    assert_eq!(stored["variant_pk"][1], 2);
    assert_eq!(stored["id"], "1|knows|2");
    assert_eq!(stored["props"]["since"], 2020);
    assert_eq!(graph.nodes().get("person", "person|1").unwrap()["name"], "Alice");
    assert_eq!(graph.nodes().get("person", "person|2").unwrap()["name"], "Bob");
}

#[test]
fn link_ends_are_the_ids_of_the_nodes_even_when_overridden() {
    struct Named(&'static str);
    impl ToNode<String, String, Props> for Named {
        fn node_variant(&self) -> String {
            String::from("named")
        }
        fn node_pk(&self) -> String {
            String::from(self.0)
        }
        fn node_id(&self) -> String {
            format!("named:{}", self.0)
        }
        fn node_name(&self) -> String {
            String::from(self.0)
        }
        fn node_props(&self) -> Props {
            Props::since(0)
        }
    }
    let mut graph = Graph::new();
    let (source, edge, target) =
        graph.source_edge_target(&Named("a"), &Entity::person(2, "Bob"), "likes", 5u8).unwrap();
    assert_eq!(source.id, "named:a");
    assert_eq!(edge.source, source.id);
    assert_eq!(edge.target, target.id);
    assert_eq!(edge.id, "\"a\"|likes|2");
    assert!(graph.nodes().get("named", "named:a").is_some());
    assert!(graph.nodes().get("person", "person|2").is_some());
    assert_eq!(graph.edges().get("likes", "\"a\"|likes|2").unwrap()["props"], 5);
}

#[test]
fn two_links_with_the_default_id_collide() {
    let alice = Entity::person(1, "Alice");
    let bob = Entity::person(2, "Bob");
    let mut graph = Graph::new();
    graph.source_edge_target(&alice, &bob, knows(), Props::since(2019)).unwrap();
    graph.source_edge_target(&alice, &bob, knows(), Props::since(2020)).unwrap();
    assert_eq!(sorted(graph.edges().ids("knows")), vec![String::from("1|knows|2")]);
    assert_eq!(graph.edges().get("knows", "1|knows|2").unwrap()["props"]["since"], 2020);
    assert_eq!(sorted(graph.nodes().ids("person")).len(), 2);
}

#[test]
fn links_that_differ_in_direction_or_variant_do_not_collide() {
    let alice = Entity::person(1, "Alice");
    let bob = Entity::person(2, "Bob");
    let mut graph = Graph::new();
    graph.source_edge_target(&alice, &bob, knows(), Props::since(1)).unwrap();
    graph.source_edge_target(&bob, &alice, knows(), Props::since(2)).unwrap();
    graph.source_edge_target(&alice, &bob, String::from("likes"), Props::since(3)).unwrap();
    assert_eq!(
        sorted(graph.edges().ids("knows")),
        vec![String::from("1|knows|2"), String::from("2|knows|1")]
    );
    assert_eq!(sorted(graph.edges().ids("likes")), vec![String::from("1|likes|2")]);
    assert_eq!(graph.edges().get("knows", "1|knows|2").unwrap()["props"]["since"], 1);
    assert_eq!(graph.edges().get("knows", "2|knows|1").unwrap()["props"]["since"], 2);
}

#[test]
fn link_of_an_entity_to_itself_leaves_one_node() {
    let alice = Entity::person(1, "Alice");
    let mut graph = Graph::new();
    let (_, edge, _) = graph.source_edge_target(&alice, &alice, knows(), 1u8).unwrap();
    assert_eq!(edge.id, "1|knows|1");
    assert_eq!(sorted(graph.nodes().ids("person")), vec![String::from("person|1")]);
    assert_eq!(sorted(graph.edges().ids("knows")), vec![String::from("1|knows|1")]);
}

#[test]
fn failed_add_node_leaves_the_graph_as_it_was() {
    let mut graph = Graph::new();
    graph.add_node_from(&Entity::person(1, "Alice")).unwrap();
    let node = Entity::broken(2, "Bob").to_node();
    let error = graph.add_node(&node).unwrap_err();
    assert_eq!(error.message, "props cannot be serialized");
    let error = graph.add_node_from(&Entity::broken(1, "Alicia")).unwrap_err();
    assert_eq!(error.message, "props cannot be serialized");
    assert_eq!(sorted(graph.nodes().ids("person")), vec![String::from("person|1")]);
    assert_eq!(graph.nodes().get("person", "person|1").unwrap()["name"], "Alice");
    assert_eq!(graph.nodes().get("person", "person|2"), None);
}

#[test]
fn link_that_fails_at_the_source_adds_nothing() {
    let mut graph = Graph::new();
    let error = graph
        .source_edge_target(
            &Entity::broken(1, "Alice"),
            &Entity::person(2, "Bob"),
            knows(),
            Props::since(1),
        )
        .unwrap_err();
    assert_eq!(error.message, "props cannot be serialized");
    assert!(sorted(graph.nodes().collections()).is_empty());
    assert!(sorted(graph.edges().collections()).is_empty());
}

#[test]
fn link_that_fails_at_the_edge_keeps_the_source_only() {
    let mut graph = Graph::new();
    let error = graph
        .source_edge_target(
            &Entity::person(1, "Alice"),
            &Entity::person(2, "Bob"),
            knows(),
            Props::broken(),
        )
        .unwrap_err();
    assert_eq!(error.message, "props cannot be serialized");
    assert_eq!(sorted(graph.nodes().ids("person")), vec![String::from("person|1")]);
    assert!(sorted(graph.edges().collections()).is_empty());
    assert_eq!(graph.edges().get("knows", "1|knows|2"), None);
}

#[test]
fn link_that_fails_at_the_target_keeps_source_and_edge() {
    let mut graph = Graph::new();
    let error = graph
        .source_edge_target(
            &Entity::person(1, "Alice"),
            &Entity::broken(2, "Bob"),
            knows(),
            Props::since(1),
        )
        .unwrap_err();
    assert_eq!(error.message, "props cannot be serialized");
    assert_eq!(sorted(graph.nodes().ids("person")), vec![String::from("person|1")]);
    assert_eq!(sorted(graph.edges().ids("knows")), vec![String::from("1|knows|2")]);
    assert_eq!(graph.nodes().get("person", "person|2"), None);
}

#[test]
fn graph_json_has_nodes_and_edges_by_variant_and_id() {
    let mut graph = Graph::new();
    graph
        .source_edge_target(
            &Entity::person(1, "Alice"),
            &Entity::person(2, "Bob"),
            knows(),
            Props::since(2020),
        )
        .unwrap();
    let json = graph.to_json().unwrap();
    let object = json.as_object().unwrap();
    assert_eq!(object.len(), 2);
    assert!(object.contains_key("nodes"));
    assert!(object.contains_key("edges"));
    assert_eq!(json["nodes"]["person"].as_object().unwrap().len(), 2);
    assert_eq!(json["nodes"]["person"]["person|1"]["name"], "Alice");
    assert_eq!(json["nodes"]["person"]["person|2"]["name"], "Bob");
    assert_eq!(json["edges"]["knows"].as_object().unwrap().len(), 1);
    assert_eq!(json["edges"]["knows"]["1|knows|2"]["source"], "person|1");
    assert_eq!(json["edges"]["knows"]["1|knows|2"]["target"], "person|2");
    assert_eq!(
        json["nodes"]["person"]["person|1"],
        Entity::person(1, "Alice").to_node().to_node_json().unwrap()
    );
}

struct Family {
    parent: Entity,
    children: Vec<Entity>,
}

impl ToGraph for Family {
    fn mut_graph(&self, graph: &mut Graph) -> Result<(), SerializationError> {
        graph.add_node_from(&self.parent)?;
        for child in &self.children {
            graph.source_edge_target(&self.parent, child, String::from("parent_of"), 0u8)?;
        }
        Ok(())
    }
}

impl ZoomNode<String, i32> for Family {
    fn zoom_to(&self) -> Option<(String, i32)> {
        Some((self.parent.node_variant(), self.parent.node_pk()))
    }
}

struct Nothing;

impl ToGraph for Nothing {
    fn mut_graph(&self, _graph: &mut Graph) -> Result<(), SerializationError> {
        Ok(())
    }
}

impl ZoomNode<String, i32> for Nothing {
    fn zoom_to(&self) -> Option<(String, i32)> {
        None
    }
}

#[test]
fn to_graph_builds_from_the_empty_graph() {
    let family = Family {
        parent: Entity::person(1, "Alice"),
        children: vec![Entity::person(2, "Bob"), Entity::person(3, "Carol")],
    };
    let graph = family.to_graph().unwrap();
    assert_eq!(sorted(graph.nodes().ids("person")).len(), 3);
    assert_eq!(
        sorted(graph.edges().ids("parent_of")),
        vec![String::from("1|parent_of|2"), String::from("1|parent_of|3")]
    );
    assert!(sorted(Nothing.to_graph().unwrap().nodes().collections()).is_empty());
}

#[test]
fn mut_graph_adds_to_what_is_there() {
    let mut graph = Graph::new();
    graph.add_node_from(&Entity::person(9, "Zed")).unwrap();
    let family = Family { parent: Entity::person(1, "Alice"), children: vec![] };
    family.mut_graph(&mut graph).unwrap();
    assert_eq!(
        sorted(graph.nodes().ids("person")),
        vec![String::from("person|1"), String::from("person|9")]
    );
}

#[test]
fn to_graph_fails_where_mut_graph_fails() {
    let family = Family {
        parent: Entity::person(1, "Alice"),
        children: vec![Entity::person(2, "Bob"), Entity::broken(3, "Carol")],
    };
    let error = match family.to_graph() {
        Ok(_) => panic!("a broken child must fail the graph"),
        Err(error) => error,
    };
    assert_eq!(error.message, "props cannot be serialized");
}

#[test]
fn zoom_id_is_the_id_of_the_node() {
    let family = Family { parent: Entity::person(1, "Alice"), children: vec![] };
    assert_eq!(family.zoom_to(), Some((String::from("person"), 1)));
    assert_eq!(family.zoom_to_id(), Some(String::from("person|1")));
    assert_eq!(family.zoom_to_id(), Some(family.parent.to_node().id));
    let graph = family.to_graph().unwrap();
    assert!(graph.nodes().get("person", &family.zoom_to_id().unwrap()).is_some());
    assert_eq!(Nothing.zoom_to_id(), None);
}

struct Bare(u8);

impl ToNode<String, u8, ()> for Bare {
    fn node_variant(&self) -> String {
        String::from("bare")
    }

    fn node_pk(&self) -> u8 {
        self.0
    }

    fn node_name(&self) -> String {
        format!("bare {}", self.0)
    }

    fn node_props(&self) -> () {}
}

impl ToNodeJSON<String, u8, ()> for Bare {}

#[test]
fn node_without_props_has_null_props() {
    let mut graph = Graph::new();
    let node = graph.add_node_from(&Bare(3)).unwrap();
    assert_eq!(node.id, "bare|3");
    let stored = graph.nodes().get("bare", "bare|3").unwrap();
    assert!(stored["props"].is_null());
    assert_eq!(stored["name"], "bare 3");
    assert_eq!(stored.as_object().unwrap().len(), 5);
}

fn copy(records: &Records) -> Records {
    let mut copied = Records::new();
    for name in records.collections() {
        for id in records.ids(&name) {
            let json = records.get(&name, &id).unwrap().clone();
            copied.insert(name.clone(), id, json);
        }
    }
    copied
}

#[test]
fn graph_from_its_records_is_the_same_graph() {
    let mut graph = Graph::new();
    graph
        .source_edge_target(
            &Entity::person(1, "Alice"),
            &Entity::person(2, "Bob"),
            knows(),
            Props::since(2020),
        )
        .unwrap();
    graph.add_node_from(&Bare(3)).unwrap();
    let again = Graph::from_records(copy(graph.nodes()), copy(graph.edges()));
    assert_eq!(again.to_json().unwrap(), graph.to_json().unwrap());
    assert_eq!(again.nodes().get("person", "person|2"), graph.nodes().get("person", "person|2"));
    assert_eq!(sorted(again.edges().ids("knows")), vec![String::from("1|knows|2")]);
    let empty = Graph::from_records(Records::new(), Records::new());
    assert_eq!(empty.to_json().unwrap(), Graph::new().to_json().unwrap());
}

#[test]
fn graph_from_records_takes_edges_as_they_are() {
    let mut edges = Records::new();
    edges.insert(String::from("knows"), String::from("1|knows|2"), serde_json::Value::Null);
    let graph = Graph::from_records(Records::new(), edges);
    assert!(graph.nodes().collections().is_empty());
    assert_eq!(graph.edges().get("knows", "1|knows|2"), Some(&serde_json::Value::Null));
}
