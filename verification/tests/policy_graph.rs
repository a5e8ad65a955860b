use pilota::AHashMap;
use pilota::FastStr;
use sinapis::policy::Decision;
use sinapis::policy::PolicyGraph;
use sinapis::schema::Assignment;
use sinapis::schema::NodeType;
use sinapis::schema::NodeTypeObject;
use sinapis::schema::VertexTypeObject;
use sinapis::status::Code;

fn bag(pairs: &[(&str, &str)]) -> AHashMap<FastStr, FastStr> {
    let mut bag = AHashMap::new();
    for (k, v) in pairs {
        bag.insert(FastStr::new(*k), FastStr::new(*v));
    }
    bag
}

fn node(kind: NodeType, name: &str) -> NodeTypeObject {
    NodeTypeObject::of(kind, name.to_string(), bag(&[("name", name)]))
}

fn add(graph: &mut PolicyGraph, kind: NodeType, name: &str) -> i64 {
    graph.create_node(node(kind, name)).unwrap() as i64
}

fn ops(list: &[&str]) -> Vec<String> {
    list.iter().map(|s| s.to_string()).collect()
}

const KINDS: [NodeType; 5] = [
    NodeType::User,
    NodeType::UserAttribute,
    NodeType::Object,
    NodeType::ObjectAttribute,
    NodeType::PolicyClass,
];

struct Setup {
    graph: PolicyGraph,
    user: i64,
    user_attribute: i64,
    object: i64,
    object_attribute: i64,
}

fn setup(class_of_users: &str, class_of_objects: &str, operations: &[&str]) -> Setup {
    let mut graph = PolicyGraph::new();
    let user = add(&mut graph, NodeType::User, "u");
    let user_attribute = add(&mut graph, NodeType::UserAttribute, "ua");
    let object = add(&mut graph, NodeType::Object, "o");
    let object_attribute = add(&mut graph, NodeType::ObjectAttribute, "oa");
    let first = add(&mut graph, NodeType::PolicyClass, class_of_users);
    let second = if class_of_objects == class_of_users {
        first
    } else {
        add(&mut graph, NodeType::PolicyClass, class_of_objects)
    };
    assert!(graph.assignment(Assignment::U2UA((user, user_attribute))).is_none());
    assert!(graph.assignment(Assignment::UA2PC((user_attribute, first))).is_none());
    assert!(graph.assignment(Assignment::O2OA((object, object_attribute))).is_none());
    assert!(graph.assignment(Assignment::OA2PC((object_attribute, second))).is_none());
    assert!(graph.association(user_attribute, object_attribute, ops(operations)).is_none());
    Setup { graph, user, user_attribute, object, object_attribute }
}

#[test]
fn a_second_node_of_one_name_is_refused() {
    for kind in KINDS {
        let mut graph = PolicyGraph::new();
        let first = graph.create_node(node(kind, "n"));
        assert_eq!(first.unwrap(), 0);
        let second = graph.create_node(node(kind, "n")).unwrap_err();
        assert_eq!(second.code, Code::AlreadyExists);
        let other =
            NodeTypeObject::of(kind, "n".to_string(), bag(&[("name", "n"), ("other", "bag")]));
        assert_eq!(graph.create_node(other).unwrap_err().code, Code::AlreadyExists);
        assert_eq!(graph.node_count(), 1);
        let nameless = NodeTypeObject::of(kind, "m".to_string(), bag(&[("other", "bag")]));
        assert_eq!(graph.create_node(nameless).unwrap(), 1);
        let found = graph.search_node(kind, Some("m"), None, bag(&[("name", "m")])).ok().unwrap();
        assert_eq!(found.bag().get("name").map(|v| v.to_string()), Some("m".to_string()));
        assert_eq!(found.bag().len(), 2);
        let misnamed = NodeTypeObject::of(kind, "k".to_string(), bag(&[("name", "n")]));
        assert_eq!(graph.create_node(misnamed).unwrap(), 2);
        let found = graph.search_node(kind, Some("k"), None, AHashMap::new()).ok().unwrap();
        assert_eq!(found.bag().get("name").map(|v| v.to_string()), Some("k".to_string()));
        let again = NodeTypeObject::of(kind, "m".to_string(), bag(&[("x", "y")]));
        assert_eq!(graph.create_node(again).unwrap_err().code, Code::AlreadyExists);
        assert_eq!(graph.node_count(), 3);
    }
}

#[test]
fn one_name_may_serve_two_kinds() {
    let mut graph = PolicyGraph::new();
    assert_eq!(graph.create_node(node(NodeType::User, "n")).unwrap(), 0);
    assert_eq!(graph.create_node(node(NodeType::Object, "n")).unwrap(), 1);
    assert_eq!(graph.create_node(node(NodeType::User, "m")).unwrap(), 2);
    assert_eq!(graph.node_count(), 3);
}

#[test]
fn a_node_without_properties_is_refused() {
    for kind in KINDS {
        let mut graph = PolicyGraph::new();
        let bare = NodeTypeObject::of(kind, "n".to_string(), AHashMap::new());
        let status = graph.create_node(bare).unwrap_err();
        assert_eq!(status.code, Code::InvalidArgument);
        assert_eq!(graph.node_count(), 0);
    }
}

#[test]
fn search_without_name_and_id_is_refused() {
    let mut graph = PolicyGraph::new();
    for kind in KINDS {
        add(&mut graph, kind, "n");
    }
    for kind in KINDS {
        let status = graph.search_node(kind, None, None, AHashMap::new()).err().unwrap();
        assert_eq!(status.code, Code::InvalidArgument);
        let status = graph.search_node(kind, None, None, bag(&[("name", "n")])).err().unwrap();
        assert_eq!(status.code, Code::InvalidArgument);
    }
    let status = graph.search_user_attribute_node(None, None, AHashMap::new()).err().unwrap();
    assert_eq!(status.code, Code::InvalidArgument);
}

#[test]
fn a_created_node_is_found_by_its_name() {
    for kind in KINDS {
        let mut graph = PolicyGraph::new();
        add(&mut graph, kind, "before");
        let id = graph
            .create_node(NodeTypeObject::of(
                kind,
                "n".to_string(),
                bag(&[("name", "n"), ("colour", "blue")]),
            ))
            .unwrap();
        add(&mut graph, kind, "after");
        let found = graph.search_node(kind, Some("n"), None, AHashMap::new()).ok().unwrap();
        assert_eq!(found.node_name(), "n");
        assert_eq!(found.id(), id);
        assert_eq!(found.node_type(), kind);
        assert_eq!(found.bag().get("colour").map(|v| v.to_string()), Some("blue".to_string()));
        assert_eq!(found.bag().len(), 2);
        let found = graph.search_node(kind, Some("n"), None, bag(&[("colour", "blue")]));
        assert_eq!(found.ok().unwrap().id(), id);
    }
}

#[test]
fn found_vertex_carries_the_label_of_its_kind() {
    let mut graph = PolicyGraph::new();
    add(&mut graph, NodeType::UserAttribute, "clinicians");
    match graph.search_node(NodeType::UserAttribute, Some("clinicians"), None, AHashMap::new()) {
        Ok(VertexTypeObject::UserAttribute(vertex)) => {
            assert_eq!(vertex.label(), "UserAttribute");
            assert_eq!(vertex.id(), 0);
            assert_eq!(vertex.properties().name, "clinicians");
        }
        _ => panic!("a user attribute was expected"),
    }
}

#[test]
fn search_by_id_and_by_both() {
    let mut graph = PolicyGraph::new();
    let a = add(&mut graph, NodeType::User, "a");
    let b = add(&mut graph, NodeType::User, "b");
    let found = graph.search_node(NodeType::User, None, Some(b), AHashMap::new()).ok().unwrap();
    assert_eq!(found.node_name(), "b");
    let found = graph.search_node(NodeType::User, Some("a"), Some(a), AHashMap::new()).ok().unwrap();
    assert_eq!(found.id() as i64, a);
    let missing = graph.search_node(NodeType::User, Some("a"), Some(b), AHashMap::new());
    assert_eq!(missing.err().unwrap().code, Code::NotFound);
    let missing = graph.search_node(NodeType::Object, None, Some(a), AHashMap::new());
    assert_eq!(missing.err().unwrap().code, Code::NotFound);
    let missing = graph.search_node(NodeType::User, None, Some(-1), AHashMap::new());
    assert_eq!(missing.err().unwrap().code, Code::NotFound);
    let missing = graph.search_node(NodeType::User, None, Some(2), AHashMap::new());
    assert_eq!(missing.err().unwrap().code, Code::NotFound);
}

#[test]
fn search_holds_the_node_to_every_property() {
    let mut graph = PolicyGraph::new();
    graph
        .create_node(NodeTypeObject::of(
            NodeType::User,
            "alice".to_string(),
            bag(&[("name", "alice"), ("email", "a@b.c"), ("phone", "1")]),
        ))
        .unwrap();
    let hit = graph.search_node(NodeType::User, Some("alice"), None, bag(&[("email", "a@b.c")]));
    assert!(hit.is_ok());
    let hit = graph.search_node(
        NodeType::User,
        Some("alice"),
        None,
        bag(&[("email", "a@b.c"), ("phone", "1")]),
    );
    assert!(hit.is_ok());
    let miss = graph.search_node(NodeType::User, Some("alice"), None, bag(&[("email", "x")]));
    assert_eq!(miss.err().unwrap().code, Code::NotFound);
    let miss = graph.search_node(NodeType::User, Some("alice"), None, bag(&[("fax", "1")]));
    assert_eq!(miss.err().unwrap().code, Code::NotFound);
    let miss = graph.search_node(NodeType::User, Some("alic"), None, AHashMap::new());
    assert_eq!(miss.err().unwrap().code, Code::NotFound);
}

#[test]
fn search_for_a_user_attribute() {
    let mut graph = PolicyGraph::new();
    add(&mut graph, NodeType::User, "clinicians");
    let id = add(&mut graph, NodeType::UserAttribute, "clinicians");
    let found = graph.search_user_attribute_node(None, Some("clinicians"), AHashMap::new());
    assert_eq!(found.ok().unwrap().id() as i64, id);
    let found = graph.search_user_attribute_node(Some(id), None, AHashMap::new()).ok().unwrap();
    assert_eq!(found.label(), "UserAttribute");
    assert_eq!(found.properties().name, "clinicians");
    assert!(found.properties().properties.contains_key("name"));
    let missing = graph.search_user_attribute_node(Some(0), None, AHashMap::new()).err().unwrap();
    assert_eq!(missing.code, Code::NotFound);
    assert_eq!(missing.message, "User attribute not found!");
    let missing = graph.search_node(NodeType::UserAttribute, None, Some(0), AHashMap::new());
    assert_eq!(missing.err().unwrap().message, "node not found!");
}

#[test]
fn assignment_needs_both_ends_of_the_right_kind() {
    let mut graph = PolicyGraph::new();
    let user = add(&mut graph, NodeType::User, "u");
    let attribute = add(&mut graph, NodeType::UserAttribute, "ua");
    assert!(graph.assignment(Assignment::U2UA((user, attribute))).is_none());
    let failure = graph.assignment(Assignment::U2UA((attribute, user))).unwrap();
    assert_eq!(failure.code, Code::NotFound);
    let failure = graph.assignment(Assignment::U2UA((user, 99))).unwrap();
    assert_eq!(failure.code, Code::NotFound);
    let failure = graph.assignment(Assignment::O2OA((user, attribute))).unwrap();
    assert_eq!(failure.code, Code::NotFound);
    let failure = graph.assignment(Assignment::UA2UA((-1, attribute))).unwrap();
    assert_eq!(failure.code, Code::NotFound);
    let failure = graph.association(attribute, attribute, ops(&["read"])).unwrap();
    assert_eq!(failure.code, Code::NotFound);
}

#[test]
fn a_shared_policy_class_grants() {
    let s = setup("pc", "pc", &["read"]);
    assert_eq!(s.graph.authorized(s.user, s.object, "read"), Decision::Granted);
}

#[test]
fn policy_classes_of_different_names_deny() {
    let s = setup("pc-users", "pc-objects", &["read"]);
    assert_eq!(s.graph.authorized(s.user, s.object, "read"), Decision::Denied);
}

#[test]
fn a_missing_operation_denies() {
    let s = setup("pc", "pc", &["write", "delete"]);
    assert_eq!(s.graph.authorized(s.user, s.object, "read"), Decision::Denied);
    assert_eq!(s.graph.authorized(s.user, s.object, "write"), Decision::Granted);
    let s = setup("pc", "pc", &[]);
    assert_eq!(s.graph.authorized(s.user, s.object, "read"), Decision::Denied);
    let s = setup("pc", "pc", &["Read", "rea", "read "]);
    assert_eq!(s.graph.authorized(s.user, s.object, "read"), Decision::Denied);
}

#[test]
fn the_subject_must_be_a_user_and_the_object_an_object() {
    let s = setup("pc", "pc", &["read"]);
    assert_eq!(s.graph.authorized(s.object, s.user, "read"), Decision::Denied);
    assert_eq!(s.graph.authorized(s.user_attribute, s.object, "read"), Decision::Denied);
    assert_eq!(s.graph.authorized(s.user, s.object_attribute, "read"), Decision::Denied);
    assert_eq!(s.graph.authorized(s.user, 1000, "read"), Decision::Denied);
    assert_eq!(s.graph.authorized(-5, s.object, "read"), Decision::Denied);
    assert_eq!(PolicyGraph::new().authorized(0, 0, "read"), Decision::Denied);
}

#[test]
fn paths_of_different_lengths_grant_alike() {
    let mut s = setup("pc", "pc", &["read"]);
    let lower = add(&mut s.graph, NodeType::UserAttribute, "juniors");
    let lowest = add(&mut s.graph, NodeType::UserAttribute, "trainees");
    let far = add(&mut s.graph, NodeType::User, "far");
    assert!(s.graph.assignment(Assignment::U2UA((far, lowest))).is_none());
    assert!(s.graph.assignment(Assignment::UA2UA((lowest, lower))).is_none());
    assert!(s.graph.assignment(Assignment::UA2UA((lower, s.user_attribute))).is_none());
    assert_eq!(s.graph.authorized(far, s.object, "read"), Decision::Granted);
    assert_eq!(s.graph.authorized(s.user, s.object, "read"), Decision::Granted);
    assert!(s.graph.assignment(Assignment::U2UA((far, s.user_attribute))).is_none());
    assert_eq!(s.graph.authorized(far, s.object, "read"), Decision::Granted);
    let deep = add(&mut s.graph, NodeType::Object, "deep");
    let folder = add(&mut s.graph, NodeType::ObjectAttribute, "folder");
    assert!(s.graph.assignment(Assignment::O2OA((deep, folder))).is_none());
    assert_eq!(s.graph.authorized(far, deep, "read"), Decision::Denied);
    assert!(s.graph.assignment(Assignment::OA2OA((folder, s.object_attribute))).is_none());
    assert_eq!(s.graph.authorized(far, deep, "read"), Decision::Granted);
    assert_eq!(s.graph.authorized(s.user, deep, "read"), Decision::Granted);
}

#[test]
fn a_user_outside_the_attribute_is_denied() {
    let mut s = setup("pc", "pc", &["read"]);
    let stranger = add(&mut s.graph, NodeType::User, "stranger");
    assert_eq!(s.graph.authorized(stranger, s.object, "read"), Decision::Denied);
    let elsewhere = add(&mut s.graph, NodeType::UserAttribute, "elsewhere");
    assert!(s.graph.assignment(Assignment::U2UA((stranger, elsewhere))).is_none());
    assert_eq!(s.graph.authorized(stranger, s.object, "read"), Decision::Denied);
    assert!(s.graph.assignment(Assignment::UA2UA((s.user_attribute, elsewhere))).is_none());
    assert_eq!(s.graph.authorized(stranger, s.object, "read"), Decision::Denied);
}

#[test]
fn assignments_in_a_circle_are_followed_once() {
    let mut s = setup("pc", "pc", &["read"]);
    let a = add(&mut s.graph, NodeType::UserAttribute, "a");
    let b = add(&mut s.graph, NodeType::UserAttribute, "b");
    let user = add(&mut s.graph, NodeType::User, "round");
    assert!(s.graph.assignment(Assignment::UA2UA((a, b))).is_none());
    assert!(s.graph.assignment(Assignment::UA2UA((b, a))).is_none());
    assert!(s.graph.assignment(Assignment::U2UA((user, a))).is_none());
    assert_eq!(s.graph.authorized(user, s.object, "read"), Decision::Denied);
    assert!(s.graph.assignment(Assignment::UA2UA((b, s.user_attribute))).is_none());
    assert_eq!(s.graph.authorized(user, s.object, "read"), Decision::Granted);
}

#[test]
fn the_policy_class_must_be_one_assignment_away() {
    let mut graph = PolicyGraph::new();
    let user = add(&mut graph, NodeType::User, "u");
    let low = add(&mut graph, NodeType::UserAttribute, "low");
    let high = add(&mut graph, NodeType::UserAttribute, "high");
    let object = add(&mut graph, NodeType::Object, "o");
    let shelf = add(&mut graph, NodeType::ObjectAttribute, "shelf");
    let class = add(&mut graph, NodeType::PolicyClass, "pc");
    assert!(graph.assignment(Assignment::U2UA((user, low))).is_none());
    assert!(graph.assignment(Assignment::UA2UA((low, high))).is_none());
    assert!(graph.assignment(Assignment::UA2PC((high, class))).is_none());
    assert!(graph.assignment(Assignment::O2OA((object, shelf))).is_none());
    assert!(graph.assignment(Assignment::OA2PC((shelf, class))).is_none());
    assert!(graph.association(low, shelf, ops(&["read"])).is_none());
    assert_eq!(graph.authorized(user, object, "read"), Decision::Denied);
    assert!(graph.association(high, shelf, ops(&["read"])).is_none());
    assert_eq!(graph.authorized(user, object, "read"), Decision::Granted);
}

#[test]
fn two_policy_classes_of_one_name_cannot_be() {
    let mut graph = PolicyGraph::new();
    add(&mut graph, NodeType::PolicyClass, "pc");
    let again = graph.create_node(node(NodeType::PolicyClass, "pc"));
    assert_eq!(again.unwrap_err().code, Code::AlreadyExists);
}

#[test]
fn clinicians_may_view_but_not_edit_medical_records() {
    let mut graph = PolicyGraph::new();
    let alice = add(&mut graph, NodeType::User, "alice");
    let clinicians = add(&mut graph, NodeType::UserAttribute, "clinicians");
    assert!(graph.assignment(Assignment::U2UA((alice, clinicians))).is_none());
    let chart7 = add(&mut graph, NodeType::Object, "chart-7");
    let records = add(&mut graph, NodeType::ObjectAttribute, "medical-records");
    assert!(graph.assignment(Assignment::O2OA((chart7, records))).is_none());
    let hospital = add(&mut graph, NodeType::PolicyClass, "hospital-a");
    assert!(graph.assignment(Assignment::UA2PC((clinicians, hospital))).is_none());
    assert!(graph.assignment(Assignment::OA2PC((records, hospital))).is_none());
    assert!(graph.association(clinicians, records, ops(&["view"])).is_none());
    assert_eq!(graph.authorized(alice, chart7, "view"), Decision::Granted);
    assert_eq!(graph.authorized(alice, chart7, "edit"), Decision::Denied);
}
