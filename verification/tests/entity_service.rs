use pilota::AHashMap;
use pilota::FastStr;
use sinapis::policy::Decision;
use sinapis::schema::Assignment;
use sinapis::schema::NodeType;
use sinapis::schema::NodeTypeObject;
use sinapis::schema::VertexTypeObject;
use sinapis::service::assignment;
use sinapis::service::association;
use sinapis::service::assignment_between;
use sinapis::service::authorized;
use sinapis::service::create_node;
use sinapis::service::search_node;
use sinapis::service::search_user_attribute_node;
use sinapis::service::store_status;
use sinapis::service::AttributeSearchStep;
use sinapis::service::AuthorizedEvent;
use sinapis::service::AuthorizedStep;
use sinapis::service::CreateNodeEvent;
use sinapis::service::CreateNodeStep;
use sinapis::service::RunEvent;
use sinapis::service::RunStep;
use sinapis::service::SearchEvent;
use sinapis::service::SearchStep;
use sinapis::service::StoreError;
use sinapis::service::StoreFailure;
use sinapis::service::UNIQUE_INDEX_FIELD;
use sinapis::service::UNIQUE_INDEX_NAME;
use sinapis::status::Code;

fn bag(pairs: &[(&str, &str)]) -> AHashMap<FastStr, FastStr> {
    let mut bag = AHashMap::new();
    for (k, v) in pairs {
        bag.insert(FastStr::new(*k), FastStr::new(*v));
    }
    bag
}

fn failure(kind: StoreFailure, message: &str) -> StoreError {
    StoreError { failure: kind, message: message.to_string() }
}

fn vertex(kind: NodeType, id: u64, name: &str) -> VertexTypeObject {
    VertexTypeObject::of(kind, id, kind.fmt_full(), name.to_string(), bag(&[("name", name)]))
}

const KINDS: [NodeType; 5] = [
    NodeType::User,
    NodeType::UserAttribute,
    NodeType::Object,
    NodeType::ObjectAttribute,
    NodeType::PolicyClass,
];

#[test]
fn store_failures_keep_their_words() {
    let status = store_status(&failure(StoreFailure::Duplicate, "duplicate key"));
    assert_eq!(status.code, Code::AlreadyExists);
    assert_eq!(status.message, "duplicate key");
    let status = store_status(&failure(StoreFailure::Unreachable, "no route"));
    assert_eq!(status.code, Code::Unavailable);
    assert_eq!(status.message, "no route");
    let status = store_status(&failure(StoreFailure::Other, "syntax error"));
    assert_eq!(status.code, Code::Internal);
    assert_eq!(status.code(), Code::Internal);
}

#[test]
fn creation_indexes_then_writes() {
    assert_eq!(UNIQUE_INDEX_NAME, "unique_name");
    assert_eq!(UNIQUE_INDEX_FIELD, "name");
    let node = NodeTypeObject::of(NodeType::UserAttribute, "n".to_string(), bag(&[("name", "n")]));
    match create_node(&node, CreateNodeEvent::Begin) {
        CreateNodeStep::Index(label) => assert_eq!(label, "UserAttribute"),
        _ => panic!("the index comes first"),
    }
    match create_node(&node, CreateNodeEvent::Indexed) {
        CreateNodeStep::Run(query) => {
            assert_eq!(query, "CREATE (ua: UserAttribute { name: 'n' }) ")
        }
        _ => panic!("the query comes second"),
    }
    match create_node(&node, CreateNodeEvent::Created) {
        CreateNodeStep::Finish(None) => {}
        _ => panic!("the creation has succeeded"),
    }
}

#[test]
fn a_refused_duplicate_is_told_as_already_existing() {
    let node = NodeTypeObject::of(NodeType::User, "n".to_string(), bag(&[("name", "n")]));
    match create_node(&node, CreateNodeEvent::Failed(failure(StoreFailure::Duplicate, "dup"))) {
        CreateNodeStep::Finish(Some(status)) => {
            assert_eq!(status.code, Code::AlreadyExists);
            assert_eq!(status.message, "dup");
        }
        _ => panic!("the creation has failed"),
    }
    match create_node(&node, CreateNodeEvent::Failed(failure(StoreFailure::Unreachable, "down"))) {
        CreateNodeStep::Finish(Some(status)) => assert_eq!(status.code, Code::Unavailable),
        _ => panic!("the creation has failed"),
    }
}

#[test]
fn creation_without_properties_is_refused_at_once() {
    for kind in KINDS {
        let node = NodeTypeObject::of(kind, "n".to_string(), AHashMap::new());
        for event in [
            CreateNodeEvent::Begin,
            CreateNodeEvent::Indexed,
            CreateNodeEvent::Created,
            CreateNodeEvent::Failed(failure(StoreFailure::Other, "x")),
        ] {
            match create_node(&node, event) {
                CreateNodeStep::Finish(Some(status)) => {
                    assert_eq!(status.code, Code::InvalidArgument)
                }
                _ => panic!("a node needs a property"),
            }
        }
    }
}

#[test]
fn search_without_name_and_id_fails_for_every_kind() {
    for kind in KINDS {
        for event in [
            SearchEvent::Begin,
            SearchEvent::Found(None),
            SearchEvent::Found(Some(vertex(kind, 1, "n"))),
            SearchEvent::Failed(failure(StoreFailure::Other, "x")),
        ] {
            match search_node(kind, None, None, bag(&[("a", "b")]), event) {
                SearchStep::Finish(Err(status)) => {
                    assert_eq!(status.code, Code::InvalidArgument);
                    assert_eq!(status.message, "The name and ID cannot both be empty!");
                }
                _ => panic!("a search needs a name or an id"),
            }
        }
    }
}

#[test]
fn search_queries_then_reads_the_first_row() {
    match search_node(NodeType::User, Some("alice"), None, AHashMap::new(), SearchEvent::Begin) {
        SearchStep::Query(query) => {
            assert_eq!(query, "MATCH (u: User) WHERE u.name = 'alice' RETURN u")
        }
        _ => panic!("the query comes first"),
    }
    let row = SearchEvent::Found(Some(vertex(NodeType::User, 9, "alice")));
    match search_node(NodeType::User, Some("alice"), None, AHashMap::new(), row) {
        SearchStep::Finish(Ok(VertexTypeObject::User(found))) => {
            assert_eq!(found.id(), 9);
            assert_eq!(found.properties().name, "alice");
        }
        _ => panic!("the user was found"),
    }
}

#[test]
fn search_without_rows_is_not_found() {
    match search_node(NodeType::User, None, Some(1), AHashMap::new(), SearchEvent::Found(None)) {
        SearchStep::Finish(Err(status)) => {
            assert_eq!(status.code, Code::NotFound);
            assert_eq!(status.message, "node not found!");
        }
        _ => panic!("nothing was found"),
    }
    match search_user_attribute_node(Some(1), None, AHashMap::new(), SearchEvent::Found(None)) {
        AttributeSearchStep::Finish(Err(status)) => {
            assert_eq!(status.code, Code::NotFound);
            assert_eq!(status.message, "User attribute not found!");
        }
        _ => panic!("nothing was found"),
    }
}

#[test]
fn search_for_a_user_attribute_asks_for_that_kind() {
    match search_user_attribute_node(Some(4), Some("staff"), AHashMap::new(), SearchEvent::Begin) {
        AttributeSearchStep::Query(query) => assert_eq!(
            query,
            "MATCH (ua: UserAttribute { name: 'staff' }) WHERE id(ua) = 4 RETURN ua"
        ),
        _ => panic!("the query comes first"),
    }
    match search_user_attribute_node(None, None, AHashMap::new(), SearchEvent::Found(None)) {
        AttributeSearchStep::Finish(Err(status)) => {
            assert_eq!(status.code, Code::InvalidArgument)
        }
        _ => panic!("a search needs a name or an id"),
    }
    let row = SearchEvent::Found(Some(vertex(NodeType::UserAttribute, 4, "staff")));
    match search_user_attribute_node(Some(4), None, AHashMap::new(), row) {
        AttributeSearchStep::Finish(Ok(found)) => {
            assert_eq!(found.id(), 4);
            assert_eq!(found.properties().name, "staff");
        }
        _ => panic!("the attribute was found"),
    }
    let row = SearchEvent::Found(Some(vertex(NodeType::User, 4, "staff")));
    match search_user_attribute_node(Some(4), None, AHashMap::new(), row) {
        AttributeSearchStep::Finish(Err(status)) => {
            assert_eq!(status.code, Code::Aborted);
            assert_eq!(status.message, "node type error!");
        }
        _ => panic!("a user is no attribute"),
    }
    let down = SearchEvent::Failed(failure(StoreFailure::Unreachable, "down"));
    match search_user_attribute_node(Some(4), None, AHashMap::new(), down) {
        AttributeSearchStep::Finish(Err(status)) => assert_eq!(status.code, Code::Unavailable),
        _ => panic!("the store failed"),
    }
}

#[test]
fn a_row_of_another_kind_aborts_the_search() {
    let row = SearchEvent::Found(Some(vertex(NodeType::Object, 9, "alice")));
    match search_node(NodeType::User, Some("alice"), None, AHashMap::new(), row) {
        SearchStep::Finish(Err(status)) => {
            assert_eq!(status.code, Code::Aborted);
            assert_eq!(status.message, "node type error!");
        }
        _ => panic!("the kinds differ"),
    }
}

#[test]
fn a_failed_search_is_no_missing_node() {
    let event = SearchEvent::Failed(failure(StoreFailure::Unreachable, "connection refused"));
    match search_node(NodeType::User, Some("alice"), None, AHashMap::new(), event) {
        SearchStep::Finish(Err(status)) => {
            assert_eq!(status.code, Code::Unavailable);
            assert_eq!(status.message, "connection refused");
        }
        _ => panic!("the store failed"),
    }
}

#[test]
fn assignment_runs_one_query() {
    let edge = Assignment::OA2PC((7, 8));
    match assignment(&edge, RunEvent::Begin) {
        RunStep::Run(query) => assert_eq!(
            query,
            "MATCH (oa: ObjectAttribute), (pc: PolicyClass) WHERE id(oa) = 7 AND id(pc) = 8 CREATE (oa)-[r:Assignment]->(pc) RETURN r"
        ),
        _ => panic!("the query comes first"),
    }
    assert!(matches!(assignment(&edge, RunEvent::Done), RunStep::Finish(None)));
    match assignment(&edge, RunEvent::Failed(failure(StoreFailure::Other, "boom"))) {
        RunStep::Finish(Some(status)) => {
            assert_eq!(status.code, Code::Internal);
            assert_eq!(status.message, "boom");
        }
        _ => panic!("the store failed"),
    }
}

#[test]
fn a_row_grants_and_no_row_denies() {
    match authorized(3, 4, "read", AuthorizedEvent::Begin) {
        AuthorizedStep::Query(query) => {
            assert!(query.starts_with("MATCH path = (u: User)-[*]->(ua: UserAttribute)"));
            assert!(query.contains("WHERE id(u) = 3 AND id(o) = 4 AND 'read' IN r.ops"));
            assert!(query.contains("MATCH (ua)-[:Assignment]->(pc1: PolicyClass)"));
            assert!(query.ends_with("ORDER BY length(path) LIMIT 1"));
        }
        _ => panic!("the query comes first"),
    }
    match authorized(3, 4, "read", AuthorizedEvent::Rows(1)) {
        AuthorizedStep::Finish(Ok(decision)) => assert_eq!(decision, Decision::Granted),
        _ => panic!("a decision was made"),
    }
    match authorized(3, 4, "read", AuthorizedEvent::Rows(5)) {
        AuthorizedStep::Finish(Ok(decision)) => assert_eq!(decision, Decision::Granted),
        _ => panic!("a decision was made"),
    }
    match authorized(3, 4, "read", AuthorizedEvent::Rows(0)) {
        AuthorizedStep::Finish(Ok(decision)) => assert_eq!(decision, Decision::Denied),
        _ => panic!("a decision was made"),
    }
}

#[test]
fn a_failed_check_is_no_denial() {
    let event = AuthorizedEvent::Failed(failure(StoreFailure::Unreachable, "down"));
    match authorized(3, 4, "read", event) {
        AuthorizedStep::Finish(Err(status)) => {
            assert_eq!(status.code, Code::Unavailable);
            assert_eq!(status.message, "down");
        }
        _ => panic!("no decision could be made"),
    }
}

#[test]
fn only_seven_pairs_of_kinds_are_joined() {
    let mut allowed = 0;
    for origin in KINDS {
        for target in KINDS {
            match assignment_between(origin, 5, target, 6) {
                Ok(assignment) => {
                    allowed += 1;
                    assert_eq!(assignment.parts(), (origin, 5, target, 6));
                }
                Err(status) => {
                    assert_eq!(status.code, Code::InvalidArgument);
                    assert_eq!(status.message, "No assignment joins these kinds of node!");
                }
            }
        }
    }
    assert_eq!(allowed, 7);
    assert!(assignment_between(NodeType::User, 1, NodeType::UserAttribute, 2).is_ok());
    assert!(assignment_between(NodeType::User, 1, NodeType::PolicyClass, 2).is_err());
    assert!(assignment_between(NodeType::Object, 1, NodeType::UserAttribute, 2).is_err());
    assert!(assignment_between(NodeType::PolicyClass, 1, NodeType::PolicyClass, 2).is_err());
    assert!(assignment_between(NodeType::UserAttribute, 1, NodeType::User, 2).is_err());
}

#[test]
fn an_assignment_between_two_attributes_names_both() {
    match assignment(&Assignment::UA2UA((7, 8)), RunEvent::Begin) {
        RunStep::Run(query) => assert_eq!(
            query,
            "MATCH (ua: UserAttribute), (ua2: UserAttribute) WHERE id(ua) = 7 AND id(ua2) = 8 CREATE (ua)-[r:Assignment]->(ua2) RETURN r"
        ),
        _ => panic!("the query comes first"),
    }
}

#[test]
fn association_runs_one_query() {
    let operations = vec!["view".to_string(), "edit".to_string()];
    match association(3, 4, &operations, RunEvent::Begin) {
        RunStep::Run(query) => assert_eq!(
            query,
            "MATCH (ua: UserAttribute), (oa: ObjectAttribute) WHERE id(ua) = 3 AND id(oa) = 4 CREATE (ua)-[r:Association { ops: ['view', 'edit'] }]->(oa) RETURN r"
        ),
        _ => panic!("the query comes first"),
    }
    assert!(matches!(association(3, 4, &operations, RunEvent::Done), RunStep::Finish(None)));
    match association(3, 4, &operations, RunEvent::Failed(failure(StoreFailure::Unreachable, "x"))) {
        RunStep::Finish(Some(status)) => assert_eq!(status.code, Code::Unavailable),
        _ => panic!("the store failed"),
    }
}

#[test]
fn creation_writes_the_name_with_the_properties() {
    let node = NodeTypeObject::of(NodeType::User, "alice".to_string(), bag(&[("name", "other")]));
    match create_node(&node, CreateNodeEvent::Indexed) {
        CreateNodeStep::Run(query) => assert_eq!(query, "CREATE (u: User { name: 'alice' }) "),
        _ => panic!("the query comes second"),
    }
    let node = NodeTypeObject::of(NodeType::Object, "chart".to_string(), bag(&[("ward", "7")]));
    match create_node(&node, CreateNodeEvent::Indexed) {
        CreateNodeStep::Run(query) => assert!(
            query == "CREATE (o: Object { ward: '7', name: 'chart' }) "
                || query == "CREATE (o: Object { name: 'chart', ward: '7' }) ",
            "{}",
            query
        ),
        _ => panic!("the query comes second"),
    }
}

#[test]
fn a_key_that_may_not_stand_in_a_query_is_refused_at_once() {
    let node = NodeTypeObject::of(NodeType::User, "alice".to_string(), bag(&[("a b", "x")]));
    for event in [CreateNodeEvent::Begin, CreateNodeEvent::Indexed, CreateNodeEvent::Created] {
        match create_node(&node, event) {
            CreateNodeStep::Finish(Some(status)) => {
                assert_eq!(status.code, Code::InvalidArgument);
                assert_eq!(
                    status.message,
                    "A property key may hold letters, digits and underscores only!"
                );
            }
            _ => panic!("the key is refused"),
        }
    }
    for event in [SearchEvent::Begin, SearchEvent::Found(None)] {
        match search_node(NodeType::User, Some("n"), None, bag(&[("k'", "v")]), event) {
            SearchStep::Finish(Err(status)) => {
                assert_eq!(status.code, Code::InvalidArgument);
                assert_eq!(
                    status.message,
                    "A property key may hold letters, digits and underscores only!"
                );
            }
            _ => panic!("the key is refused"),
        }
    }
    match search_user_attribute_node(Some(1), None, bag(&[("", "v")]), SearchEvent::Begin) {
        AttributeSearchStep::Finish(Err(status)) => assert_eq!(status.code, Code::InvalidArgument),
        _ => panic!("the key is refused"),
    }
}

#[test]
fn a_name_stays_inside_its_literal() {
    match search_node(NodeType::User, Some("x' OR '1'='1"), None, AHashMap::new(), SearchEvent::Begin)
    {
        SearchStep::Query(query) => {
            assert_eq!(query, r"MATCH (u: User) WHERE u.name = 'x\' OR \'1\'=\'1' RETURN u")
        }
        _ => panic!("the query comes first"),
    }
}
