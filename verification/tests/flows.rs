use pilota::AHashMap;
use pilota::FastStr;
use sinapis::cypher::create_node_cypher;
use sinapis::flows::attribute_properties;
use sinapis::flows::handler_add_user;
use sinapis::flows::handler_add_user_attribute;
use sinapis::flows::handler_assignment_combination;
use sinapis::flows::handler_login;
use sinapis::flows::handler_search_user;
use sinapis::flows::handler_search_user_attribute;
use sinapis::flows::user_properties;
use sinapis::flows::Action;
use sinapis::flows::AddAttributeStage;
use sinapis::flows::AddUserAttributeRequest;
use sinapis::flows::AddUserStage;
use sinapis::flows::Event;
use sinapis::flows::Flow;
use sinapis::flows::LoginForm;
use sinapis::flows::LoginStage;
use sinapis::flows::OriginRecord;
use sinapis::flows::PrivateUserInfo;
use sinapis::flows::UserAttributeOriginNodeType;
use sinapis::flows::UserRecord;
use sinapis::schema::signed_id;
use sinapis::schema::Assignment;
use sinapis::schema::NodeType;
use sinapis::schema::NodeTypeObject;
use sinapis::schema::UserAttribute;
use sinapis::schema::Vertex;
use sinapis::schema::VertexTypeObject;
use sinapis::service::StoreError;
use sinapis::service::StoreFailure;
use sinapis::status::Code;
use sinapis::status::Status;

fn bag(pairs: &[(&str, &str)]) -> AHashMap<FastStr, FastStr> {
    let mut bag = AHashMap::new();
    for (k, v) in pairs {
        bag.insert(FastStr::new(*k), FastStr::new(*v));
    }
    bag
}

fn entries(bag: &AHashMap<FastStr, FastStr>) -> Vec<(String, String)> {
    let mut entries: Vec<(String, String)> =
        bag.iter().map(|(k, v)| (k.to_string(), v.to_string())).collect();
    entries.sort();
    entries
}

fn vertex(kind: NodeType, id: u64, name: &str) -> VertexTypeObject {
    VertexTypeObject::of(kind, id, kind.fmt_full(), name.to_string(), AHashMap::new())
}

fn request(origin: UserAttributeOriginNodeType) -> AddUserAttributeRequest {
    AddUserAttributeRequest {
        name: "clinicians".to_string(),
        properties: bag(&[("ward", "7")]),
        origin_id: 42,
        origin_node_type: origin,
    }
}

fn not_found() -> Status {
    Status::not_found("node not found!")
}

fn expect_search(
    action: Action,
    kind: NodeType,
    name: Option<&str>,
    id: Option<i64>,
    properties: &[(&str, &str)],
) {
    match action {
        Action::Search { node_type, name: n, id: i, properties: p } => {
            assert_eq!(node_type, kind);
            assert_eq!(n.as_deref(), name);
            assert_eq!(i, id);
            assert_eq!(entries(&p), entries(&bag(properties)));
        }
        _ => panic!("a search was expected"),
    }
}

fn expect_failure<S, R>(flow: Flow<S, R>, code: Code, message: &str) {
    match flow {
        Flow::Reply(Err(status)) => {
            assert_eq!(status.code, code);
            assert_eq!(status.message, message);
        }
        _ => panic!("a failure was expected"),
    }
}

#[test]
fn an_attribute_is_added_under_a_user() {
    let body = request(UserAttributeOriginNodeType::USER);
    let flow = handler_add_user_attribute(&body, AddAttributeStage::Checking, Event::Begin);
    let stage = match flow {
        Flow::Continue(stage, action) => {
            expect_search(
                action,
                NodeType::UserAttribute,
                Some("clinicians"),
                None,
                &[("name", "clinicians"), ("ward", "7")],
            );
            stage
        }
        _ => panic!("the flow goes on"),
    };
    let flow = handler_add_user_attribute(&body, stage, Event::Searched(Err(not_found())));
    let stage = match flow {
        Flow::Continue(stage, Action::FindOrigin(id)) => {
            assert_eq!(id, 42);
            stage
        }
        _ => panic!("the origin's record is looked up"),
    };
    let record = OriginRecord { id: 42, name: "alice".to_string() };
    let flow = handler_add_user_attribute(&body, stage, Event::Origin(Ok(Some(record))));
    let stage = match flow {
        Flow::Continue(stage, action) => {
            expect_search(action, NodeType::User, Some("alice"), Some(42), &[]);
            stage
        }
        _ => panic!("the origin's node is searched for"),
    };
    let flow = handler_add_user_attribute(
        &body,
        stage,
        Event::Searched(Ok(vertex(NodeType::User, 42, "alice"))),
    );
    let stage = match flow {
        Flow::Continue(stage, Action::Create(NodeTypeObject::UserAttribute(node))) => {
            assert_eq!(node.name, "clinicians");
            assert_eq!(
                entries(&node.properties),
                entries(&bag(&[("name", "clinicians"), ("ward", "7")]))
            );
            assert!(create_node_cypher(&NodeTypeObject::UserAttribute(node)).is_ok());
            stage
        }
        _ => panic!("the attribute is created"),
    };
    let flow = handler_add_user_attribute(&body, stage, Event::Created(None));
    let stage = match flow {
        Flow::Continue(stage, action) => {
            expect_search(
                action,
                NodeType::UserAttribute,
                Some("clinicians"),
                None,
                &[("name", "clinicians"), ("ward", "7")],
            );
            stage
        }
        _ => panic!("the attribute is read back"),
    };
    let flow = handler_add_user_attribute(
        &body,
        stage,
        Event::Searched(Ok(vertex(NodeType::UserAttribute, 77, "clinicians"))),
    );
    let stage = match flow {
        Flow::Continue(stage, Action::Assign(Assignment::U2UA(ends))) => {
            assert_eq!(ends, (42, 77));
            stage
        }
        _ => panic!("the attribute is assigned to the user"),
    };
    match handler_add_user_attribute(&body, stage, Event::Assigned(None)) {
        Flow::Reply(Ok(response)) => {
            assert_eq!(response.id, 77);
            let info = response.user_attribute.unwrap();
            assert_eq!(info.name, "clinicians");
            assert!(info.extra.is_empty());
        }
        _ => panic!("the flow replies"),
    }
}

#[test]
fn an_attribute_is_added_under_an_attribute() {
    let body = request(UserAttributeOriginNodeType::USER_ATTRIBUTE);
    let flow = handler_add_user_attribute(
        &body,
        AddAttributeStage::Checking,
        Event::Searched(Err(not_found())),
    );
    let stage = match flow {
        Flow::Continue(stage, action) => {
            expect_search(action, NodeType::UserAttribute, None, Some(42), &[]);
            stage
        }
        _ => panic!("the origin's node is searched for"),
    };
    let flow = handler_add_user_attribute(
        &body,
        stage,
        Event::Searched(Ok(vertex(NodeType::UserAttribute, 42, "staff"))),
    );
    let stage = match flow {
        Flow::Continue(stage, Action::Create(_)) => stage,
        _ => panic!("the attribute is created"),
    };
    let stage = match handler_add_user_attribute(&body, stage, Event::Created(None)) {
        Flow::Continue(stage, Action::Search { .. }) => stage,
        _ => panic!("the attribute is read back"),
    };
    let flow = handler_add_user_attribute(
        &body,
        stage,
        Event::Searched(Ok(vertex(NodeType::UserAttribute, 78, "clinicians"))),
    );
    match flow {
        Flow::Continue(_, Action::Assign(Assignment::UA2UA(ends))) => assert_eq!(ends, (42, 78)),
        _ => panic!("the attribute is assigned to the attribute"),
    }
}

#[test]
fn an_attribute_that_exists_is_not_added() {
    let body = request(UserAttributeOriginNodeType::USER);
    let flow = handler_add_user_attribute(
        &body,
        AddAttributeStage::Checking,
        Event::Searched(Ok(vertex(NodeType::UserAttribute, 5, "clinicians"))),
    );
    expect_failure(flow, Code::AlreadyExists, "user attribute: clinicians exists!");
    let flow = handler_add_user_attribute(
        &body,
        AddAttributeStage::Checking,
        Event::Searched(Ok(vertex(NodeType::User, 5, "clinicians"))),
    );
    expect_failure(flow, Code::Aborted, "node type error!");
}

#[test]
fn failures_end_the_addition() {
    let body = request(UserAttributeOriginNodeType::USER);
    let down = || Status::new(Code::Unavailable, "down");
    let flow = handler_add_user_attribute(
        &body,
        AddAttributeStage::Checking,
        Event::Searched(Err(down())),
    );
    expect_failure(flow, Code::Unavailable, "down");
    let flow = handler_add_user_attribute(&body, AddAttributeStage::Resolving, Event::Origin(Ok(None)));
    expect_failure(flow, Code::NotFound, "origin id: 42 not found");
    let flow = handler_add_user_attribute(
        &body,
        AddAttributeStage::Resolving,
        Event::Origin(Err(StoreError {
            failure: StoreFailure::Other,
            message: "sql".to_string(),
        })),
    );
    expect_failure(flow, Code::Internal, "sql");
    let flow = handler_add_user_attribute(
        &body,
        AddAttributeStage::Locating,
        Event::Searched(Err(not_found())),
    );
    expect_failure(flow, Code::NotFound, "node not found!");
    let flow = handler_add_user_attribute(
        &body,
        AddAttributeStage::Locating,
        Event::Searched(Ok(vertex(NodeType::UserAttribute, 42, "x"))),
    );
    expect_failure(flow, Code::Aborted, "node type error!");
    let flow = handler_add_user_attribute(
        &body,
        AddAttributeStage::Creating { origin: 42 },
        Event::Created(Some(Status::already_exists("dup"))),
    );
    expect_failure(flow, Code::AlreadyExists, "dup");
    let flow = handler_add_user_attribute(
        &body,
        AddAttributeStage::Confirming { origin: 42 },
        Event::Searched(Err(not_found())),
    );
    expect_failure(flow, Code::NotFound, "node not found!");
    let flow = handler_add_user_attribute(
        &body,
        AddAttributeStage::Confirming { origin: 42 },
        Event::Searched(Ok(vertex(NodeType::Object, 1, "x"))),
    );
    expect_failure(flow, Code::Aborted, "node type error!");
    let flow = handler_add_user_attribute(
        &body,
        AddAttributeStage::Assigning { id: 77, name: "clinicians".to_string() },
        Event::Assigned(Some(down())),
    );
    expect_failure(flow, Code::Unavailable, "down");
}

#[test]
fn an_answer_out_of_turn_fails_the_flow() {
    let body = request(UserAttributeOriginNodeType::USER);
    let flow = handler_add_user_attribute(&body, AddAttributeStage::Checking, Event::Created(None));
    expect_failure(flow, Code::Internal, "unexpected answer!");
    let flow = handler_add_user_attribute(&body, AddAttributeStage::Locating, Event::Begin);
    expect_failure(flow, Code::Internal, "unexpected answer!");
    let form = LoginForm { username: "alice".to_string(), password: "x".to_string() };
    let flow = handler_login(&form, LoginStage::Checking, Event::Begin);
    expect_failure(flow, Code::Internal, "unexpected answer!");
}

#[test]
fn the_assignment_follows_the_kind_of_the_origin() {
    let node = vertex(NodeType::UserAttribute, 9, "staff");
    match handler_assignment_combination(&node, 3, UserAttributeOriginNodeType::USER) {
        Ok(Assignment::U2UA(ends)) => assert_eq!(ends, (3, 9)),
        _ => panic!("a user is assigned to the attribute"),
    }
    match handler_assignment_combination(&node, 3, UserAttributeOriginNodeType::USER_ATTRIBUTE) {
        Ok(Assignment::UA2UA(ends)) => assert_eq!(ends, (3, 9)),
        _ => panic!("an attribute is assigned to the attribute"),
    }
    let other = vertex(NodeType::User, 9, "alice");
    match handler_assignment_combination(&other, 3, UserAttributeOriginNodeType::USER) {
        Err(status) => {
            assert_eq!(status.code, Code::Aborted);
            assert_eq!(status.message, "node type error!");
        }
        _ => panic!("a user is no attribute"),
    }
}

#[test]
fn store_identifiers_keep_their_bits() {
    assert_eq!(signed_id(0), 0);
    assert_eq!(signed_id(844424930131969), 844424930131969);
    assert_eq!(signed_id(u64::MAX), -1);
    assert_eq!(signed_id(1u64 << 63), i64::MIN);
}

fn user_request() -> PrivateUserInfo {
    PrivateUserInfo {
        name: "alice".to_string(),
        alias: Some("al".to_string()),
        email: None,
        phone: Some("123".to_string()),
        password: "secret".to_string(),
        extra: bag(&[("team", "blue")]),
    }
}

#[test]
fn the_properties_of_a_user() {
    let own = [("name", "alice"), ("team", "blue"), ("alias", "al"), ("email", ""), ("phone", "123")];
    let properties = user_properties(&user_request());
    assert_eq!(entries(&properties), entries(&bag(&own)));
    let mut overridden = user_request();
    overridden.extra = bag(&[("alias", "old"), ("team", "blue"), ("name", "other")]);
    assert_eq!(entries(&user_properties(&overridden)), entries(&bag(&own)));
}

#[test]
fn a_user_is_added() {
    let body = user_request();
    let own = [("name", "alice"), ("team", "blue"), ("alias", "al"), ("email", ""), ("phone", "123")];
    let stage = match handler_add_user(&body, AddUserStage::Checking, Event::Begin) {
        Flow::Continue(stage, action) => {
            expect_search(action, NodeType::User, Some("alice"), None, &own);
            stage
        }
        _ => panic!("the user is searched for"),
    };
    let stage = match handler_add_user(&body, stage, Event::Searched(Err(not_found()))) {
        Flow::Continue(stage, Action::Create(NodeTypeObject::User(node))) => {
            assert_eq!(node.name, "alice");
            assert_eq!(entries(&node.properties), entries(&bag(&own)));
            assert!(create_node_cypher(&NodeTypeObject::User(node)).is_ok());
            stage
        }
        _ => panic!("the user is created"),
    };
    let stage = match handler_add_user(&body, stage, Event::Created(None)) {
        Flow::Continue(stage, action) => {
            expect_search(action, NodeType::User, Some("alice"), None, &own);
            stage
        }
        _ => panic!("the user is read back"),
    };
    let found = Event::Searched(Ok(vertex(NodeType::User, 12, "alice")));
    let stage = match handler_add_user(&body, stage, found) {
        Flow::Continue(stage, Action::Record(id)) => {
            assert_eq!(id, 12);
            stage
        }
        _ => panic!("the user's record is written"),
    };
    match handler_add_user(&body, stage, Event::Recorded(Ok(()))) {
        Flow::Reply(Ok(response)) => {
            assert_eq!(response.id, 12);
            let user = response.user.unwrap();
            assert_eq!(user.name, "alice");
            assert_eq!(user.alias.as_deref(), Some("al"));
            assert_eq!(user.email, None);
            assert_eq!(user.phone.as_deref(), Some("123"));
            assert_eq!(entries(&user.extra), entries(&bag(&[("team", "blue")])));
        }
        _ => panic!("the flow replies"),
    }
}

#[test]
fn a_user_that_exists_is_not_added() {
    let body = user_request();
    let flow = handler_add_user(
        &body,
        AddUserStage::Checking,
        Event::Searched(Ok(vertex(NodeType::User, 1, "alice"))),
    );
    expect_failure(flow, Code::AlreadyExists, "user: alice exists!");
    let flow = handler_add_user(
        &body,
        AddUserStage::Checking,
        Event::Searched(Err(Status::new(Code::Internal, "boom"))),
    );
    expect_failure(flow, Code::Internal, "boom");
    let flow = handler_add_user(
        &body,
        AddUserStage::Creating,
        Event::Created(Some(Status::already_exists("dup"))),
    );
    expect_failure(flow, Code::AlreadyExists, "dup");
    let flow = handler_add_user(
        &body,
        AddUserStage::Confirming,
        Event::Searched(Ok(vertex(NodeType::Object, 1, "alice"))),
    );
    expect_failure(flow, Code::Aborted, "node type error!");
    let flow = handler_add_user(
        &body,
        AddUserStage::Confirming,
        Event::Searched(Err(not_found())),
    );
    expect_failure(flow, Code::NotFound, "node not found!");
    let flow = handler_add_user(
        &body,
        AddUserStage::Recording { id: 1 },
        Event::Recorded(Err(StoreError {
            failure: StoreFailure::Duplicate,
            message: "key".to_string(),
        })),
    );
    expect_failure(flow, Code::AlreadyExists, "key");
}

#[test]
fn a_login() {
    let form = LoginForm { username: "alice".to_string(), password: "secret".to_string() };
    let stage = match handler_login(&form, LoginStage::Searching, Event::Begin) {
        Flow::Continue(stage, action) => {
            expect_search(action, NodeType::User, Some("alice"), None, &[]);
            stage
        }
        _ => panic!("the user is searched for"),
    };
    let found = Event::Searched(Ok(vertex(NodeType::User, 12, "alice")));
    let stage = match handler_login(&form, stage, found) {
        Flow::Continue(stage, Action::CheckPassword(id)) => {
            assert_eq!(id, 12);
            stage
        }
        _ => panic!("the password is checked"),
    };
    match handler_login(&form, stage, Event::Password(Ok(Some(true)))) {
        Flow::Reply(Ok(logged)) => {
            assert_eq!(logged.access_token, "access_token");
            assert_eq!(logged.refresh_token, "refresh_token");
        }
        _ => panic!("the user is logged in"),
    }
}

#[test]
fn a_login_that_fails() {
    let form = LoginForm { username: "alice".to_string(), password: "secret".to_string() };
    let flow = handler_login(&form, LoginStage::Checking, Event::Password(Ok(Some(false))));
    expect_failure(flow, Code::Aborted, "password check fail!");
    let flow = handler_login(&form, LoginStage::Checking, Event::Password(Ok(None)));
    expect_failure(flow, Code::NotFound, "User not found!");
    let flow = handler_login(
        &form,
        LoginStage::Checking,
        Event::Password(Err(StoreError {
            failure: StoreFailure::Unreachable,
            message: "down".to_string(),
        })),
    );
    expect_failure(flow, Code::Unavailable, "down");
    let flow = handler_login(&form, LoginStage::Searching, Event::Searched(Err(not_found())));
    expect_failure(flow, Code::NotFound, "node not found!");
    let flow = handler_login(
        &form,
        LoginStage::Searching,
        Event::Searched(Ok(vertex(NodeType::UserAttribute, 1, "alice"))),
    );
    expect_failure(flow, Code::Aborted, "node type error!");
}

fn record(id: i64, name: &str) -> UserRecord {
    UserRecord {
        id,
        name: name.to_string(),
        alias: None,
        email: Some(format!("{}@example.org", name)),
        phone: None,
        extra: bag(&[("n", name)]),
    }
}

#[test]
fn users_are_listed_where_their_node_is_found() {
    let users = vec![
        (record(1, "a"), true),
        (record(2, "b"), false),
        (record(3, "c"), true),
        (record(4, "d"), true),
    ];
    let list = handler_search_user(&users).unwrap();
    assert_eq!(list.iter().map(|r| r.id).collect::<Vec<i64>>(), vec![1, 3, 4]);
    let third = list[1].user.as_ref().unwrap();
    assert_eq!(third.name, "c");
    assert_eq!(third.email.as_deref(), Some("c@example.org"));
    assert_eq!(third.alias, None);
    assert_eq!(entries(&third.extra), entries(&bag(&[("n", "c")])));
    let none = vec![(record(1, "a"), false), (record(2, "b"), false)];
    assert!(handler_search_user(&none).unwrap().is_empty());
}

#[test]
fn no_records_no_users() {
    let status = handler_search_user(&Vec::new()).err().unwrap();
    assert_eq!(status.code, Code::NotFound);
    assert_eq!(status.message, "User not found!");
}

#[test]
fn user_attributes_are_listed_as_found() {
    let found = vec![
        Vertex {
            id: 5,
            label: "UserAttribute".to_string(),
            properties: UserAttribute { name: "a".to_string(), properties: bag(&[("k", "v")]) },
        },
        Vertex {
            id: 6,
            label: "UserAttribute".to_string(),
            properties: UserAttribute { name: "b".to_string(), properties: AHashMap::new() },
        },
    ];
    let list = handler_search_user_attribute(Ok(found)).unwrap();
    assert_eq!(list.len(), 2);
    assert_eq!(list[0].id, 5);
    let first = list[0].user_attribute.as_ref().unwrap();
    assert_eq!(first.name, "a");
    assert_eq!(entries(&first.extra), entries(&bag(&[("k", "v")])));
    assert_eq!(list[1].id, 6);
    assert_eq!(list[1].user_attribute.as_ref().unwrap().name, "b");
    assert!(handler_search_user_attribute(Ok(Vec::new())).unwrap().is_empty());
    let status = handler_search_user_attribute(Err(Status::not_found("x"))).err().unwrap();
    assert_eq!(status.code, Code::NotFound);
    assert_eq!(status.message, "x");
}

#[test]
fn the_properties_of_an_attribute_hold_its_name() {
    let body = request(UserAttributeOriginNodeType::USER);
    assert_eq!(
        entries(&attribute_properties(&body)),
        entries(&bag(&[("name", "clinicians"), ("ward", "7")]))
    );
    let mut renamed = request(UserAttributeOriginNodeType::USER);
    renamed.properties = bag(&[("name", "other")]);
    assert_eq!(entries(&attribute_properties(&renamed)), entries(&bag(&[("name", "clinicians")])));
}
