//! The flows of the entity service that take several steps: a user
//! attribute is created under a user or under another attribute, a user
//! is created, a user logs in, users and user attributes are listed.
//!
//! A flow is a function from the stage that it has reached and the
//! answer to its last request to its next request, or to its reply. The
//! steps of a flow are not one transaction: each stands for itself in
//! the store.

use crate::bag::bag_clone;
use crate::bag::bag_entries;
use crate::bag::bag_insert;
use crate::bag::bag_new;
use crate::bag::no_entries;
use crate::cypher::holds_name;
use crate::schema::signed_id;
use crate::schema::Assignment;
use crate::schema::NodeType;
use crate::schema::NodeTypeObject;
use crate::schema::UserAttribute;
use crate::schema::User;
use crate::schema::Vertex;
use crate::schema::VertexTypeObject;
use crate::service::reports;
use crate::service::store_status;
use crate::service::StoreError;
use crate::status::wrong_kind_text;
use crate::status::Code;
use crate::status::Status;
use crate::text::decimal_string;
use crate::text::name_view;
use crate::text::signed_decimal;
use crate::text::text_view;
use pilota::AHashMap;
use pilota::FastStr;
use vstd::prelude::*;

verus! {

/// Under what a new user attribute is placed.
#[allow(non_camel_case_types)]
#[derive(Clone, Copy, Debug, PartialEq, Eq, Structural)]
pub enum UserAttributeOriginNodeType {
    USER,
    USER_ATTRIBUTE,
}

/// The request for a new user attribute.
#[derive(Debug)]
pub struct AddUserAttributeRequest {
    pub name: String,
    pub properties: AHashMap<FastStr, FastStr>,
    pub origin_id: i64,
    pub origin_node_type: UserAttributeOriginNodeType,
}

/// What is told of a user attribute.
#[derive(Debug)]
pub struct UserAttributeInfo {
    pub name: String,
    pub extra: AHashMap<FastStr, FastStr>,
}

/// A user attribute with its identifier.
#[derive(Debug)]
pub struct UserAttributeResponse {
    pub id: i64,
    pub user_attribute: Option<UserAttributeInfo>,
}

/// The record of a user beside the graph: the identifier of the user's
/// node, and the user's name.
#[derive(Debug)]
pub struct OriginRecord {
    pub id: i64,
    pub name: String,
}

/// What a flow asks for.
#[derive(Debug)]
pub enum Action {
    /// Search for a node.
    Search {
        node_type: NodeType,
        name: Option<String>,
        id: Option<i64>,
        properties: AHashMap<FastStr, FastStr>,
    },
    /// Look up the record of the user with this identifier.
    FindOrigin(i64),
    /// Create this node.
    Create(NodeTypeObject),
    /// Write this assignment.
    Assign(Assignment),
    /// Write the record of the user whose node has this identifier.
    Record(i64),
    /// Look up the record of the user whose node has this identifier,
    /// and hold the password that was given against it.
    CheckPassword(i64),
}

/// The answer to what a flow asked for.
#[derive(Debug)]
pub enum Event {
    /// The flow begins.
    Begin,
    /// A search has ended.
    Searched(Result<VertexTypeObject, Status>),
    /// A user's record was looked up.
    Origin(Result<Option<OriginRecord>, StoreError>),
    /// The creation of a node has ended.
    Created(Option<Status>),
    /// The writing of an assignment has ended.
    Assigned(Option<Status>),
    /// A user's record was written, or not.
    Recorded(Result<(), StoreError>),
    /// A password was held against a user's record: whether it is the
    /// user's, or nothing where there is no record.
    Password(Result<Option<bool>, StoreError>),
}

/// What a flow does next: it goes on to a stage with a request, or it
/// ends with its reply.
#[derive(Debug)]
pub enum Flow<S, R> {
    Continue(S, Action),
    Reply(Result<R, Status>),
}

/// Whether `action` is the search for a node of `node_type` with the
/// given name, identifier and properties.
pub open spec fn is_search(
    action: Action,
    node_type: NodeType,
    name: Option<Seq<char>>,
    id: Option<i64>,
    entries: Map<Seq<char>, Seq<char>>,
) -> bool {
    action matches Action::Search { node_type: t, name: n, id: i, properties: p } && t
        == node_type && text_view(n) == name && i == id && bag_entries(p) == entries
}

/// Whether `action` is the creation of a node of `node_type` with the
/// given name and properties.
pub open spec fn is_create(
    action: Action,
    node_type: NodeType,
    name: Seq<char>,
    entries: Map<Seq<char>, Seq<char>>,
) -> bool {
    action matches Action::Create(node) && node.kind() == node_type && node.name() == name
        && bag_entries(node.properties()) == entries
}

/// Whether the flow ends with a failure of the given code and message.
pub open spec fn fails_with<S, R>(flow: Flow<S, R>, code: Code, message: Seq<char>) -> bool {
    flow matches Flow::Reply(Err(status)) && status.code == code && status.message@ == message
}

/// Whether the flow ends with the failure `status`.
pub open spec fn fails_as<S, R>(flow: Flow<S, R>, status: Status) -> bool {
    flow matches Flow::Reply(Err(s)) && s == status
}

/// Whether the flow ends with the report of a failure of the store.
pub open spec fn fails_by<S, R>(flow: Flow<S, R>, error: StoreError) -> bool {
    flow matches Flow::Reply(Err(status)) && reports(status, error)
}

/// The message of an answer that does not fit the stage of a flow.
pub open spec fn out_of_turn() -> Seq<char> {
    "unexpected answer!"@
}

/// The failure of a flow that was given an answer out of turn.
fn unexpected<S, R>() -> (r: Flow<S, R>)
    ensures
        fails_with(r, Code::Internal, out_of_turn()),
{
    Flow::Reply(Err(Status::new(Code::Internal, "unexpected answer!")))
}

/// The stages of the creation of a user attribute.
#[derive(Debug)]
pub enum AddAttributeStage {
    /// Is an attribute of this name there already?
    Checking,
    /// The record of the user under whom the attribute is placed is
    /// looked up.
    Resolving,
    /// The node under which the attribute is placed is looked for.
    Locating,
    /// The attribute is written.
    Creating { origin: i64 },
    /// The attribute is read back.
    Confirming { origin: i64 },
    /// The attribute is assigned to its origin.
    Assigning { id: i64, name: String },
}

/// The message of an attribute that is there already.
pub open spec fn attribute_exists(name: Seq<char>) -> Seq<char> {
    "user attribute: "@ + name + " exists!"@
}

/// The message of an origin that has no record.
pub open spec fn origin_missing(id: i64) -> Seq<char> {
    "origin id: "@ + signed_decimal(id as int) + " not found"@
}

/// The assignment of the attribute `id` to its origin: to a user, or to
/// another user attribute.
pub open spec fn origin_assignment(
    origin_node_type: UserAttributeOriginNodeType,
    origin: i64,
    id: i64,
) -> Assignment {
    match origin_node_type {
        UserAttributeOriginNodeType::USER => Assignment::U2UA((origin, id)),
        UserAttributeOriginNodeType::USER_ATTRIBUTE => Assignment::UA2UA((origin, id)),
    }
}

/// The kind of node that a new attribute is placed under.
pub open spec fn origin_kind(origin_node_type: UserAttributeOriginNodeType) -> NodeType {
    match origin_node_type {
        UserAttributeOriginNodeType::USER => NodeType::User,
        UserAttributeOriginNodeType::USER_ATTRIBUTE => NodeType::UserAttribute,
    }
}

/// The properties of a new user attribute: what the request gives, and
/// under `name` the attribute's name, by which the store keeps
/// attributes apart and finds them again.
pub open spec fn attribute_entries(body: AddUserAttributeRequest) -> Map<Seq<char>, Seq<char>> {
    bag_entries(body.properties).insert("name"@, body.name@)
}

/// The properties of a new user attribute.
pub fn attribute_properties(body: &AddUserAttributeRequest) -> (r: AHashMap<FastStr, FastStr>)
    ensures
        bag_entries(r) == attribute_entries(*body),
{
    let mut properties = bag_clone(&body.properties);
    bag_insert(&mut properties, "name", body.name.as_str());
    properties
}

/// What `handler_add_user_attribute` does at a stage with an answer.
///
/// 1. The attribute is searched for by its name and properties. Where
///    it is found the flow fails with `AlreadyExists`; where the search
///    fails otherwise than with `NotFound`, with that failure.
/// 2. The origin is found. Under a user, the user's record is looked up
///    by the origin's identifier, and the user's node is searched for by
///    the record's name and identifier; a missing record fails the flow
///    with `NotFound`. Under an attribute, the attribute's node is
///    searched for by the origin's identifier. A failed search fails the
///    flow.
/// 3. The attribute is created, and read back by its name and
///    properties.
/// 4. The attribute is assigned to its origin, and the flow replies with
///    the attribute's identifier and name.
///
/// A node of another kind than was searched for fails the flow with
/// `Aborted`, and an answer out of turn with `Internal`.
pub open spec fn add_user_attribute_flow(
    body: AddUserAttributeRequest,
    stage: AddAttributeStage,
    event: Event,
    flow: Flow<AddAttributeStage, UserAttributeResponse>,
) -> bool {
    let own = attribute_entries(body);
    match (stage, event) {
        (AddAttributeStage::Checking, Event::Begin) => flow matches Flow::Continue(
            AddAttributeStage::Checking,
            action,
        ) && is_search(action, NodeType::UserAttribute, Some(body.name@), None, own),
        (AddAttributeStage::Checking, Event::Searched(Ok(vertex))) => if vertex.kind()
            == NodeType::UserAttribute {
            fails_with(flow, Code::AlreadyExists, attribute_exists(vertex.name()))
        } else {
            fails_with(flow, Code::Aborted, wrong_kind_text())
        },
        (AddAttributeStage::Checking, Event::Searched(Err(status))) => if status.code
            != Code::NotFound {
            fails_as(flow, status)
        } else {
            match body.origin_node_type {
                UserAttributeOriginNodeType::USER => flow matches Flow::Continue(
                    AddAttributeStage::Resolving,
                    Action::FindOrigin(id),
                ) && id == body.origin_id,
                UserAttributeOriginNodeType::USER_ATTRIBUTE => flow matches Flow::Continue(
                    AddAttributeStage::Locating,
                    action,
                ) && is_search(
                    action,
                    NodeType::UserAttribute,
                    None,
                    Some(body.origin_id),
                    no_entries(),
                ),
            }
        },
        (AddAttributeStage::Resolving, Event::Origin(Ok(Some(origin)))) => flow matches Flow::Continue(
            AddAttributeStage::Locating,
            action,
        ) && is_search(action, NodeType::User, Some(origin.name@), Some(origin.id), no_entries()),
        (AddAttributeStage::Resolving, Event::Origin(Ok(None))) => fails_with(
            flow,
            Code::NotFound,
            origin_missing(body.origin_id),
        ),
        (AddAttributeStage::Resolving, Event::Origin(Err(error))) => fails_by(flow, error),
        (AddAttributeStage::Locating, Event::Searched(Ok(vertex))) => if vertex.kind()
            == origin_kind(body.origin_node_type) {
            flow matches Flow::Continue(AddAttributeStage::Creating { origin }, action) && origin
                == vertex.ident() as i64 && is_create(
                action,
                NodeType::UserAttribute,
                body.name@,
                own,
            )
        } else {
            fails_with(flow, Code::Aborted, wrong_kind_text())
        },
        (AddAttributeStage::Locating, Event::Searched(Err(status))) => fails_as(flow, status),
        (AddAttributeStage::Creating { origin }, Event::Created(None)) => flow matches Flow::Continue(
            AddAttributeStage::Confirming { origin: same },
            action,
        ) && same == origin && is_search(
            action,
            NodeType::UserAttribute,
            Some(body.name@),
            None,
            own,
        ),
        (AddAttributeStage::Creating { origin }, Event::Created(Some(status))) => fails_as(
            flow,
            status,
        ),
        (AddAttributeStage::Confirming { origin }, Event::Searched(Ok(vertex))) => if vertex.kind()
            == NodeType::UserAttribute {
            flow matches Flow::Continue(
                AddAttributeStage::Assigning { id, name },
                Action::Assign(assignment),
            ) && id == vertex.ident() as i64 && name@ == vertex.name() && assignment
                == origin_assignment(body.origin_node_type, origin, id)
        } else {
            fails_with(flow, Code::Aborted, wrong_kind_text())
        },
        (AddAttributeStage::Confirming { origin }, Event::Searched(Err(status))) => fails_as(
            flow,
            status,
        ),
        (AddAttributeStage::Assigning { id, name }, Event::Assigned(None)) => flow matches Flow::Reply(
            Ok(response),
        ) && tells_attribute(response, id, name@, no_entries()),
        (AddAttributeStage::Assigning { id, name }, Event::Assigned(Some(status))) => fails_as(
            flow,
            status,
        ),
        _ => fails_with(flow, Code::Internal, out_of_turn()),
    }
}

/// Whether `response` tells of the user attribute with the given
/// identifier, name and properties.
pub open spec fn tells_attribute(
    response: UserAttributeResponse,
    id: i64,
    name: Seq<char>,
    entries: Map<Seq<char>, Seq<char>>,
) -> bool {
    response.id == id && response.user_attribute is Some && response.user_attribute->0.name@
        == name && bag_entries(response.user_attribute->0.extra) == entries
}

/// The search for a node.
fn search(
    node_type: NodeType,
    name: Option<&str>,
    id: Option<i64>,
    properties: AHashMap<FastStr, FastStr>,
) -> (action: Action)
    ensures
        is_search(action, node_type, name_view(name), id, bag_entries(properties)),
{
    let name = match name {
        Some(name) => Some(String::from_str(name)),
        None => None,
    };
    Action::Search { node_type, name, id, properties }
}

/// The next step in the creation of a user attribute.
pub fn handler_add_user_attribute(
    body: &AddUserAttributeRequest,
    stage: AddAttributeStage,
    event: Event,
) -> (flow: Flow<AddAttributeStage, UserAttributeResponse>)
    ensures
        add_user_attribute_flow(*body, stage, event, flow),
{
    match (stage, event) {
        (AddAttributeStage::Checking, Event::Begin) => Flow::Continue(
            AddAttributeStage::Checking,
            search(
                NodeType::UserAttribute,
                Some(body.name.as_str()),
                None,
                attribute_properties(body),
            ),
        ),
        (AddAttributeStage::Checking, Event::Searched(Ok(vertex))) => {
            if vertex.node_type() == NodeType::UserAttribute {
                let mut message = String::from_str("user attribute: ");
                message.append(vertex.node_name().as_str());
                message.append(" exists!");
                Flow::Reply(Err(Status::already_exists(message.as_str())))
            } else {
                Flow::Reply(Err(Status::aborted("node type error!")))
            }
        },
        (AddAttributeStage::Checking, Event::Searched(Err(status))) => {
            if status.code() != Code::NotFound {
                Flow::Reply(Err(status))
            } else {
                match body.origin_node_type {
                    UserAttributeOriginNodeType::USER => Flow::Continue(
                        AddAttributeStage::Resolving,
                        Action::FindOrigin(body.origin_id),
                    ),
                    UserAttributeOriginNodeType::USER_ATTRIBUTE => Flow::Continue(
                        AddAttributeStage::Locating,
                        search(NodeType::UserAttribute, None, Some(body.origin_id), bag_new()),
                    ),
                }
            }
        },
        (AddAttributeStage::Resolving, Event::Origin(Ok(Some(origin)))) => Flow::Continue(
            AddAttributeStage::Locating,
            search(NodeType::User, Some(origin.name.as_str()), Some(origin.id), bag_new()),
        ),
        (AddAttributeStage::Resolving, Event::Origin(Ok(None))) => {
            let mut message = String::from_str("origin id: ");
            message.append(decimal_string(body.origin_id).as_str());
            message.append(" not found");
            Flow::Reply(Err(Status::not_found(message.as_str())))
        },
        (AddAttributeStage::Resolving, Event::Origin(Err(error))) => Flow::Reply(
            Err(store_status(&error)),
        ),
        (AddAttributeStage::Locating, Event::Searched(Ok(vertex))) => {
            let expected = match body.origin_node_type {
                UserAttributeOriginNodeType::USER => NodeType::User,
                UserAttributeOriginNodeType::USER_ATTRIBUTE => NodeType::UserAttribute,
            };
            if vertex.node_type() == expected {
                let node = NodeTypeObject::UserAttribute(
                    UserAttribute {
                        name: body.name.clone(),
                        properties: attribute_properties(body),
                    },
                );
                Flow::Continue(
                    AddAttributeStage::Creating { origin: signed_id(vertex.id()) },
                    Action::Create(node),
                )
            } else {
                Flow::Reply(Err(Status::aborted("node type error!")))
            }
        },
        (AddAttributeStage::Locating, Event::Searched(Err(status))) => Flow::Reply(Err(status)),
        (AddAttributeStage::Creating { origin }, Event::Created(None)) => Flow::Continue(
            AddAttributeStage::Confirming { origin },
            search(
                NodeType::UserAttribute,
                Some(body.name.as_str()),
                None,
                attribute_properties(body),
            ),
        ),
        (AddAttributeStage::Creating { origin }, Event::Created(Some(status))) => Flow::Reply(
            Err(status),
        ),
        (AddAttributeStage::Confirming { origin }, Event::Searched(Ok(vertex))) => {
            match handler_assignment_combination(&vertex, origin, body.origin_node_type) {
                Ok(assignment) => Flow::Continue(
                    AddAttributeStage::Assigning {
                        id: signed_id(vertex.id()),
                        name: vertex.node_name().clone(),
                    },
                    Action::Assign(assignment),
                ),
                Err(status) => Flow::Reply(Err(status)),
            }
        },
        (AddAttributeStage::Confirming { origin }, Event::Searched(Err(status))) => Flow::Reply(
            Err(status),
        ),
        (AddAttributeStage::Assigning { id, name }, Event::Assigned(None)) => Flow::Reply(
            Ok(
                UserAttributeResponse {
                    id,
                    user_attribute: Some(UserAttributeInfo { name, extra: bag_new() }),
                },
            ),
        ),
        (AddAttributeStage::Assigning { id, name }, Event::Assigned(Some(status))) => Flow::Reply(
            Err(status),
        ),
        _ => unexpected(),
    }
}

/// The assignment that places the user attribute `node` under its
/// origin: under a user, or under another user attribute. A node that
/// is no user attribute is refused with `Aborted`.
pub fn handler_assignment_combination(
    node: &VertexTypeObject,
    origin_id: i64,
    origin_node_type: UserAttributeOriginNodeType,
) -> (r: Result<Assignment, Status>)
    ensures
        match r {
            Ok(assignment) => node.kind() == NodeType::UserAttribute && assignment
                == origin_assignment(origin_node_type, origin_id, node.ident() as i64),
            Err(status) => node.kind() != NodeType::UserAttribute && status.code == Code::Aborted
                && status.message@ == wrong_kind_text(),
        },
{
    if node.node_type() == NodeType::UserAttribute {
        let id = signed_id(node.id());
        Ok(
            match origin_node_type {
                UserAttributeOriginNodeType::USER => Assignment::U2UA((origin_id, id)),
                UserAttributeOriginNodeType::USER_ATTRIBUTE => Assignment::UA2UA((origin_id, id)),
            },
        )
    } else {
        Err(Status::aborted("node type error!"))
    }
}

/// The request for a new user.
#[derive(Debug)]
pub struct PrivateUserInfo {
    pub name: String,
    pub alias: Option<String>,
    pub email: Option<String>,
    pub phone: Option<String>,
    pub password: String,
    pub extra: AHashMap<FastStr, FastStr>,
}

/// What is told of a user.
#[derive(Debug)]
pub struct UserInfo {
    pub name: String,
    pub alias: Option<String>,
    pub email: Option<String>,
    pub phone: Option<String>,
    pub extra: AHashMap<FastStr, FastStr>,
}

/// A user with the identifier of the user's node.
#[derive(Debug)]
pub struct UserResponse {
    pub id: i64,
    pub user: Option<UserInfo>,
}

/// The text of an optional field, empty where the field is missing.
pub open spec fn or_empty(field: Option<String>) -> Seq<char> {
    match field {
        Some(field) => field@,
        None => Seq::empty(),
    }
}

/// The properties of a user's node: what the request holds beside the
/// name; under `alias`, `email` and `phone` the fields of those names,
/// empty where they are missing; and under `name` the user's name, by
/// which the store keeps users apart and finds them again.
pub open spec fn user_entries(body: PrivateUserInfo) -> Map<Seq<char>, Seq<char>> {
    bag_entries(body.extra).insert("alias"@, or_empty(body.alias)).insert(
        "email"@,
        or_empty(body.email),
    ).insert("phone"@, or_empty(body.phone)).insert("name"@, body.name@)
}

/// The text of an optional field.
fn field_text(field: &Option<String>) -> (r: &str)
    ensures
        r@ == or_empty(*field),
{
    match field {
        Some(field) => field.as_str(),
        None => {
            proof {
                reveal_strlit("");
            }
            assert(""@ =~= Seq::<char>::empty());
            ""
        },
    }
}

/// The properties of a user's node.
pub fn user_properties(body: &PrivateUserInfo) -> (r: AHashMap<FastStr, FastStr>)
    ensures
        bag_entries(r) == user_entries(*body),
{
    let mut properties = bag_clone(&body.extra);
    bag_insert(&mut properties, "alias", field_text(&body.alias));
    bag_insert(&mut properties, "email", field_text(&body.email));
    bag_insert(&mut properties, "phone", field_text(&body.phone));
    bag_insert(&mut properties, "name", body.name.as_str());
    properties
}

/// The stages of the creation of a user.
#[derive(Debug)]
pub enum AddUserStage {
    /// Is a user of this name there already?
    Checking,
    /// The user's node is written.
    Creating,
    /// The user's node is read back.
    Confirming,
    /// The user's record is written.
    Recording { id: i64 },
}

/// The message of a user that is there already.
pub open spec fn user_exists(name: Seq<char>) -> Seq<char> {
    "user: "@ + name + " exists!"@
}

/// Whether `response` tells of the user of the request `body` under the
/// identifier `id`.
pub open spec fn tells_user(response: UserResponse, id: i64, body: PrivateUserInfo) -> bool {
    &&& response.id == id
    &&& response.user is Some
    &&& response.user->0.name@ == body.name@
    &&& text_view(response.user->0.alias) == text_view(body.alias)
    &&& text_view(response.user->0.email) == text_view(body.email)
    &&& text_view(response.user->0.phone) == text_view(body.phone)
    &&& bag_entries(response.user->0.extra) == bag_entries(body.extra)
}

/// What `handler_add_user` does at a stage with an answer.
///
/// 1. The user is searched for by name and properties. Where a node is
///    found the flow fails with `AlreadyExists`; where the search fails
///    otherwise than with `NotFound`, with that failure.
/// 2. The user's node is created, and read back by name and properties.
/// 3. The user's record is written under the identifier of the node,
///    and the flow replies with that identifier and what the request
///    told of the user.
///
/// A node that is no user fails the flow with `Aborted`, and an answer
/// out of turn with `Internal`.
pub open spec fn add_user_flow(
    body: PrivateUserInfo,
    stage: AddUserStage,
    event: Event,
    flow: Flow<AddUserStage, UserResponse>,
) -> bool {
    let own = user_entries(body);
    match (stage, event) {
        (AddUserStage::Checking, Event::Begin) => flow matches Flow::Continue(
            AddUserStage::Checking,
            action,
        ) && is_search(action, NodeType::User, Some(body.name@), None, own),
        (AddUserStage::Checking, Event::Searched(Ok(_))) => fails_with(
            flow,
            Code::AlreadyExists,
            user_exists(body.name@),
        ),
        (AddUserStage::Checking, Event::Searched(Err(status))) => if status.code
            != Code::NotFound {
            fails_as(flow, status)
        } else {
            flow matches Flow::Continue(AddUserStage::Creating, action) && is_create(
                action,
                NodeType::User,
                body.name@,
                own,
            )
        },
        (AddUserStage::Creating, Event::Created(None)) => flow matches Flow::Continue(
            AddUserStage::Confirming,
            action,
        ) && is_search(action, NodeType::User, Some(body.name@), None, own),
        (AddUserStage::Creating, Event::Created(Some(status))) => fails_as(flow, status),
        (AddUserStage::Confirming, Event::Searched(Ok(vertex))) => if vertex.kind()
            == NodeType::User {
            flow matches Flow::Continue(AddUserStage::Recording { id }, Action::Record(same))
                && id == vertex.ident() as i64 && same == id
        } else {
            fails_with(flow, Code::Aborted, wrong_kind_text())
        },
        (AddUserStage::Confirming, Event::Searched(Err(status))) => fails_as(flow, status),
        (AddUserStage::Recording { id }, Event::Recorded(Ok(_))) => flow matches Flow::Reply(
            Ok(response),
        ) && tells_user(response, id, body),
        (AddUserStage::Recording { id }, Event::Recorded(Err(error))) => fails_by(flow, error),
        _ => fails_with(flow, Code::Internal, out_of_turn()),
    }
}

/// A copy of an optional field.
fn field_copy(field: &Option<String>) -> (r: Option<String>)
    ensures
        text_view(r) == text_view(*field),
{
    match field {
        Some(field) => Some(field.clone()),
        None => None,
    }
}

/// The next step in the creation of a user.
pub fn handler_add_user(body: &PrivateUserInfo, stage: AddUserStage, event: Event) -> (flow: Flow<
    AddUserStage,
    UserResponse,
>)
    ensures
        add_user_flow(*body, stage, event, flow),
{
    match (stage, event) {
        (AddUserStage::Checking, Event::Begin) => Flow::Continue(
            AddUserStage::Checking,
            search(NodeType::User, Some(body.name.as_str()), None, user_properties(body)),
        ),
        (AddUserStage::Checking, Event::Searched(Ok(_))) => {
            let mut message = String::from_str("user: ");
            message.append(body.name.as_str());
            message.append(" exists!");
            Flow::Reply(Err(Status::already_exists(message.as_str())))
        },
        (AddUserStage::Checking, Event::Searched(Err(status))) => {
            if status.code() != Code::NotFound {
                Flow::Reply(Err(status))
            } else {
                let node = NodeTypeObject::User(
                    User { name: body.name.clone(), properties: user_properties(body) },
                );
                Flow::Continue(AddUserStage::Creating, Action::Create(node))
            }
        },
        (AddUserStage::Creating, Event::Created(None)) => Flow::Continue(
            AddUserStage::Confirming,
            search(NodeType::User, Some(body.name.as_str()), None, user_properties(body)),
        ),
        (AddUserStage::Creating, Event::Created(Some(status))) => Flow::Reply(Err(status)),
        (AddUserStage::Confirming, Event::Searched(Ok(vertex))) => {
            if vertex.node_type() == NodeType::User {
                let id = signed_id(vertex.id());
                Flow::Continue(AddUserStage::Recording { id }, Action::Record(id))
            } else {
                Flow::Reply(Err(Status::aborted("node type error!")))
            }
        },
        (AddUserStage::Confirming, Event::Searched(Err(status))) => Flow::Reply(Err(status)),
        (AddUserStage::Recording { id }, Event::Recorded(Ok(_))) => Flow::Reply(
            Ok(
                UserResponse {
                    id,
                    user: Some(
                        UserInfo {
                            name: body.name.clone(),
                            alias: field_copy(&body.alias),
                            email: field_copy(&body.email),
                            phone: field_copy(&body.phone),
                            extra: bag_clone(&body.extra),
                        },
                    ),
                },
            ),
        ),
        (AddUserStage::Recording { id }, Event::Recorded(Err(error))) => Flow::Reply(
            Err(store_status(&error)),
        ),
        _ => unexpected(),
    }
}

/// The request to log in.
#[derive(Debug)]
pub struct LoginForm {
    pub username: String,
    pub password: String,
}

/// The tokens of a user who has logged in.
#[derive(Debug)]
pub struct Logged {
    pub access_token: String,
    pub refresh_token: String,
}

/// The stages of a login.
#[derive(Debug)]
pub enum LoginStage {
    /// The user's node is searched for.
    Searching,
    /// The password is held against the user's record.
    Checking,
}

/// The message of a password that is not the user's.
pub open spec fn password_refused() -> Seq<char> {
    "password check fail!"@
}

/// The message of a user without a record.
pub open spec fn no_user() -> Seq<char> {
    "User not found!"@
}

/// What `handler_login` does at a stage with an answer.
///
/// The user's node is searched for by the name given. The password is
/// then held against the record of the user with the node's identifier.
/// The flow replies with the tokens where the password is the user's;
/// it fails with `Aborted` where it is not, and with `NotFound` where
/// the user has no record. A failed search fails the flow, a node that
/// is no user fails it with `Aborted`, and an answer out of turn with
/// `Internal`.
pub open spec fn login_flow(
    body: LoginForm,
    stage: LoginStage,
    event: Event,
    flow: Flow<LoginStage, Logged>,
) -> bool {
    match (stage, event) {
        (LoginStage::Searching, Event::Begin) => flow matches Flow::Continue(
            LoginStage::Searching,
            action,
        ) && is_search(action, NodeType::User, Some(body.username@), None, no_entries()),
        (LoginStage::Searching, Event::Searched(Ok(vertex))) => if vertex.kind()
            == NodeType::User {
            flow matches Flow::Continue(LoginStage::Checking, Action::CheckPassword(id)) && id
                == vertex.ident() as i64
        } else {
            fails_with(flow, Code::Aborted, wrong_kind_text())
        },
        (LoginStage::Searching, Event::Searched(Err(status))) => fails_as(flow, status),
        (LoginStage::Checking, Event::Password(Ok(Some(true)))) => flow matches Flow::Reply(
            Ok(logged),
        ) && logged.access_token@ == "access_token"@ && logged.refresh_token@
            == "refresh_token"@,
        (LoginStage::Checking, Event::Password(Ok(Some(false)))) => fails_with(
            flow,
            Code::Aborted,
            password_refused(),
        ),
        (LoginStage::Checking, Event::Password(Ok(None))) => fails_with(
            flow,
            Code::NotFound,
            no_user(),
        ),
        (LoginStage::Checking, Event::Password(Err(error))) => fails_by(flow, error),
        _ => fails_with(flow, Code::Internal, out_of_turn()),
    }
}

/// The next step in a login.
pub fn handler_login(body: &LoginForm, stage: LoginStage, event: Event) -> (flow: Flow<
    LoginStage,
    Logged,
>)
    ensures
        login_flow(*body, stage, event, flow),
{
    match (stage, event) {
        (LoginStage::Searching, Event::Begin) => Flow::Continue(
            LoginStage::Searching,
            search(NodeType::User, Some(body.username.as_str()), None, bag_new()),
        ),
        (LoginStage::Searching, Event::Searched(Ok(vertex))) => {
            if vertex.node_type() == NodeType::User {
                Flow::Continue(LoginStage::Checking, Action::CheckPassword(signed_id(vertex.id())))
            } else {
                Flow::Reply(Err(Status::aborted("node type error!")))
            }
        },
        (LoginStage::Searching, Event::Searched(Err(status))) => Flow::Reply(Err(status)),
        (LoginStage::Checking, Event::Password(Ok(Some(matches)))) => {
            if matches {
                Flow::Reply(
                    Ok(
                        Logged {
                            access_token: String::from_str("access_token"),
                            refresh_token: String::from_str("refresh_token"),
                        },
                    ),
                )
            } else {
                Flow::Reply(Err(Status::aborted("password check fail!")))
            }
        },
        (LoginStage::Checking, Event::Password(Ok(None))) => Flow::Reply(
            Err(Status::not_found("User not found!")),
        ),
        (LoginStage::Checking, Event::Password(Err(error))) => Flow::Reply(
            Err(store_status(&error)),
        ),
        _ => unexpected(),
    }
}

/// The record of a user beside the graph, as far as a listing tells it.
#[derive(Debug)]
pub struct UserRecord {
    pub id: i64,
    pub name: String,
    pub alias: Option<String>,
    pub email: Option<String>,
    pub phone: Option<String>,
    pub extra: AHashMap<FastStr, FastStr>,
}

/// The places of the records whose node was found, in their order,
/// among the first `n` records.
pub open spec fn kept(users: Seq<(UserRecord, bool)>, n: nat) -> Seq<int>
    recommends
        n <= users.len(),
    decreases n,
{
    if n == 0 {
        Seq::empty()
    } else if users[n - 1].1 {
        kept(users, (n - 1) as nat).push(n - 1)
    } else {
        kept(users, (n - 1) as nat)
    }
}

/// Whether `response` tells of the user of `record`.
pub open spec fn tells_record(response: UserResponse, record: UserRecord) -> bool {
    &&& response.id == record.id
    &&& response.user is Some
    &&& response.user->0.name@ == record.name@
    &&& text_view(response.user->0.alias) == text_view(record.alias)
    &&& text_view(response.user->0.email) == text_view(record.email)
    &&& text_view(response.user->0.phone) == text_view(record.phone)
    &&& bag_entries(response.user->0.extra) == bag_entries(record.extra)
}

/// The listing of the users whose records were found beside the graph:
/// each record whose node was found in the graph, in the order of the
/// records. Beside each record stands whether the search for its node,
/// by the record's name, identifier and extra properties, succeeded.
/// Without records the listing fails with `NotFound`.
pub fn handler_search_user(users: &Vec<(UserRecord, bool)>) -> (r: Result<Vec<UserResponse>, Status>)
    ensures
        match r {
            Ok(list) => {
                let places = kept(users@, users.len() as nat);
                &&& users.len() > 0
                &&& list.len() == places.len()
                &&& forall|k: int|
                    0 <= k < list.len() ==> 0 <= (#[trigger] places[k]) < users.len()
                        && tells_record(list[k], users[places[k]].0)
            },
            Err(status) => users.len() == 0 && status.code == Code::NotFound && status.message@
                == no_user(),
        },
{
    if users.len() == 0 {
        return Err(Status::not_found("User not found!"));
    }
    let mut list: Vec<UserResponse> = Vec::new();
    let mut i: usize = 0;
    while i < users.len()
        invariant
            i <= users.len(),
            users.len() > 0,
            list.len() == kept(users@, i as nat).len(),
            forall|k: int|
                0 <= k < list.len() ==> 0 <= (#[trigger] kept(users@, i as nat)[k]) < i
                    && tells_record(list[k], users[kept(users@, i as nat)[k]].0),
        decreases users.len() - i,
    {
        let ghost before = kept(users@, i as nat);
        let ghost after = kept(users@, (i + 1) as nat);
        let ghost listed = list@;
        if users[i].1 {
            let user = &users[i].0;
            list.push(
                UserResponse {
                    id: user.id,
                    user: Some(
                        UserInfo {
                            name: user.name.clone(),
                            alias: field_copy(&user.alias),
                            email: field_copy(&user.email),
                            phone: field_copy(&user.phone),
                            extra: bag_clone(&user.extra),
                        },
                    ),
                },
            );
        }
        proof {
            assert(after == if users@[i as int].1 {
                before.push(i as int)
            } else {
                before
            });
            assert forall|k: int| 0 <= k < list.len() implies 0 <= (#[trigger] after[k]) < i + 1
                && tells_record(list[k], users[after[k]].0) by {
                if k < listed.len() {
                    assert(list[k] == listed[k]);
                    assert(after[k] == before[k]);
                }
            }
        }
        i = i + 1;
    }
    Ok(list)
}

/// The listing of the user attributes that a search found: each with
/// its identifier, its name and its properties, in the order in which
/// they were found. A failed search fails the listing.
pub fn handler_search_user_attribute(found: Result<Vec<Vertex<UserAttribute>>, Status>) -> (r:
    Result<Vec<UserAttributeResponse>, Status>)
    ensures
        match (found, r) {
            (Ok(vertices), Ok(list)) => list.len() == vertices.len() && forall|k: int|
                0 <= k < list.len() ==> tells_attribute(
                    #[trigger] list[k],
                    vertices[k].id as i64,
                    vertices[k].properties.name@,
                    bag_entries(vertices[k].properties.properties),
                ),
            (Err(status), Err(same)) => same == status,
            _ => false,
        },
{
    let vertices = match found {
        Ok(vertices) => vertices,
        Err(status) => {
            return Err(status);
        },
    };
    let mut list: Vec<UserAttributeResponse> = Vec::new();
    let mut i: usize = 0;
    while i < vertices.len()
        invariant
            i <= vertices.len(),
            list.len() == i,
            forall|k: int|
                0 <= k < i ==> tells_attribute(
                    #[trigger] list[k],
                    vertices[k].id as i64,
                    vertices[k].properties.name@,
                    bag_entries(vertices[k].properties.properties),
                ),
        decreases vertices.len() - i,
    {
        let vertex = &vertices[i];
        list.push(
            UserAttributeResponse {
                id: signed_id(vertex.id),
                user_attribute: Some(
                    UserAttributeInfo {
                        name: vertex.properties.name.clone(),
                        extra: bag_clone(&vertex.properties.properties),
                    },
                ),
            },
        );
        i = i + 1;
    }
    Ok(list)
}

/// A user attribute is first looked for, then its origin is found, then
/// it is created, then read back, then assigned, and only then told of:
/// the flow asks for the creation only once the origin's node is found,
/// for the assignment only once the attribute is read back, and replies
/// with the attribute only once the assignment is written.
pub proof fn law_attribute_steps_in_order(
    body: AddUserAttributeRequest,
    stage: AddAttributeStage,
    event: Event,
    flow: Flow<AddAttributeStage, UserAttributeResponse>,
)
    requires
        add_user_attribute_flow(body, stage, event, flow),
    ensures
        flow matches Flow::Continue(_, Action::Create(_)) ==> stage is Locating && (
        event matches Event::Searched(Ok(vertex)) && vertex.kind() == origin_kind(
            body.origin_node_type,
        )),
        flow matches Flow::Continue(_, Action::Assign(_)) ==> stage is Confirming && (
        event matches Event::Searched(Ok(vertex)) && vertex.kind() == NodeType::UserAttribute),
        flow matches Flow::Reply(Ok(_)) ==> stage is Assigning && event matches Event::Assigned(
            None,
        ),
{
}

/// A user is first looked for, then created, then read back, then
/// recorded, and only then told of: the flow asks for the creation only
/// once the search has found nothing, for the record only once the node
/// is read back, and replies with the user only once the record is
/// written.
pub proof fn law_user_steps_in_order(
    body: PrivateUserInfo,
    stage: AddUserStage,
    event: Event,
    flow: Flow<AddUserStage, UserResponse>,
)
    requires
        add_user_flow(body, stage, event, flow),
    ensures
        flow matches Flow::Continue(_, Action::Create(_)) ==> stage is Checking && (
        event matches Event::Searched(Err(status)) && status.code == Code::NotFound),
        flow matches Flow::Continue(_, Action::Record(_)) ==> stage is Confirming && (
        event matches Event::Searched(Ok(vertex)) && vertex.kind() == NodeType::User),
        flow matches Flow::Reply(Ok(_)) ==> stage is Recording && event matches Event::Recorded(
            Ok(_),
        ),
{
}

/// Nobody is logged in without a password that is the user's.
pub proof fn law_login_needs_the_password(
    body: LoginForm,
    stage: LoginStage,
    event: Event,
    flow: Flow<LoginStage, Logged>,
)
    requires
        login_flow(body, stage, event, flow),
    ensures
        flow matches Flow::Reply(Ok(_)) ==> stage is Checking && event matches Event::Password(
            Ok(Some(true)),
        ),
{
}

/// Every node that a flow asks to be created holds its name among its
/// properties, so that the store can keep it apart by its name and the
/// flow can find it again by its name.
pub proof fn law_created_nodes_hold_their_names(
    attribute: AddUserAttributeRequest,
    attribute_stage: AddAttributeStage,
    attribute_flow: Flow<AddAttributeStage, UserAttributeResponse>,
    user: PrivateUserInfo,
    user_stage: AddUserStage,
    user_flow: Flow<AddUserStage, UserResponse>,
    event: Event,
)
    requires
        add_user_attribute_flow(attribute, attribute_stage, event, attribute_flow),
        add_user_flow(user, user_stage, event, user_flow),
    ensures
        attribute_flow matches Flow::Continue(_, Action::Create(node)) ==> holds_name(node),
        user_flow matches Flow::Continue(_, Action::Create(node)) ==> holds_name(node),
{
}

} // verus!
