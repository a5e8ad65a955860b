//! The entity service, one decision at a time.
//!
//! The service talks to a graph store that this library does not reach.
//! Each operation is therefore a function from what has happened so far
//! to what is to be done next: the caller runs the query that a step
//! names against the store and comes back with the store's answer, until
//! the step carries the operation's outcome.

use crate::bag::bag_entries;
use crate::bag::lists;
use crate::bag::no_entries;
use crate::bag::Entry;
use crate::cypher::association_cypher;
use crate::cypher::assignment_cypher;
use crate::cypher::authorization_query;
use crate::cypher::authorization_text;
use crate::cypher::granting_text;
use crate::cypher::written_entries;
use crate::cypher::assignment_text;
use crate::cypher::create_node_cypher;
use crate::cypher::create_node_text;
use crate::cypher::nothing_to_create_with;
use crate::cypher::nothing_to_search_by;
use crate::cypher::search_node_cypher;
use crate::cypher::search_node_text;
use crate::policy::Decision;
use crate::literal::all_keys_plain;
use crate::literal::key_refused;
use crate::schema::Assignment;
use crate::schema::NodeType;
use crate::schema::NodeTypeObject;
use crate::schema::UserAttribute;
use crate::schema::Vertex;
use crate::schema::VertexTypeObject;
use crate::status::no_user_attribute;
use crate::status::nothing_found;
use crate::status::wrong_kind_text;
use crate::status::Code;
use crate::status::Status;
use crate::text::name_view;
use crate::text::string_views;
use pilota::AHashMap;
use pilota::FastStr;
use vstd::prelude::*;

verus! {

/// The name of the index that keeps the names of one kind of node
/// apart.
pub const UNIQUE_INDEX_NAME: &'static str = "unique_name";

/// The property that the index is on.
pub const UNIQUE_INDEX_FIELD: &'static str = "name";

/// How the store failed.
#[derive(Clone, Copy, Debug, PartialEq, Eq, Structural)]
pub enum StoreFailure {
    /// A unique index refused a second node of one name.
    Duplicate,
    /// The store could not be reached.
    Unreachable,
    /// Anything else.
    Other,
}

/// A failure of the store, with what the store said of it.
#[derive(Debug)]
pub struct StoreError {
    pub failure: StoreFailure,
    pub message: String,
}

impl StoreFailure {
    /// The kind of failure that the service reports for a failure of the
    /// store: a refused duplicate is told as `AlreadyExists`, a store out
    /// of reach as `Unavailable`, anything else as `Internal`.
    pub open spec fn code(self) -> Code {
        match self {
            StoreFailure::Duplicate => Code::AlreadyExists,
            StoreFailure::Unreachable => Code::Unavailable,
            StoreFailure::Other => Code::Internal,
        }
    }
}

/// Whether `status` reports the failure `error` of the store: under the
/// code of the failure, in the store's own words.
pub open spec fn reports(status: Status, error: StoreError) -> bool {
    status.code == error.failure.code() && status.message@ == error.message@
}

/// The failure that the service reports for a failure of the store.
pub fn store_status(error: &StoreError) -> (r: Status)
    ensures
        reports(r, *error),
{
    let code = match error.failure {
        StoreFailure::Duplicate => Code::AlreadyExists,
        StoreFailure::Unreachable => Code::Unavailable,
        StoreFailure::Other => Code::Internal,
    };
    Status::new(code, error.message.as_str())
}

/// What has happened so far in the creation of a node.
#[derive(Debug)]
pub enum CreateNodeEvent {
    /// Nothing yet.
    Begin,
    /// The unique index on the names of the node's kind is in place.
    Indexed,
    /// The node was written.
    Created,
    /// The store failed.
    Failed(StoreError),
}

/// What the creation of a node does next.
#[derive(Debug)]
pub enum CreateNodeStep {
    /// See to it that the graph has a unique index, of the name
    /// `UNIQUE_INDEX_NAME` and on the property `UNIQUE_INDEX_FIELD`, for
    /// the nodes of this label.
    Index(String),
    /// Run this query.
    Run(String),
    /// The creation has ended: with nothing for success, or with the
    /// failure.
    Finish(Option<Status>),
}

/// What `create_node` answers to an event.
///
/// A node without properties is refused with `InvalidArgument`, and so
/// is one with a key that may not stand in a query, whatever has
/// happened. Else the unique index comes first, then the query that
/// writes the node with what its bag holds and, under `name`, its name,
/// then the end. A failure of the store
/// ends the creation and is reported as it is; a duplicate name, which
/// the store refuses by its index, is thereby told as `AlreadyExists`.
pub open spec fn create_node_step(
    node: NodeTypeObject,
    event: CreateNodeEvent,
    step: CreateNodeStep,
) -> bool {
    if bag_entries(node.properties()) == no_entries() {
        step matches CreateNodeStep::Finish(Some(status)) && status.code == Code::InvalidArgument
            && status.message@ == nothing_to_create_with()
    } else if !all_keys_plain(bag_entries(node.properties())) {
        step matches CreateNodeStep::Finish(Some(status)) && status.code == Code::InvalidArgument
            && status.message@ == key_refused()
    } else {
        match event {
            CreateNodeEvent::Begin => step matches CreateNodeStep::Index(label) && label@
                == node.kind().label(),
            CreateNodeEvent::Indexed => step matches CreateNodeStep::Run(query) && exists|
                order: Seq<Entry>,
            | #[trigger]
                lists(order, written_entries(node)) && query@ == create_node_text(
                    node.kind(),
                    order,
                ),
            CreateNodeEvent::Created => step matches CreateNodeStep::Finish(None),
            CreateNodeEvent::Failed(error) => step matches CreateNodeStep::Finish(Some(status))
                && reports(status, error),
        }
    }
}

/// The next step in the creation of `node`.
pub fn create_node(node: &NodeTypeObject, event: CreateNodeEvent) -> (step: CreateNodeStep)
    ensures
        create_node_step(*node, event, step),
{
    let query = match create_node_cypher(node) {
        Ok(query) => query,
        Err(status) => {
            return CreateNodeStep::Finish(Some(status));
        },
    };
    match event {
        CreateNodeEvent::Begin => CreateNodeStep::Index(node.node_type().fmt_full()),
        CreateNodeEvent::Indexed => CreateNodeStep::Run(query),
        CreateNodeEvent::Created => CreateNodeStep::Finish(None),
        CreateNodeEvent::Failed(error) => CreateNodeStep::Finish(Some(store_status(&error))),
    }
}

/// What has happened so far in a search.
#[derive(Debug)]
pub enum SearchEvent {
    /// Nothing yet.
    Begin,
    /// The query ran; this is its first row, if it has one, read as a
    /// node of the kind that was asked for.
    Found(Option<VertexTypeObject>),
    /// The store failed.
    Failed(StoreError),
}

/// What a search does next.
#[derive(Debug)]
pub enum SearchStep {
    /// Run this query.
    Query(String),
    /// The search has ended.
    Finish(Result<VertexTypeObject, Status>),
}

/// What `search_node` answers to an event.
///
/// Without a name and an identifier the search fails with
/// `InvalidArgument`, and so it does with a key that may not stand in a
/// query, whatever has happened. Else the query comes
/// first. Its first row is the outcome; without a row the search fails
/// with `NotFound`, and with a row of another kind with `Aborted`. A
/// failure of the store is reported as it is.
pub open spec fn search_node_step(
    node_type: NodeType,
    name: Option<Seq<char>>,
    id: Option<i64>,
    properties: AHashMap<FastStr, FastStr>,
    event: SearchEvent,
    step: SearchStep,
) -> bool {
    if name is None && id is None {
        step matches SearchStep::Finish(Err(status)) && status.code == Code::InvalidArgument
            && status.message@ == nothing_to_search_by()
    } else if !all_keys_plain(bag_entries(properties)) {
        step matches SearchStep::Finish(Err(status)) && status.code == Code::InvalidArgument
            && status.message@ == key_refused()
    } else {
        match event {
            SearchEvent::Begin => step matches SearchStep::Query(query) && exists|
                order: Seq<Entry>,
            | #[trigger]
                lists(order, bag_entries(properties)) && query@ == search_node_text(
                    node_type,
                    name,
                    id,
                    order,
                ),
            SearchEvent::Found(Some(vertex)) => if vertex.kind() == node_type {
                step == SearchStep::Finish(Ok(vertex))
            } else {
                step matches SearchStep::Finish(Err(status)) && status.code == Code::Aborted
                    && status.message@ == wrong_kind_text()
            },
            SearchEvent::Found(None) => step matches SearchStep::Finish(Err(status))
                && status.code == Code::NotFound && status.message@ == nothing_found(),
            SearchEvent::Failed(error) => step matches SearchStep::Finish(Err(status)) && reports(
                status,
                error,
            ),
        }
    }
}

/// The next step in the search for a node of `node_type` with the given
/// name, identifier and properties.
pub fn search_node(
    node_type: NodeType,
    name: Option<&str>,
    id: Option<i64>,
    properties: AHashMap<FastStr, FastStr>,
    event: SearchEvent,
) -> (step: SearchStep)
    ensures
        search_node_step(node_type, name_view(name), id, properties, event, step),
        name is None && id is None ==> (step matches SearchStep::Finish(Err(status))
            && status.code == Code::InvalidArgument),
{
    let query = match search_node_cypher(node_type, name, id, properties) {
        Ok(query) => query,
        Err(status) => {
            return SearchStep::Finish(Err(status));
        },
    };
    match event {
        SearchEvent::Begin => SearchStep::Query(query),
        SearchEvent::Found(Some(vertex)) => {
            if vertex.node_type() == node_type {
                SearchStep::Finish(Ok(vertex))
            } else {
                SearchStep::Finish(Err(Status::aborted("node type error!")))
            }
        },
        SearchEvent::Found(None) => SearchStep::Finish(Err(Status::not_found("node not found!"))),
        SearchEvent::Failed(error) => SearchStep::Finish(Err(store_status(&error))),
    }
}

/// What a search for a user attribute does next.
#[derive(Debug)]
pub enum AttributeSearchStep {
    /// Run this query.
    Query(String),
    /// The search has ended.
    Finish(Result<Vertex<UserAttribute>, Status>),
}

/// What `search_user_attribute_node` answers to an event: what a search
/// for a node of that kind answers, with the user attribute itself as
/// the outcome, and in its own words where nothing is found.
pub open spec fn search_user_attribute_step(
    id: Option<i64>,
    name: Option<Seq<char>>,
    properties: AHashMap<FastStr, FastStr>,
    event: SearchEvent,
    step: AttributeSearchStep,
) -> bool {
    if name is None && id is None {
        step matches AttributeSearchStep::Finish(Err(status)) && status.code
            == Code::InvalidArgument && status.message@ == nothing_to_search_by()
    } else if !all_keys_plain(bag_entries(properties)) {
        step matches AttributeSearchStep::Finish(Err(status)) && status.code
            == Code::InvalidArgument && status.message@ == key_refused()
    } else {
        match event {
            SearchEvent::Begin => step matches AttributeSearchStep::Query(query) && exists|
                order: Seq<Entry>,
            | #[trigger]
                lists(order, bag_entries(properties)) && query@ == search_node_text(
                    NodeType::UserAttribute,
                    name,
                    id,
                    order,
                ),
            SearchEvent::Found(Some(VertexTypeObject::UserAttribute(vertex))) => step
                == AttributeSearchStep::Finish(Ok(vertex)),
            SearchEvent::Found(Some(_)) => step matches AttributeSearchStep::Finish(Err(status))
                && status.code == Code::Aborted && status.message@ == wrong_kind_text(),
            SearchEvent::Found(None) => step matches AttributeSearchStep::Finish(Err(status))
                && status.code == Code::NotFound && status.message@ == no_user_attribute(),
            SearchEvent::Failed(error) => step matches AttributeSearchStep::Finish(Err(status))
                && reports(status, error),
        }
    }
}

/// The next step in the search for a user attribute.
pub fn search_user_attribute_node(
    id: Option<i64>,
    attribute_name: Option<&str>,
    properties: AHashMap<FastStr, FastStr>,
    event: SearchEvent,
) -> (step: AttributeSearchStep)
    ensures
        search_user_attribute_step(id, name_view(attribute_name), properties, event, step),
{
    let query = match search_node_cypher(NodeType::UserAttribute, attribute_name, id, properties) {
        Ok(query) => query,
        Err(status) => {
            return AttributeSearchStep::Finish(Err(status));
        },
    };
    match event {
        SearchEvent::Begin => AttributeSearchStep::Query(query),
        SearchEvent::Found(Some(VertexTypeObject::UserAttribute(vertex))) => {
            AttributeSearchStep::Finish(Ok(vertex))
        },
        SearchEvent::Found(Some(_)) => AttributeSearchStep::Finish(
            Err(Status::aborted("node type error!")),
        ),
        SearchEvent::Found(None) => AttributeSearchStep::Finish(
            Err(Status::not_found("User attribute not found!")),
        ),
        SearchEvent::Failed(error) => AttributeSearchStep::Finish(Err(store_status(&error))),
    }
}

/// The message of an edge between two kinds of node that no assignment
/// joins.
pub open spec fn no_such_assignment() -> Seq<char> {
    "No assignment joins these kinds of node!"@
}

/// The assignment of the node `origin_id` of kind `origin` to the node
/// `target_id` of kind `target`. The two kinds must be one of the seven
/// pairs that an assignment joins: any other pair is refused with
/// `InvalidArgument`.
pub fn assignment_between(origin: NodeType, origin_id: i64, target: NodeType, target_id: i64) -> (r:
    Result<Assignment, Status>)
    ensures
        match r {
            Ok(assignment) => Assignment::allowed(origin, target) && assignment.origin_kind()
                == origin && assignment.target_kind() == target && assignment.ends() == (
                origin_id,
                target_id,
            ),
            Err(status) => !Assignment::allowed(origin, target) && status.code
                == Code::InvalidArgument && status.message@ == no_such_assignment(),
        },
{
    let ends = (origin_id, target_id);
    match (origin, target) {
        (NodeType::User, NodeType::UserAttribute) => Ok(Assignment::U2UA(ends)),
        (NodeType::UserAttribute, NodeType::UserAttribute) => Ok(Assignment::UA2UA(ends)),
        (NodeType::UserAttribute, NodeType::ObjectAttribute) => Ok(Assignment::UA2OA(ends)),
        (NodeType::UserAttribute, NodeType::PolicyClass) => Ok(Assignment::UA2PC(ends)),
        (NodeType::Object, NodeType::ObjectAttribute) => Ok(Assignment::O2OA(ends)),
        (NodeType::ObjectAttribute, NodeType::ObjectAttribute) => Ok(Assignment::OA2OA(ends)),
        (NodeType::ObjectAttribute, NodeType::PolicyClass) => Ok(Assignment::OA2PC(ends)),
        _ => Err(Status::invalid_argument("No assignment joins these kinds of node!")),
    }
}

/// What has happened so far in the writing of an edge.
#[derive(Debug)]
pub enum RunEvent {
    /// Nothing yet.
    Begin,
    /// The query ran.
    Done,
    /// The store failed.
    Failed(StoreError),
}

/// What the writing of an edge does next.
#[derive(Debug)]
pub enum RunStep {
    /// Run this query.
    Run(String),
    /// The writing has ended: with nothing for success, or with the
    /// failure.
    Finish(Option<Status>),
}

/// What `assignment` answers to an event: first the one query that
/// writes the assignment edge from the origin that the assignment names
/// to its target, then the end. A failure of the store is reported as it is.
pub open spec fn assignment_step(assignment: Assignment, event: RunEvent, step: RunStep) -> bool {
    match event {
        RunEvent::Begin => step matches RunStep::Run(query) && query@ == assignment_text(
            assignment,
        ),
        RunEvent::Done => step matches RunStep::Finish(None),
        RunEvent::Failed(error) => step matches RunStep::Finish(Some(status)) && reports(
            status,
            error,
        ),
    }
}

/// The next step in the writing of an assignment.
pub fn assignment(assignment_combination: &Assignment, event: RunEvent) -> (step: RunStep)
    ensures
        assignment_step(*assignment_combination, event, step),
{
    match event {
        RunEvent::Begin => RunStep::Run(assignment_cypher(assignment_combination)),
        RunEvent::Done => RunStep::Finish(None),
        RunEvent::Failed(error) => RunStep::Finish(Some(store_status(&error))),
    }
}

/// What `association` answers to an event: first the query that writes
/// the association edge from the user attribute to the object attribute,
/// with the operations as its property `ops`, then the end. A failure of
/// the store is reported as it is.
pub open spec fn association_step(
    user_attribute_id: i64,
    object_attribute_id: i64,
    operations: Seq<Seq<char>>,
    event: RunEvent,
    step: RunStep,
) -> bool {
    match event {
        RunEvent::Begin => step matches RunStep::Run(query) && query@ == granting_text(
            user_attribute_id,
            object_attribute_id,
            operations,
        ),
        RunEvent::Done => step matches RunStep::Finish(None),
        RunEvent::Failed(error) => step matches RunStep::Finish(Some(status)) && reports(
            status,
            error,
        ),
    }
}

/// The next step in the writing of an association: the user attribute
/// grants the operations on what is under the object attribute.
pub fn association(
    user_attribute_id: i64,
    object_attribute_id: i64,
    operations: &Vec<String>,
    event: RunEvent,
) -> (step: RunStep)
    ensures
        association_step(
            user_attribute_id,
            object_attribute_id,
            string_views(operations@),
            event,
            step,
        ),
{
    match event {
        RunEvent::Begin => RunStep::Run(
            association_cypher(user_attribute_id, object_attribute_id, operations),
        ),
        RunEvent::Done => RunStep::Finish(None),
        RunEvent::Failed(error) => RunStep::Finish(Some(store_status(&error))),
    }
}

/// What has happened so far in a decision.
#[derive(Debug)]
pub enum AuthorizedEvent {
    /// Nothing yet.
    Begin,
    /// The query ran and gave this many rows.
    Rows(usize),
    /// The store failed.
    Failed(StoreError),
}

/// What a decision does next.
#[derive(Debug)]
pub enum AuthorizedStep {
    /// Run this query.
    Query(String),
    /// The decision is made, or could not be made.
    Finish(Result<Decision, Status>),
}

/// What `authorized` answers to an event: first the query for a path
/// that grants the operation; then access is granted where the query
/// gave a row and denied where it gave none. A failure of the store is
/// no denial: it is reported as it is.
pub open spec fn authorized_step(
    subject_id: i64,
    object_id: i64,
    operation: Seq<char>,
    event: AuthorizedEvent,
    step: AuthorizedStep,
) -> bool {
    match event {
        AuthorizedEvent::Begin => step matches AuthorizedStep::Query(query) && query@
            == authorization_text(subject_id, object_id, operation),
        AuthorizedEvent::Rows(rows) => step matches AuthorizedStep::Finish(Ok(decision))
            && decision == if rows > 0 {
            Decision::Granted
        } else {
            Decision::Denied
        },
        AuthorizedEvent::Failed(error) => step matches AuthorizedStep::Finish(Err(status))
            && reports(status, error),
    }
}

/// The next step in deciding whether the user `subject_id` may perform
/// `operation` on the object `object_id`.
pub fn authorized(subject_id: i64, object_id: i64, operation: &str, event: AuthorizedEvent) -> (step:
    AuthorizedStep)
    ensures
        authorized_step(subject_id, object_id, operation@, event, step),
{
    match event {
        AuthorizedEvent::Begin => AuthorizedStep::Query(
            authorization_query(subject_id, object_id, operation),
        ),
        AuthorizedEvent::Rows(rows) => AuthorizedStep::Finish(
            Ok(
                if rows > 0 {
                    Decision::Granted
                } else {
                    Decision::Denied
                },
            ),
        ),
        AuthorizedEvent::Failed(error) => AuthorizedStep::Finish(Err(store_status(&error))),
    }
}

} // verus!
