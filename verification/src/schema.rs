//! The vocabulary of the policy graph: the five kinds of node, the seven
//! assignments between them, the nodes as they are written and read, and
//! the failures that the graph layer reports.

use pilota::AHashMap;
use pilota::FastStr;
use vstd::prelude::*;

verus! {

/// The graph that holds the policy.
pub const GRAPH_NAME: &'static str = "ngac";

pub const CREATE: &'static str = "CREATE";

pub const MATCH: &'static str = "MATCH";

pub const SET: &'static str = "SET";

pub const WHERE: &'static str = "WHERE";

pub const AND: &'static str = "AND";

pub const RETURN: &'static str = "RETURN";

/// The type of the edges that grant operations from a user attribute to
/// an object attribute.
pub const ASSOCIATION: &'static str = "Association";

/// The type of the edges that assign a node to an attribute or to a
/// policy class.
pub const ASSIGNMENT: &'static str = "Assignment";

/// The kinds of node.
#[derive(Clone, Copy, Debug, PartialEq, Eq, Structural)]
pub enum NodeType {
    User,
    UserAttribute,
    Object,
    ObjectAttribute,
    PolicyClass,
}

impl NodeType {
    /// The short name that stands for a node of this kind inside a query.
    pub open spec fn alias(self) -> Seq<char> {
        match self {
            NodeType::User => "u"@,
            NodeType::UserAttribute => "ua"@,
            NodeType::Object => "o"@,
            NodeType::ObjectAttribute => "oa"@,
            NodeType::PolicyClass => "pc"@,
        }
    }

    /// The label that tags a node of this kind in the store.
    pub open spec fn label(self) -> Seq<char> {
        match self {
            NodeType::User => "User"@,
            NodeType::UserAttribute => "UserAttribute"@,
            NodeType::Object => "Object"@,
            NodeType::ObjectAttribute => "ObjectAttribute"@,
            NodeType::PolicyClass => "PolicyClass"@,
        }
    }

    /// The alias as a static string.
    pub fn as_str(&self) -> (r: &'static str)
        ensures
            r@ == self.alias(),
    {
        match self {
            NodeType::User => "u",
            NodeType::UserAttribute => "ua",
            NodeType::Object => "o",
            NodeType::ObjectAttribute => "oa",
            NodeType::PolicyClass => "pc",
        }
    }

    /// The label as a static string.
    pub fn full_str(&self) -> (r: &'static str)
        ensures
            r@ == self.label(),
    {
        match self {
            NodeType::User => "User",
            NodeType::UserAttribute => "UserAttribute",
            NodeType::Object => "Object",
            NodeType::ObjectAttribute => "ObjectAttribute",
            NodeType::PolicyClass => "PolicyClass",
        }
    }

    /// The alias: `u`, `ua`, `o`, `oa` or `pc`.
    pub fn to_string(&self) -> (r: String)
        ensures
            r@ == self.alias(),
    {
        String::from_str(self.as_str())
    }

    /// The label: the kind's name as it is written here.
    pub fn fmt_full(&self) -> (r: String)
        ensures
            r@ == self.label(),
    {
        String::from_str(self.full_str())
    }
}

/// The seven assignments that the model allows, each with the identifier
/// of its origin and of its target.
#[derive(Debug, Clone, Copy)]
pub enum Assignment {
    U2UA((i64, i64)),
    UA2UA((i64, i64)),
    UA2OA((i64, i64)),
    UA2PC((i64, i64)),
    O2OA((i64, i64)),
    OA2OA((i64, i64)),
    OA2PC((i64, i64)),
}

impl Assignment {
    /// The kind of node that the edge leaves.
    pub open spec fn origin_kind(self) -> NodeType {
        match self {
            Assignment::U2UA(_) => NodeType::User,
            Assignment::UA2UA(_) | Assignment::UA2OA(_) | Assignment::UA2PC(_) => {
                NodeType::UserAttribute
            },
            Assignment::O2OA(_) => NodeType::Object,
            Assignment::OA2OA(_) | Assignment::OA2PC(_) => NodeType::ObjectAttribute,
        }
    }

    /// The kind of node that the edge enters.
    pub open spec fn target_kind(self) -> NodeType {
        match self {
            Assignment::U2UA(_) | Assignment::UA2UA(_) => NodeType::UserAttribute,
            Assignment::UA2OA(_) | Assignment::O2OA(_) | Assignment::OA2OA(_) => {
                NodeType::ObjectAttribute
            },
            Assignment::UA2PC(_) | Assignment::OA2PC(_) => NodeType::PolicyClass,
        }
    }

    /// The identifiers of origin and target.
    pub open spec fn ends(self) -> (i64, i64) {
        match self {
            Assignment::U2UA(e) => e,
            Assignment::UA2UA(e) => e,
            Assignment::UA2OA(e) => e,
            Assignment::UA2PC(e) => e,
            Assignment::O2OA(e) => e,
            Assignment::OA2OA(e) => e,
            Assignment::OA2PC(e) => e,
        }
    }

    /// Whether an edge from a node of kind `origin` to one of kind `target`
    /// is one of the seven.
    pub open spec fn allowed(origin: NodeType, target: NodeType) -> bool {
        match (origin, target) {
            (NodeType::User, NodeType::UserAttribute) => true,
            (NodeType::UserAttribute, NodeType::UserAttribute) => true,
            (NodeType::UserAttribute, NodeType::ObjectAttribute) => true,
            (NodeType::UserAttribute, NodeType::PolicyClass) => true,
            (NodeType::Object, NodeType::ObjectAttribute) => true,
            (NodeType::ObjectAttribute, NodeType::ObjectAttribute) => true,
            (NodeType::ObjectAttribute, NodeType::PolicyClass) => true,
            _ => false,
        }
    }

    /// The kinds and identifiers of the two ends: origin kind, origin,
    /// target kind, target.
    pub fn parts(&self) -> (r: (NodeType, i64, NodeType, i64))
        ensures
            r.0 == self.origin_kind(),
            r.1 == self.ends().0,
            r.2 == self.target_kind(),
            r.3 == self.ends().1,
            Assignment::allowed(r.0, r.2),
    {
        match self {
            Assignment::U2UA(e) => (NodeType::User, e.0, NodeType::UserAttribute, e.1),
            Assignment::UA2UA(e) => (NodeType::UserAttribute, e.0, NodeType::UserAttribute, e.1),
            Assignment::UA2OA(e) => (NodeType::UserAttribute, e.0, NodeType::ObjectAttribute, e.1),
            Assignment::UA2PC(e) => (NodeType::UserAttribute, e.0, NodeType::PolicyClass, e.1),
            Assignment::O2OA(e) => (NodeType::Object, e.0, NodeType::ObjectAttribute, e.1),
            Assignment::OA2OA(e) => (
                NodeType::ObjectAttribute,
                e.0,
                NodeType::ObjectAttribute,
                e.1,
            ),
            Assignment::OA2PC(e) => (NodeType::ObjectAttribute, e.0, NodeType::PolicyClass, e.1),
        }
    }
}

/// A user: who asks for access.
#[derive(Debug)]
pub struct User {
    pub name: String,
    pub properties: AHashMap<FastStr, FastStr>,
}

/// An attribute that users, or other user attributes, are assigned to.
#[derive(Debug)]
pub struct UserAttribute {
    pub name: String,
    pub properties: AHashMap<FastStr, FastStr>,
}

/// An object: what access is asked to.
#[derive(Debug)]
pub struct Object {
    pub name: String,
    pub properties: AHashMap<FastStr, FastStr>,
}

/// An attribute that objects, or other object attributes, are assigned to.
#[derive(Debug)]
pub struct ObjectAttribute {
    pub name: String,
    pub properties: AHashMap<FastStr, FastStr>,
}

/// A policy class: the context inside which an association grants.
#[derive(Debug)]
pub struct PolicyClass {
    pub name: String,
    pub properties: AHashMap<FastStr, FastStr>,
}

/// A node to be written, tagged with its kind.
#[derive(Debug)]
pub enum NodeTypeObject {
    User(User),
    UserAttribute(UserAttribute),
    Object(Object),
    ObjectAttribute(ObjectAttribute),
    PolicyClass(PolicyClass),
}

impl NodeTypeObject {
    /// The kind of the node.
    pub open spec fn kind(self) -> NodeType {
        match self {
            NodeTypeObject::User(_) => NodeType::User,
            NodeTypeObject::UserAttribute(_) => NodeType::UserAttribute,
            NodeTypeObject::Object(_) => NodeType::Object,
            NodeTypeObject::ObjectAttribute(_) => NodeType::ObjectAttribute,
            NodeTypeObject::PolicyClass(_) => NodeType::PolicyClass,
        }
    }

    /// The name of the node.
    pub open spec fn name(self) -> Seq<char> {
        match self {
            NodeTypeObject::User(n) => n.name@,
            NodeTypeObject::UserAttribute(n) => n.name@,
            NodeTypeObject::Object(n) => n.name@,
            NodeTypeObject::ObjectAttribute(n) => n.name@,
            NodeTypeObject::PolicyClass(n) => n.name@,
        }
    }

    /// The property bag of the node.
    pub open spec fn properties(self) -> AHashMap<FastStr, FastStr> {
        match self {
            NodeTypeObject::User(n) => n.properties,
            NodeTypeObject::UserAttribute(n) => n.properties,
            NodeTypeObject::Object(n) => n.properties,
            NodeTypeObject::ObjectAttribute(n) => n.properties,
            NodeTypeObject::PolicyClass(n) => n.properties,
        }
    }

    /// A node of the given kind.
    pub fn of(kind: NodeType, name: String, properties: AHashMap<FastStr, FastStr>) -> (r: Self)
        ensures
            r.kind() == kind,
            r.name() == name@,
            r.properties() == properties,
    {
        match kind {
            NodeType::User => NodeTypeObject::User(User { name, properties }),
            NodeType::UserAttribute => NodeTypeObject::UserAttribute(
                UserAttribute { name, properties },
            ),
            NodeType::Object => NodeTypeObject::Object(Object { name, properties }),
            NodeType::ObjectAttribute => NodeTypeObject::ObjectAttribute(
                ObjectAttribute { name, properties },
            ),
            NodeType::PolicyClass => NodeTypeObject::PolicyClass(PolicyClass { name, properties }),
        }
    }

    /// The kind of the node.
    pub fn node_type(&self) -> (r: NodeType)
        ensures
            r == self.kind(),
    {
        match self {
            NodeTypeObject::User(_) => NodeType::User,
            NodeTypeObject::UserAttribute(_) => NodeType::UserAttribute,
            NodeTypeObject::Object(_) => NodeType::Object,
            NodeTypeObject::ObjectAttribute(_) => NodeType::ObjectAttribute,
            NodeTypeObject::PolicyClass(_) => NodeType::PolicyClass,
        }
    }

    /// The node's name.
    pub fn node_name(&self) -> (r: &String)
        ensures
            r@ == self.name(),
    {
        match self {
            NodeTypeObject::User(n) => &n.name,
            NodeTypeObject::UserAttribute(n) => &n.name,
            NodeTypeObject::Object(n) => &n.name,
            NodeTypeObject::ObjectAttribute(n) => &n.name,
            NodeTypeObject::PolicyClass(n) => &n.name,
        }
    }

    /// The node's property bag.
    pub fn bag(&self) -> (r: &AHashMap<FastStr, FastStr>)
        ensures
            *r == self.properties(),
    {
        match self {
            NodeTypeObject::User(n) => &n.properties,
            NodeTypeObject::UserAttribute(n) => &n.properties,
            NodeTypeObject::Object(n) => &n.properties,
            NodeTypeObject::ObjectAttribute(n) => &n.properties,
            NodeTypeObject::PolicyClass(n) => &n.properties,
        }
    }

    /// The name and the property bag of the node.
    pub fn into_parts(self) -> (r: (NodeType, String, AHashMap<FastStr, FastStr>))
        ensures
            r.0 == self.kind(),
            r.1@ == self.name(),
            r.2 == self.properties(),
    {
        match self {
            NodeTypeObject::User(n) => (NodeType::User, n.name, n.properties),
            NodeTypeObject::UserAttribute(n) => (NodeType::UserAttribute, n.name, n.properties),
            NodeTypeObject::Object(n) => (NodeType::Object, n.name, n.properties),
            NodeTypeObject::ObjectAttribute(n) => (
                NodeType::ObjectAttribute,
                n.name,
                n.properties,
            ),
            NodeTypeObject::PolicyClass(n) => (NodeType::PolicyClass, n.name, n.properties),
        }
    }
}

/// An identifier of the store as the signed number by which this layer
/// names nodes: the same 64 bits.
pub fn signed_id(id: u64) -> (r: i64)
    ensures
        r == id as i64,
{
    #[verifier::truncate]
    (id as i64)
}

/// A node as the store gives it back: its identifier, which the store
/// chose when the node was first written, its label, and its contents.
#[derive(Debug)]
pub struct Vertex<T> {
    pub id: u64,
    pub label: String,
    pub properties: T,
}

impl<T> Vertex<T> {
    /// The identifier that the store gave the node.
    pub fn id(&self) -> (r: u64)
        ensures
            r == self.id,
    {
        self.id
    }

    /// The node's label.
    pub fn label(&self) -> (r: String)
        ensures
            r@ == self.label@,
    {
        self.label.clone()
    }

    /// The node's contents.
    pub fn properties(&self) -> (r: &T)
        ensures
            *r == self.properties,
    {
        &self.properties
    }
}

/// A node that was read, tagged with its kind.
#[derive(Debug)]
pub enum VertexTypeObject {
    User(Vertex<User>),
    UserAttribute(Vertex<UserAttribute>),
    Object(Vertex<Object>),
    ObjectAttribute(Vertex<ObjectAttribute>),
    PolicyClass(Vertex<PolicyClass>),
}

impl VertexTypeObject {
    /// The kind of the node.
    pub open spec fn kind(self) -> NodeType {
        match self {
            VertexTypeObject::User(_) => NodeType::User,
            VertexTypeObject::UserAttribute(_) => NodeType::UserAttribute,
            VertexTypeObject::Object(_) => NodeType::Object,
            VertexTypeObject::ObjectAttribute(_) => NodeType::ObjectAttribute,
            VertexTypeObject::PolicyClass(_) => NodeType::PolicyClass,
        }
    }

    /// The identifier of the node.
    pub open spec fn ident(self) -> u64 {
        match self {
            VertexTypeObject::User(v) => v.id,
            VertexTypeObject::UserAttribute(v) => v.id,
            VertexTypeObject::Object(v) => v.id,
            VertexTypeObject::ObjectAttribute(v) => v.id,
            VertexTypeObject::PolicyClass(v) => v.id,
        }
    }

    /// The label of the node.
    pub open spec fn label(self) -> Seq<char> {
        match self {
            VertexTypeObject::User(v) => v.label@,
            VertexTypeObject::UserAttribute(v) => v.label@,
            VertexTypeObject::Object(v) => v.label@,
            VertexTypeObject::ObjectAttribute(v) => v.label@,
            VertexTypeObject::PolicyClass(v) => v.label@,
        }
    }

    /// The name of the node.
    pub open spec fn name(self) -> Seq<char> {
        match self {
            VertexTypeObject::User(v) => v.properties.name@,
            VertexTypeObject::UserAttribute(v) => v.properties.name@,
            VertexTypeObject::Object(v) => v.properties.name@,
            VertexTypeObject::ObjectAttribute(v) => v.properties.name@,
            VertexTypeObject::PolicyClass(v) => v.properties.name@,
        }
    }

    /// The property bag of the node.
    pub open spec fn properties(self) -> AHashMap<FastStr, FastStr> {
        match self {
            VertexTypeObject::User(v) => v.properties.properties,
            VertexTypeObject::UserAttribute(v) => v.properties.properties,
            VertexTypeObject::Object(v) => v.properties.properties,
            VertexTypeObject::ObjectAttribute(v) => v.properties.properties,
            VertexTypeObject::PolicyClass(v) => v.properties.properties,
        }
    }

    /// A node of the given kind, as read from the store.
    pub fn of(
        kind: NodeType,
        id: u64,
        label: String,
        name: String,
        properties: AHashMap<FastStr, FastStr>,
    ) -> (r: Self)
        ensures
            r.kind() == kind,
            r.ident() == id,
            r.label() == label@,
            r.name() == name@,
            r.properties() == properties,
    {
        match kind {
            NodeType::User => VertexTypeObject::User(
                Vertex { id, label, properties: User { name, properties } },
            ),
            NodeType::UserAttribute => VertexTypeObject::UserAttribute(
                Vertex { id, label, properties: UserAttribute { name, properties } },
            ),
            NodeType::Object => VertexTypeObject::Object(
                Vertex { id, label, properties: Object { name, properties } },
            ),
            NodeType::ObjectAttribute => VertexTypeObject::ObjectAttribute(
                Vertex { id, label, properties: ObjectAttribute { name, properties } },
            ),
            NodeType::PolicyClass => VertexTypeObject::PolicyClass(
                Vertex { id, label, properties: PolicyClass { name, properties } },
            ),
        }
    }

    /// The kind of the node.
    pub fn node_type(&self) -> (r: NodeType)
        ensures
            r == self.kind(),
    {
        match self {
            VertexTypeObject::User(_) => NodeType::User,
            VertexTypeObject::UserAttribute(_) => NodeType::UserAttribute,
            VertexTypeObject::Object(_) => NodeType::Object,
            VertexTypeObject::ObjectAttribute(_) => NodeType::ObjectAttribute,
            VertexTypeObject::PolicyClass(_) => NodeType::PolicyClass,
        }
    }

    /// The identifier that the store gave the node.
    pub fn id(&self) -> (r: u64)
        ensures
            r == self.ident(),
    {
        match self {
            VertexTypeObject::User(v) => v.id,
            VertexTypeObject::UserAttribute(v) => v.id,
            VertexTypeObject::Object(v) => v.id,
            VertexTypeObject::ObjectAttribute(v) => v.id,
            VertexTypeObject::PolicyClass(v) => v.id,
        }
    }

    /// The node's property bag.
    pub fn bag(&self) -> (r: &AHashMap<FastStr, FastStr>)
        ensures
            *r == self.properties(),
    {
        match self {
            VertexTypeObject::User(v) => &v.properties.properties,
            VertexTypeObject::UserAttribute(v) => &v.properties.properties,
            VertexTypeObject::Object(v) => &v.properties.properties,
            VertexTypeObject::ObjectAttribute(v) => &v.properties.properties,
            VertexTypeObject::PolicyClass(v) => &v.properties.properties,
        }
    }

    /// The node's name.
    pub fn node_name(&self) -> (r: &String)
        ensures
            r@ == self.name(),
    {
        match self {
            VertexTypeObject::User(v) => &v.properties.name,
            VertexTypeObject::UserAttribute(v) => &v.properties.name,
            VertexTypeObject::Object(v) => &v.properties.name,
            VertexTypeObject::ObjectAttribute(v) => &v.properties.name,
            VertexTypeObject::PolicyClass(v) => &v.properties.name,
        }
    }
}

} // verus!
