//! The policy graph as a mathematical value: what it holds, when it is
//! well formed, what a search in it asks for, and what it decides.

use crate::schema::Assignment;
use crate::schema::NodeType;
use vstd::prelude::*;

verus! {

/// The answer to a request for access.
#[derive(Clone, Copy, Debug, PartialEq, Eq, Structural)]
pub enum Decision {
    Granted,
    Denied,
}

/// A node of the graph, as a mathematical value.
pub struct NodeModel {
    pub kind: NodeType,
    pub name: Seq<char>,
    pub properties: Map<Seq<char>, Seq<char>>,
}

/// An association, as a mathematical value: the operations that it
/// grants from the user attribute `origin` to the object attribute
/// `target`.
pub struct AssociationModel {
    pub origin: int,
    pub target: int,
    pub operations: Seq<Seq<char>>,
}

/// The policy graph, as a mathematical value. A node's identifier is its
/// place in `nodes`.
pub struct GraphModel {
    pub nodes: Seq<NodeModel>,
    pub assignments: Seq<(int, int)>,
    pub associations: Seq<AssociationModel>,
}

/// What a search asks for.
pub struct Wanted {
    pub kind: NodeType,
    pub name: Option<Seq<char>>,
    pub id: Option<i64>,
    pub properties: Map<Seq<char>, Seq<char>>,
}

impl GraphModel {
    /// Whether `id` identifies a node.
    pub open spec fn has(self, id: int) -> bool {
        0 <= id < self.nodes.len()
    }

    /// Whether `id` identifies a node of the given kind.
    pub open spec fn is_kind(self, id: int, kind: NodeType) -> bool {
        self.has(id) && self.nodes[id].kind == kind
    }

    /// Whether a node of the given kind has the given name.
    pub open spec fn names(self, kind: NodeType, name: Seq<char>) -> bool {
        exists|i: int| self.is_kind(i, kind) && (#[trigger] self.nodes[i]).name == name
    }

    /// Whether the node `origin` is assigned to the node `target`.
    pub open spec fn assigned(self, origin: int, target: int) -> bool {
        self.assignments.contains((origin, target))
    }

    /// The graph is well formed: every node holds its name among its
    /// properties, under `name`; no two nodes of one kind share a name;
    /// every assignment joins two nodes whose kinds one of the seven
    /// assignments joins; every association leads from a user attribute
    /// to an object attribute.
    pub open spec fn valid(self) -> bool {
        &&& forall|i: int|
            0 <= i < self.nodes.len() ==> (#[trigger] self.nodes[i]).properties.contains_pair(
                "name"@,
                self.nodes[i].name,
            )
        &&& forall|i: int, j: int|
            0 <= i < j < self.nodes.len() ==> !((#[trigger] self.nodes[i]).kind == (
            #[trigger] self.nodes[j]).kind && self.nodes[i].name == self.nodes[j].name)
        &&& forall|e: int|
            0 <= e < self.assignments.len() ==> {
                let (origin, target) = #[trigger] self.assignments[e];
                self.has(origin) && self.has(target) && Assignment::allowed(
                    self.nodes[origin].kind,
                    self.nodes[target].kind,
                )
            }
        &&& forall|k: int|
            0 <= k < self.associations.len() ==> self.is_kind(
                (#[trigger] self.associations[k]).origin,
                NodeType::UserAttribute,
            ) && self.is_kind(self.associations[k].target, NodeType::ObjectAttribute)
    }

    /// Whether the node `id` is what the search asks for: it is of the
    /// kind, has the name and the identifier where they are given, and
    /// holds every property asked for.
    pub open spec fn fits(self, id: int, wanted: Wanted) -> bool {
        &&& self.is_kind(id, wanted.kind)
        &&& wanted.name matches Some(name) ==> self.nodes[id].name == name
        &&& wanted.id matches Some(given) ==> given == id
        &&& wanted.properties.submap_of(self.nodes[id].properties)
    }

    /// Whether `id` is the first node that the search asks for.
    pub open spec fn first_fit(self, id: int, wanted: Wanted) -> bool {
        self.fits(id, wanted) && forall|j: int| 0 <= j < id ==> !self.fits(j, wanted)
    }

    /// Whether no node is what the search asks for.
    pub open spec fn none_fits(self, wanted: Wanted) -> bool {
        forall|j: int| 0 <= j < self.nodes.len() ==> !self.fits(j, wanted)
    }

    /// Whether `hops` assignments, one after the other, lead from the
    /// node `from` to the node `to`. Without a hop a node is where it
    /// is.
    pub open spec fn leads_in(self, from: int, to: int, hops: nat) -> bool
        decreases hops,
    {
        if hops == 0 {
            from == to
        } else {
            exists|via: int|
                self.leads_in(from, via, (hops - 1) as nat) && #[trigger] self.assigned(via, to)
        }
    }

    /// Whether assignments lead from the node `from` to the node `to`,
    /// over any number of hops. Every node leads to itself, over none.
    pub open spec fn leads(self, from: int, to: int) -> bool {
        exists|hops: nat| self.leads_in(from, to, hops)
    }

    /// Whether the two attributes are assigned to policy classes of one
    /// name.
    pub open spec fn share_policy_class(self, user_attribute: int, object_attribute: int) -> bool {
        exists|p: int, q: int|
            self.is_kind(p, NodeType::PolicyClass) && self.is_kind(q, NodeType::PolicyClass)
                && #[trigger] self.assigned(user_attribute, p) && #[trigger] self.assigned(
                object_attribute,
                q,
            ) && self.nodes[p].name == self.nodes[q].name
    }

    /// Whether the association `k` lets `subject` perform `operation` on
    /// `object`: its operations hold `operation`, assignments lead from
    /// the subject to its user attribute and from the object to its
    /// object attribute, and the two attributes share a policy class.
    pub open spec fn grants(self, k: int, subject: int, object: int, operation: Seq<char>) -> bool {
        &&& 0 <= k < self.associations.len()
        &&& self.associations[k].operations.contains(operation)
        &&& self.leads(subject, self.associations[k].origin)
        &&& self.leads(object, self.associations[k].target)
        &&& self.share_policy_class(self.associations[k].origin, self.associations[k].target)
    }

    /// Whether the user `subject` may perform `operation` on the object
    /// `object`: some association grants it. In a well-formed graph at
    /// least one assignment lies between a user and a user attribute,
    /// and between an object and an object attribute.
    pub open spec fn authorizes(self, subject: int, object: int, operation: Seq<char>) -> bool {
        &&& self.is_kind(subject, NodeType::User)
        &&& self.is_kind(object, NodeType::Object)
        &&& exists|k: int| self.grants(k, subject, object, operation)
    }

    /// The graph with one more node.
    pub open spec fn with_node(self, node: NodeModel) -> GraphModel {
        GraphModel { nodes: self.nodes.push(node), ..self }
    }

    /// The graph with one more assignment.
    pub open spec fn with_assignment(self, origin: int, target: int) -> GraphModel {
        GraphModel { assignments: self.assignments.push((origin, target)), ..self }
    }

    /// The graph with one more association.
    pub open spec fn with_association(self, association: AssociationModel) -> GraphModel {
        GraphModel { associations: self.associations.push(association), ..self }
    }
}

} // verus!
