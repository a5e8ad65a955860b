//! What follows from the operations on a policy graph.

use crate::bag::bag_entries;
use crate::cypher::written_entries;
use crate::bag::no_entries;
use crate::policy::graph::node_created;
use crate::policy::graph::node_searched;
use crate::policy::model::GraphModel;
use crate::policy::model::Wanted;
use crate::schema::Assignment;
use crate::schema::NodeType;
use crate::schema::NodeTypeObject;
use crate::schema::VertexTypeObject;
use crate::status::Code;
use crate::status::Status;
use vstd::prelude::*;

verus! {

/// Writing a node keeps a well-formed graph well formed.
pub proof fn lemma_created_valid(
    pre: GraphModel,
    post: GraphModel,
    node: NodeTypeObject,
    r: Result<u64, Status>,
)
    requires
        pre.valid(),
        node_created(pre, post, node, r),
    ensures
        post.valid(),
{
    if r is Ok {
        let id = pre.nodes.len() as int;
        assert forall|i: int| 0 <= i < post.nodes.len() implies (
        #[trigger] post.nodes[i]).properties.contains_pair("name"@, post.nodes[i].name) by {
            if i < id {
                assert(post.nodes[i] == pre.nodes[i]);
            }
        }
        assert forall|i: int, j: int| 0 <= i < j < post.nodes.len() implies !((
        #[trigger] post.nodes[i]).kind == (#[trigger] post.nodes[j]).kind && post.nodes[i].name
            == post.nodes[j].name) by {
            assert(post.nodes[i] == pre.nodes[i]);
            if j == id && pre.nodes[i].kind == node.kind() && pre.nodes[i].name == node.name() {
                assert(pre.is_kind(i, node.kind()));
                assert(pre.names(node.kind(), node.name()));
            } else if j < id {
                assert(post.nodes[j] == pre.nodes[j]);
            }
        }
        assert forall|e: int| 0 <= e < post.assignments.len() implies {
            let (origin, target) = #[trigger] post.assignments[e];
            post.has(origin) && post.has(target) && Assignment::allowed(
                post.nodes[origin].kind,
                post.nodes[target].kind,
            )
        } by {
            let (origin, target) = pre.assignments[e];
            assert(pre.has(origin) && pre.has(target));
            assert(post.nodes[origin] == pre.nodes[origin]);
            assert(post.nodes[target] == pre.nodes[target]);
        }
        assert forall|k: int| 0 <= k < post.associations.len() implies post.is_kind(
            (#[trigger] post.associations[k]).origin,
            NodeType::UserAttribute,
        ) && post.is_kind(post.associations[k].target, NodeType::ObjectAttribute) by {
            let a = pre.associations[k];
            assert(pre.is_kind(a.origin, NodeType::UserAttribute));
            assert(pre.is_kind(a.target, NodeType::ObjectAttribute));
            assert(post.nodes[a.origin] == pre.nodes[a.origin]);
            assert(post.nodes[a.target] == pre.nodes[a.target]);
        }
    }
}

/// Whether exactly one node of `kind` is called `name`.
pub open spec fn names_once(graph: GraphModel, kind: NodeType, name: Seq<char>) -> bool {
    exists|i: int|
        graph.is_kind(i, kind) && (#[trigger] graph.nodes[i]).name == name && forall|j: int|
            graph.is_kind(j, kind) && (#[trigger] graph.nodes[j]).name == name ==> j == i
}

/// Writing a node of one kind and name twice, each time with
/// properties, leaves exactly one node of that kind and name: the second
/// attempt fails with `AlreadyExists` and changes nothing.
pub proof fn law_second_creation_fails(
    start: GraphModel,
    between: GraphModel,
    end: GraphModel,
    first: NodeTypeObject,
    second: NodeTypeObject,
    r1: Result<u64, Status>,
    r2: Result<u64, Status>,
)
    requires
        start.valid(),
        second.kind() == first.kind(),
        second.name() == first.name(),
        bag_entries(first.properties()) != no_entries(),
        bag_entries(second.properties()) != no_entries(),
        node_created(start, between, first, r1),
        node_created(between, end, second, r2),
    ensures
        r2 matches Err(status) && status.code == Code::AlreadyExists,
        end == between,
        names_once(end, first.kind(), first.name()),
{
    lemma_created_valid(start, between, first, r1);
    let kind = first.kind();
    let name = first.name();
    if r1 is Ok {
        let id = start.nodes.len() as int;
        assert(between.is_kind(id, kind) && between.nodes[id].name == name);
    }
    assert(between.names(kind, name));
    let i = choose|i: int| between.is_kind(i, kind) && (#[trigger] between.nodes[i]).name == name;
    assert forall|j: int|
        between.is_kind(j, kind) && (#[trigger] between.nodes[j]).name == name implies j == i by {
        if j < i {
            assert(!(between.nodes[j].kind == between.nodes[i].kind && between.nodes[j].name
                == between.nodes[i].name));
        } else if i < j {
            assert(!(between.nodes[i].kind == between.nodes[j].kind && between.nodes[i].name
                == between.nodes[j].name));
        }
    }
}

/// A node that was written is found by its kind and its name, alone or
/// with any of the properties that it was written with, and what is found has the name and the
/// identifier that the node was written with.
pub proof fn law_created_node_is_found(
    before: GraphModel,
    after: GraphModel,
    node: NodeTypeObject,
    created: Result<u64, Status>,
    asked: Wanted,
    found: Result<VertexTypeObject, Status>,
)
    requires
        before.valid(),
        node_created(before, after, node, created),
        created is Ok,
        asked.kind == node.kind(),
        asked.name == Some(node.name()),
        asked.id is None,
        asked.properties.submap_of(written_entries(node)),
        node_searched(after, asked, found),
    ensures
        found is Ok,
        found->Ok_0.name() == node.name(),
        found->Ok_0.ident() == created->Ok_0,
{
    lemma_created_valid(before, after, node, created);
    let id = before.nodes.len() as int;
    assert(after.fits(id, asked));
    match found {
        Ok(vertex) => {
            let i = vertex.ident() as int;
            assert(after.fits(i, asked));
            if i < id {
                assert(!(after.nodes[i].kind == after.nodes[id].kind && after.nodes[i].name
                    == after.nodes[id].name));
            } else if id < i {
                assert(!(after.nodes[id].kind == after.nodes[i].kind && after.nodes[id].name
                    == after.nodes[i].name));
            }
        },
        Err(_) => {},
    }
}

/// Where a user is assigned to a user attribute and an object to an
/// object attribute, both attributes are assigned to one policy class,
/// and an association from the one attribute to the other holds an
/// operation, the user may perform that operation on the object.
pub proof fn law_shared_class_grants(
    graph: GraphModel,
    user: int,
    user_attribute: int,
    object: int,
    object_attribute: int,
    policy_class: int,
    k: int,
    operation: Seq<char>,
)
    requires
        graph.is_kind(user, NodeType::User),
        graph.is_kind(object, NodeType::Object),
        graph.is_kind(policy_class, NodeType::PolicyClass),
        graph.assigned(user, user_attribute),
        graph.assigned(object, object_attribute),
        graph.assigned(user_attribute, policy_class),
        graph.assigned(object_attribute, policy_class),
        0 <= k < graph.associations.len(),
        graph.associations[k].origin == user_attribute,
        graph.associations[k].target == object_attribute,
        graph.associations[k].operations.contains(operation),
    ensures
        graph.authorizes(user, object, operation),
{
    assert(graph.leads_in(user, user, 0));
    assert(graph.leads_in(user, user_attribute, 1));
    assert(graph.leads_in(object, object, 0));
    assert(graph.leads_in(object, object_attribute, 1));
    assert(graph.share_policy_class(user_attribute, object_attribute));
    assert(graph.grants(k, user, object, operation));
}

/// Where, for every association that holds an operation, the policy
/// classes that its user attribute is assigned to all differ in name
/// from those that its object attribute is assigned to, nobody may
/// perform that operation on anything.
pub proof fn law_unshared_class_denies(
    graph: GraphModel,
    user: int,
    object: int,
    operation: Seq<char>,
)
    requires
        forall|k: int, p: int, q: int|
            0 <= k < graph.associations.len() && graph.associations[k].operations.contains(
                operation,
            ) && graph.is_kind(p, NodeType::PolicyClass) && graph.is_kind(
                q,
                NodeType::PolicyClass,
            ) && #[trigger] graph.assigned(graph.associations[k].origin, p)
                && #[trigger] graph.assigned(graph.associations[k].target, q)
                ==> graph.nodes[p].name != graph.nodes[q].name,
    ensures
        !graph.authorizes(user, object, operation),
{
    if graph.authorizes(user, object, operation) {
        let k = choose|k: int| graph.grants(k, user, object, operation);
        let a = graph.associations[k];
        let (p, q) = choose|p: int, q: int|
            graph.is_kind(p, NodeType::PolicyClass) && graph.is_kind(q, NodeType::PolicyClass)
                && #[trigger] graph.assigned(a.origin, p) && #[trigger] graph.assigned(
                a.target,
                q,
            ) && graph.nodes[p].name == graph.nodes[q].name;
        assert(graph.nodes[p].name != graph.nodes[q].name);
    }
}

/// Where no association holds an operation, nobody may perform that
/// operation on anything.
pub proof fn law_missing_operation_denies(
    graph: GraphModel,
    user: int,
    object: int,
    operation: Seq<char>,
)
    requires
        forall|k: int|
            0 <= k < graph.associations.len() ==> !(
            #[trigger] graph.associations[k]).operations.contains(operation),
    ensures
        !graph.authorizes(user, object, operation),
{
    if graph.authorizes(user, object, operation) {
        let k = choose|k: int| graph.grants(k, user, object, operation);
        assert(graph.associations[k].operations.contains(operation));
    }
}

/// The length of the paths decides nothing: an association that holds
/// the operation and whose attributes share a policy class grants it,
/// whatever the number of assignments from the user to the one attribute
/// and from the object to the other.
pub proof fn law_path_length_is_immaterial(
    graph: GraphModel,
    user: int,
    object: int,
    k: int,
    operation: Seq<char>,
    user_hops: nat,
    object_hops: nat,
)
    requires
        graph.is_kind(user, NodeType::User),
        graph.is_kind(object, NodeType::Object),
        0 <= k < graph.associations.len(),
        graph.associations[k].operations.contains(operation),
        graph.leads_in(user, graph.associations[k].origin, user_hops),
        graph.leads_in(object, graph.associations[k].target, object_hops),
        graph.share_policy_class(graph.associations[k].origin, graph.associations[k].target),
    ensures
        graph.authorizes(user, object, operation),
{
    assert(graph.grants(k, user, object, operation));
}

} // verus!
