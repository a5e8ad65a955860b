//! The policy graph as it is kept, and the operations on it: nodes are
//! written and found, assignments and associations are written, and
//! requests for access are decided.

use crate::bag::bag_clone;
use crate::bag::bag_entries;
use crate::bag::bag_insert;
use crate::bag::holds_all;
use crate::bag::listing;
use crate::bag::no_entries;
use crate::cypher::written_entries;
use crate::cypher::nothing_to_create_with;
use crate::cypher::nothing_to_search_by;
use crate::policy::laws::lemma_created_valid;
use crate::policy::model::AssociationModel;
use crate::policy::model::Decision;
use crate::policy::model::GraphModel;
use crate::policy::model::NodeModel;
use crate::policy::model::Wanted;
use crate::schema::Assignment;
use crate::schema::NodeType;
use crate::schema::NodeTypeObject;
use crate::schema::UserAttribute;
use crate::schema::Vertex;
use crate::schema::VertexTypeObject;
use crate::status::no_user_attribute;
use crate::status::nothing_found;
use crate::status::Code;
use crate::status::Status;
use crate::text::name_view;
use crate::text::string_views;
use pilota::AHashMap;
use pilota::FastStr;
use vstd::prelude::*;

verus! {

/// A node as the graph keeps it.
pub struct StoredNode {
    kind: NodeType,
    name: String,
    properties: AHashMap<FastStr, FastStr>,
}

/// An association as the graph keeps it.
pub struct StoredAssociation {
    origin: usize,
    target: usize,
    operations: Vec<String>,
}

/// The policy graph.
pub struct PolicyGraph {
    nodes: Vec<StoredNode>,
    assignments: Vec<(usize, usize)>,
    associations: Vec<StoredAssociation>,
}

impl StoredNode {
    /// The node as a mathematical value.
    pub closed spec fn model(self) -> NodeModel {
        NodeModel {
            kind: self.kind,
            name: self.name@,
            properties: bag_entries(self.properties),
        }
    }
}

impl StoredAssociation {
    /// The association as a mathematical value.
    pub closed spec fn model(self) -> AssociationModel {
        AssociationModel {
            origin: self.origin as int,
            target: self.target as int,
            operations: Seq::new(self.operations@.len(), |i: int| self.operations@[i]@),
        }
    }
}

impl View for PolicyGraph {
    type V = GraphModel;

    closed spec fn view(&self) -> GraphModel {
        GraphModel {
            nodes: Seq::new(self.nodes@.len(), |i: int| self.nodes@[i].model()),
            assignments: Seq::new(
                self.assignments@.len(),
                |e: int| (self.assignments@[e].0 as int, self.assignments@[e].1 as int),
            ),
            associations: Seq::new(
                self.associations@.len(),
                |k: int| self.associations@[k].model(),
            ),
        }
    }
}

/// The search for a node of `kind` with the given name, identifier and
/// properties.
pub open spec fn wanted(
    kind: NodeType,
    name: Option<&str>,
    id: Option<i64>,
    properties: AHashMap<FastStr, FastStr>,
) -> Wanted {
    Wanted { kind, name: name_view(name), id, properties: bag_entries(properties) }
}

impl PolicyGraph {
    /// Whether the graph is well formed.
    pub open spec fn wf(&self) -> bool {
        self@.valid()
    }

    /// A graph without nodes.
    pub fn new() -> (r: Self)
        ensures
            r.wf(),
            r@.nodes.len() == 0,
            r@.assignments.len() == 0,
            r@.associations.len() == 0,
    {
        PolicyGraph { nodes: Vec::new(), assignments: Vec::new(), associations: Vec::new() }
    }

    /// How many nodes the graph has.
    pub fn node_count(&self) -> (r: usize)
        ensures
            r == self@.nodes.len(),
    {
        self.nodes.len()
    }

    /// The place of the node of `kind` called `name`, if there is one.
    fn position(&self, kind: NodeType, name: &str) -> (r: Option<usize>)
        ensures
            match r {
                Some(i) => self@.is_kind(i as int, kind) && self@.nodes[i as int].name == name@,
                None => !self@.names(kind, name@),
            },
    {
        let sought = String::from_str(name);
        let mut i: usize = 0;
        while i < self.nodes.len()
            invariant
                i <= self.nodes.len(),
                sought@ == name@,
                forall|j: int|
                    0 <= j < i ==> !(self@.is_kind(j, kind) && (#[trigger] self@.nodes[j]).name
                        == name@),
            decreases self.nodes.len() - i,
        {
            if self.nodes[i].kind == kind && self.nodes[i].name == sought {
                return Some(i);
            }
            i = i + 1;
        }
        None
    }

    /// Writes a node. The store gives it the next identifier, which is
    /// returned. The node is kept with what its bag holds and, under
    /// `name`, its name. A node without properties is refused with
    /// `InvalidArgument`, and a second node of one kind and name with
    /// `AlreadyExists`; the graph then stays as it was.
    pub fn create_node(&mut self, node: NodeTypeObject) -> (r: Result<u64, Status>)
        requires
            old(self).wf(),
        ensures
            final(self).wf(),
            node_created(old(self)@, final(self)@, node, r),
    {
        let ghost given = node;
        let (kind, name, properties) = node.into_parts();
        if listing(&properties).len() == 0 {
            return Err(Status::invalid_argument("A node cannot be created without properties!"));
        }
        let mut properties = properties;
        bag_insert(&mut properties, "name", name.as_str());
        if self.position(kind, name.as_str()).is_some() {
            return Err(Status::already_exists("A node of this kind and name exists!"));
        }
        let id = self.nodes.len();
        let ghost before = self@;
        let stored = StoredNode { kind, name, properties };
        self.nodes.push(stored);
        proof {
            assert(self@.nodes =~= before.nodes.push(stored.model()));
            assert(self@.assignments =~= before.assignments);
            assert(self@.associations =~= before.associations);
            assert(self@ == before.with_node(stored.model()));
            lemma_created_valid(before, self@, given, Ok(id as u64));
        }
        Ok(id as u64)
    }

    /// The place of the node `id`, if it is a node of `kind`.
    fn place(&self, id: i64, kind: NodeType) -> (r: Option<usize>)
        ensures
            r is Some <==> self@.is_kind(id as int, kind),
            r matches Some(i) ==> i == id,
    {
        if id < 0 {
            return None;
        }
        let wide = id as u64;
        if wide >= self.nodes.len() as u64 {
            return None;
        }
        let i = wide as usize;
        if self.nodes[i].kind == kind {
            Some(i)
        } else {
            None
        }
    }

    /// Whether the node at place `i` is what the search asks for.
    fn fits_at(
        &self,
        i: usize,
        node_type: NodeType,
        name: Option<&str>,
        id: Option<i64>,
        properties: &AHashMap<FastStr, FastStr>,
    ) -> (r: bool)
        requires
            i < self@.nodes.len(),
        ensures
            r == self@.fits(i as int, wanted(node_type, name, id, *properties)),
    {
        let node = &self.nodes[i];
        if !(node.kind == node_type) {
            return false;
        }
        if let Some(name) = name {
            if !(node.name == String::from_str(name)) {
                return false;
            }
        }
        if let Some(id) = id {
            if id < 0 || id as u64 != i as u64 {
                return false;
            }
        }
        holds_all(&node.properties, properties)
    }

    /// The place of the first node that the search asks for, if there is
    /// one.
    fn first_place(
        &self,
        node_type: NodeType,
        name: Option<&str>,
        id: Option<i64>,
        properties: &AHashMap<FastStr, FastStr>,
    ) -> (r: Option<usize>)
        ensures
            match r {
                Some(i) => self@.first_fit(i as int, wanted(node_type, name, id, *properties)),
                None => self@.none_fits(wanted(node_type, name, id, *properties)),
            },
    {
        let ghost asked = wanted(node_type, name, id, *properties);
        let mut i: usize = 0;
        while i < self.nodes.len()
            invariant
                i <= self.nodes.len(),
                asked == wanted(node_type, name, id, *properties),
                forall|j: int| 0 <= j < i ==> !self@.fits(j, asked),
            decreases self.nodes.len() - i,
        {
            if self.fits_at(i, node_type, name, id, properties) {
                return Some(i);
            }
            i = i + 1;
        }
        None
    }

    /// Finds a node of `node_type` by name, by identifier or by both, and
    /// by the properties in the bag, all of which it must hold. Of
    /// several such nodes the one written first is returned, with its
    /// identifier. Without a name and an identifier the search fails
    /// with `InvalidArgument`; where no node is found, with `NotFound`.
    pub fn search_node(
        &self,
        node_type: NodeType,
        name: Option<&str>,
        id: Option<i64>,
        properties: AHashMap<FastStr, FastStr>,
    ) -> (r: Result<VertexTypeObject, Status>)
        ensures
            node_searched(self@, wanted(node_type, name, id, properties), r),
    {
        if name.is_none() && id.is_none() {
            return Err(Status::invalid_argument("The name and ID cannot both be empty!"));
        }
        match self.first_place(node_type, name, id, &properties) {
            Some(i) => {
                let node = &self.nodes[i];
                proof {
                    assert(self@.nodes[i as int] == node.model());
                }
                Ok(
                    VertexTypeObject::of(
                        node_type,
                        i as u64,
                        node_type.fmt_full(),
                        node.name.clone(),
                        bag_clone(&node.properties),
                    ),
                )
            },
            None => Err(Status::not_found("node not found!")),
        }
    }

    /// Finds a user attribute, as `search_node` finds a node; where none
    /// is found it says so in its own words.
    pub fn search_user_attribute_node(
        &self,
        id: Option<i64>,
        attribute_name: Option<&str>,
        properties: AHashMap<FastStr, FastStr>,
    ) -> (r: Result<Vertex<UserAttribute>, Status>)
        ensures
            searched(
                self@,
                wanted(NodeType::UserAttribute, attribute_name, id, properties),
                match r {
                    Ok(vertex) => Ok(VertexTypeObject::UserAttribute(vertex)),
                    Err(status) => Err(status),
                },
                no_user_attribute(),
            ),
    {
        if attribute_name.is_none() && id.is_none() {
            return Err(Status::invalid_argument("The name and ID cannot both be empty!"));
        }
        match self.first_place(NodeType::UserAttribute, attribute_name, id, &properties) {
            Some(i) => {
                let node = &self.nodes[i];
                proof {
                    assert(self@.nodes[i as int] == node.model());
                }
                Ok(
                    Vertex {
                        id: i as u64,
                        label: NodeType::UserAttribute.fmt_full(),
                        properties: UserAttribute {
                            name: node.name.clone(),
                            properties: bag_clone(&node.properties),
                        },
                    },
                )
            },
            None => Err(Status::not_found("User attribute not found!")),
        }
    }

    /// Writes the edge of an assignment. Both ends must be nodes of the
    /// kinds that the assignment names; where one is not, nothing is
    /// written and the failure is `NotFound`.
    pub fn assignment(&mut self, assignment_combination: Assignment) -> (r: Option<Status>)
        requires
            old(self).wf(),
        ensures
            final(self).wf(),
            assignment_made(old(self)@, final(self)@, assignment_combination, r),
    {
        let (origin_kind, origin_id, target_kind, target_id) = assignment_combination.parts();
        let origin = self.place(origin_id, origin_kind);
        let target = self.place(target_id, target_kind);
        match (origin, target) {
            (Some(origin), Some(target)) => {
                let ghost before = self@;
                self.assignments.push((origin, target));
                proof {
                    assert(self@.nodes =~= before.nodes);
                    assert(self@.associations =~= before.associations);
                    assert(self@.assignments =~= before.assignments.push(
                        (origin as int, target as int),
                    ));
                    assert(self@ == before.with_assignment(origin as int, target as int));
                    assert forall|e: int| 0 <= e < self@.assignments.len() implies {
                        let (a, b) = #[trigger] self@.assignments[e];
                        self@.has(a) && self@.has(b) && Assignment::allowed(
                            self@.nodes[a].kind,
                            self@.nodes[b].kind,
                        )
                    } by {
                        if e < before.assignments.len() {
                            assert(self@.assignments[e] == before.assignments[e]);
                        }
                    }
                }
                None
            },
            _ => Some(Status::not_found("The ends of the assignment were not found!")),
        }
    }

    /// Writes an association: the user attribute grants the operations
    /// on what is under the object attribute. Where one of the two is
    /// not a node of its kind, nothing is written and the failure is
    /// `NotFound`.
    pub fn association(
        &mut self,
        user_attribute_id: i64,
        object_attribute_id: i64,
        operations: Vec<String>,
    ) -> (r: Option<Status>)
        requires
            old(self).wf(),
        ensures
            final(self).wf(),
            association_made(
                old(self)@,
                final(self)@,
                user_attribute_id,
                object_attribute_id,
                string_views(operations@),
                r,
            ),
    {
        let origin = self.place(user_attribute_id, NodeType::UserAttribute);
        let target = self.place(object_attribute_id, NodeType::ObjectAttribute);
        match (origin, target) {
            (Some(origin), Some(target)) => {
                let ghost before = self@;
                let stored = StoredAssociation { origin, target, operations };
                self.associations.push(stored);
                proof {
                    assert(stored.model().operations =~= string_views(operations@));
                    assert(self@.nodes =~= before.nodes);
                    assert(self@.assignments =~= before.assignments);
                    assert(self@.associations =~= before.associations.push(stored.model()));
                    assert(self@ == before.with_association(stored.model()));
                    assert forall|k: int| 0 <= k < self@.associations.len() implies self@.is_kind(
                        (#[trigger] self@.associations[k]).origin,
                        NodeType::UserAttribute,
                    ) && self@.is_kind(self@.associations[k].target, NodeType::ObjectAttribute) by {
                        if k < before.associations.len() {
                            assert(self@.associations[k] == before.associations[k]);
                        }
                    }
                }
                None
            },
            _ => Some(Status::not_found("The ends of the association were not found!")),
        }
    }
}

/// How many of the marks are not set.
spec fn unmarked(marks: Seq<bool>) -> nat
    decreases marks.len(),
{
    if marks.len() == 0 {
        0
    } else {
        unmarked(marks.drop_last()) + if marks.last() {
            0nat
        } else {
            1nat
        }
    }
}

proof fn lemma_one_more_mark(marks: Seq<bool>, i: int)
    requires
        0 <= i < marks.len(),
        !marks[i],
    ensures
        unmarked(marks.update(i, true)) < unmarked(marks),
    decreases marks.len(),
{
    let after = marks.update(i, true);
    if i == marks.len() - 1 {
        assert(after.drop_last() =~= marks.drop_last());
    } else {
        assert(after.drop_last() =~= marks.drop_last().update(i, true));
        lemma_one_more_mark(marks.drop_last(), i);
    }
}

/// Whether the marks are closed under the assignments of `graph`: where
/// the origin of an assignment is marked, so is its target.
spec fn closed_marks(graph: GraphModel, marks: Seq<bool>, upto: int) -> bool {
    forall|e: int|
        0 <= e < upto ==> (marks[(#[trigger] graph.assignments[e]).0] ==> marks[graph.assignments[e].1])
}

proof fn lemma_closed_marks_hold(
    graph: GraphModel,
    marks: Seq<bool>,
    start: int,
    to: int,
    hops: nat,
)
    requires
        graph.valid(),
        marks.len() == graph.nodes.len(),
        graph.has(start),
        marks[start],
        closed_marks(graph, marks, graph.assignments.len() as int),
        graph.leads_in(start, to, hops),
    ensures
        graph.has(to),
        marks[to],
    decreases hops,
{
    if hops > 0 {
        let via = choose|via: int|
            graph.leads_in(start, via, (hops - 1) as nat) && #[trigger] graph.assigned(via, to);
        lemma_closed_marks_hold(graph, marks, start, via, (hops - 1) as nat);
        let e = choose|e: int|
            0 <= e < graph.assignments.len() && graph.assignments[e] == (via, to);
        assert(marks[graph.assignments[e].0]);
    }
}

impl PolicyGraph {
    /// For each node, whether assignments lead to it from the node at
    /// place `start`.
    fn reached_from(&self, start: usize) -> (marks: Vec<bool>)
        requires
            self.wf(),
            start < self@.nodes.len(),
        ensures
            marks.len() == self@.nodes.len(),
            forall|v: int| 0 <= v < marks.len() ==> (marks[v] <==> self@.leads(start as int, v)),
            forall|v: int| self@.leads(start as int, v) ==> self@.has(v),
    {
        let n = self.nodes.len();
        let mut marks: Vec<bool> = Vec::new();
        let mut i: usize = 0;
        while i < n
            invariant
                i <= n,
                marks.len() == i,
                forall|j: int| 0 <= j < i ==> marks[j] == (j == start),
            decreases n - i,
        {
            marks.push(i == start);
            i = i + 1;
        }
        assert(self@.leads_in(start as int, start as int, 0));
        let mut changed = true;
        while changed
            invariant
                self.wf(),
                n == self@.nodes.len(),
                start < n,
                marks.len() == n,
                marks[start as int],
                forall|v: int| 0 <= v < n && marks[v] ==> self@.leads(start as int, v),
                !changed ==> closed_marks(self@, marks@, self@.assignments.len() as int),
            decreases
                    unmarked(marks@) + if changed {
                        1nat
                    } else {
                        0nat
                    },
        {
            changed = false;
            let ghost before = unmarked(marks@);
            let mut e: usize = 0;
            while e < self.assignments.len()
                invariant
                    self.wf(),
                    n == self@.nodes.len(),
                    start < n,
                    marks.len() == n,
                    marks[start as int],
                    e <= self.assignments.len(),
                    self.assignments.len() == self@.assignments.len(),
                    forall|v: int| 0 <= v < n && marks[v] ==> self@.leads(start as int, v),
                    unmarked(marks@) <= before,
                    changed ==> unmarked(marks@) < before,
                    !changed ==> closed_marks(self@, marks@, e as int),
                decreases self.assignments.len() - e,
            {
                let (origin, target) = self.assignments[e];
                proof {
                    assert(self@.assignments[e as int] == (origin as int, target as int));
                    assert(self@.has(origin as int) && self@.has(target as int));
                }
                if marks[origin] && !marks[target] {
                    proof {
                        lemma_one_more_mark(marks@, target as int);
                        let hops = choose|hops: nat|
                            self@.leads_in(start as int, origin as int, hops);
                        assert(self@.assigned(origin as int, target as int));
                        assert(self@.leads_in(start as int, target as int, hops + 1));
                    }
                    marks.set(target, true);
                    changed = true;
                }
                e = e + 1;
            }
        }
        proof {
            assert forall|v: int| self@.leads(start as int, v) implies self@.has(v) && marks[v] by {
                let hops = choose|hops: nat| self@.leads_in(start as int, v, hops);
                lemma_closed_marks_hold(self@, marks@, start as int, v, hops);
            }
        }
        marks
    }

    /// Whether the operations hold `operation`.
    fn holds_operation(operations: &Vec<String>, operation: &str) -> (r: bool)
        ensures
            r == string_views(operations@).contains(operation@),
    {
        let ghost views = string_views(operations@);
        let sought = String::from_str(operation);
        let mut i: usize = 0;
        while i < operations.len()
            invariant
                i <= operations.len(),
                sought@ == operation@,
                views == string_views(operations@),
                forall|j: int| 0 <= j < i ==> views[j] != operation@,
            decreases operations.len() - i,
        {
            if operations[i] == sought {
                assert(views[i as int] == operation@);
                return true;
            }
            i = i + 1;
        }
        false
    }

    /// Whether the assignments at the places `x` and `y` assign the two
    /// attributes to policy classes of one name.
    spec fn classes_agree(self, x: int, y: int, user_attribute: int, object_attribute: int) -> bool {
        let (a, p) = self@.assignments[x];
        let (b, q) = self@.assignments[y];
        a == user_attribute && b == object_attribute && self@.is_kind(p, NodeType::PolicyClass)
            && self@.is_kind(q, NodeType::PolicyClass) && self@.nodes[p].name
            == self@.nodes[q].name
    }

    /// Whether the two attributes are assigned to policy classes of one
    /// name.
    fn share_policy_class(&self, user_attribute: usize, object_attribute: usize) -> (r: bool)
        requires
            self.wf(),
        ensures
            r == self@.share_policy_class(user_attribute as int, object_attribute as int),
    {
        let count = self.assignments.len();
        let ghost ua = user_attribute as int;
        let ghost oa = object_attribute as int;
        let mut x: usize = 0;
        while x < count
            invariant
                self.wf(),
                count == self.assignments.len(),
                count == self@.assignments.len(),
                x <= count,
                ua == user_attribute,
                oa == object_attribute,
                forall|i: int, j: int|
                    0 <= i < x && 0 <= j < count ==> !self.classes_agree(i, j, ua, oa),
            decreases count - x,
        {
            let (a, p) = self.assignments[x];
            proof {
                assert(self@.assignments[x as int] == (a as int, p as int));
                assert(self@.has(p as int));
            }
            if a == user_attribute && self.nodes[p].kind == NodeType::PolicyClass {
                let mut y: usize = 0;
                while y < count
                    invariant
                        self.wf(),
                        count == self.assignments.len(),
                        count == self@.assignments.len(),
                        x < count,
                        y <= count,
                        ua == user_attribute,
                        oa == object_attribute,
                        self@.assignments[x as int] == (a as int, p as int),
                        self@.is_kind(p as int, NodeType::PolicyClass),
                        a == user_attribute,
                        forall|j: int| 0 <= j < y ==> !self.classes_agree(x as int, j, ua, oa),
                    decreases count - y,
                {
                    let (b, q) = self.assignments[y];
                    proof {
                        assert(self@.assignments[y as int] == (b as int, q as int));
                        assert(self@.has(q as int));
                    }
                    if b == object_attribute && self.nodes[q].kind == NodeType::PolicyClass
                        && self.nodes[p].name == self.nodes[q].name {
                        proof {
                            assert(self@.assigned(ua, p as int));
                            assert(self@.assigned(oa, q as int));
                        }
                        return true;
                    }
                    y = y + 1;
                }
            }
            x = x + 1;
        }
        proof {
            if self@.share_policy_class(ua, oa) {
                let (p, q) = choose|p: int, q: int|
                    self@.is_kind(p, NodeType::PolicyClass) && self@.is_kind(
                        q,
                        NodeType::PolicyClass,
                    ) && #[trigger] self@.assigned(ua, p) && #[trigger] self@.assigned(oa, q)
                        && self@.nodes[p].name == self@.nodes[q].name;
                let i = choose|i: int|
                    0 <= i < self@.assignments.len() && self@.assignments[i] == (ua, p);
                let j = choose|j: int|
                    0 <= j < self@.assignments.len() && self@.assignments[j] == (oa, q);
                assert(self.classes_agree(i, j, ua, oa));
            }
        }
        false
    }

    /// Decides whether the user `subject_id` may perform `operation` on
    /// the object `object_id`. Access is granted where some association
    /// grants it: one whose operations hold `operation`, whose user
    /// attribute the subject reaches over assignments, whose object
    /// attribute the object reaches over assignments, and whose two
    /// attributes are assigned to policy classes of one name. How long
    /// the paths are makes no difference, and assignments that run in
    /// a circle do no harm: the decision asks only whether a path is
    /// there. Why access is denied is not told.
    pub fn authorized(&self, subject_id: i64, object_id: i64, operation: &str) -> (r: Decision)
        requires
            self.wf(),
        ensures
            r == Decision::Granted <==> self@.authorizes(
                subject_id as int,
                object_id as int,
                operation@,
            ),
            r == Decision::Granted || r == Decision::Denied,
    {
        let subject = match self.place(subject_id, NodeType::User) {
            Some(subject) => subject,
            None => {
                return Decision::Denied;
            },
        };
        let object = match self.place(object_id, NodeType::Object) {
            Some(object) => object,
            None => {
                return Decision::Denied;
            },
        };
        let from_subject = self.reached_from(subject);
        let from_object = self.reached_from(object);
        let mut k: usize = 0;
        while k < self.associations.len()
            invariant
                self.wf(),
                k <= self.associations.len(),
                self.associations.len() == self@.associations.len(),
                subject == subject_id,
                object == object_id,
                self@.is_kind(subject as int, NodeType::User),
                self@.is_kind(object as int, NodeType::Object),
                from_subject.len() == self@.nodes.len(),
                from_object.len() == self@.nodes.len(),
                forall|v: int|
                    0 <= v < from_subject.len() ==> (from_subject[v] <==> self@.leads(
                        subject as int,
                        v,
                    )),
                forall|v: int|
                    0 <= v < from_object.len() ==> (from_object[v] <==> self@.leads(
                        object as int,
                        v,
                    )),
                forall|j: int|
                    0 <= j < k ==> !self@.grants(j, subject as int, object as int, operation@),
            decreases self.associations.len() - k,
        {
            let association = &self.associations[k];
            proof {
                assert(self@.associations[k as int] == association.model());
                assert(self@.is_kind(association.origin as int, NodeType::UserAttribute));
                assert(self@.is_kind(association.target as int, NodeType::ObjectAttribute));
            }
            if from_subject[association.origin] && from_object[association.target]
                && Self::holds_operation(&association.operations, operation)
                && self.share_policy_class(association.origin, association.target) {
                proof {
                    assert(self@.grants(k as int, subject as int, object as int, operation@));
                }
                return Decision::Granted;
            }
            k = k + 1;
        }
        Decision::Denied
    }
}

/// What a search answers: the outcome `r` of the search for `wanted` in
/// `graph`, where `missing` is what is said if nothing is found.
pub open spec fn searched(
    graph: GraphModel,
    wanted: Wanted,
    r: Result<VertexTypeObject, Status>,
    missing: Seq<char>,
) -> bool {
    match r {
        Ok(vertex) => {
            let id = vertex.ident() as int;
            &&& wanted.name is Some || wanted.id is Some
            &&& graph.first_fit(id, wanted)
            &&& vertex.kind() == wanted.kind
            &&& vertex.label() == wanted.kind.label()
            &&& vertex.name() == graph.nodes[id].name
            &&& bag_entries(vertex.properties()) == graph.nodes[id].properties
        },
        Err(status) => if wanted.name is None && wanted.id is None {
            status.code == Code::InvalidArgument && status.message@ == nothing_to_search_by()
        } else {
            graph.none_fits(wanted) && status.code == Code::NotFound && status.message@
                == missing
        },
    }
}

/// What `search_node` answers: the outcome `r` of the search for
/// `wanted` in `graph`.
pub open spec fn node_searched(
    graph: GraphModel,
    wanted: Wanted,
    r: Result<VertexTypeObject, Status>,
) -> bool {
    searched(graph, wanted, r, nothing_found())
}

/// The message of an assignment whose ends are not there.
pub open spec fn no_assignment_ends() -> Seq<char> {
    "The ends of the assignment were not found!"@
}

/// The message of an association whose ends are not there.
pub open spec fn no_association_ends() -> Seq<char> {
    "The ends of the association were not found!"@
}

/// What `assignment` does to a graph.
pub open spec fn assignment_made(
    pre: GraphModel,
    post: GraphModel,
    assignment: Assignment,
    r: Option<Status>,
) -> bool {
    let origin = assignment.ends().0 as int;
    let target = assignment.ends().1 as int;
    let found = pre.is_kind(origin, assignment.origin_kind()) && pre.is_kind(
        target,
        assignment.target_kind(),
    );
    match r {
        None => found && post == pre.with_assignment(origin, target),
        Some(status) => !found && post == pre && status.code == Code::NotFound && status.message@
            == no_assignment_ends(),
    }
}

/// What `association` does to a graph.
pub open spec fn association_made(
    pre: GraphModel,
    post: GraphModel,
    user_attribute: i64,
    object_attribute: i64,
    operations: Seq<Seq<char>>,
    r: Option<Status>,
) -> bool {
    let found = pre.is_kind(user_attribute as int, NodeType::UserAttribute) && pre.is_kind(
        object_attribute as int,
        NodeType::ObjectAttribute,
    );
    match r {
        None => found && post == pre.with_association(
            AssociationModel {
                origin: user_attribute as int,
                target: object_attribute as int,
                operations,
            },
        ),
        Some(status) => !found && post == pre && status.code == Code::NotFound && status.message@
            == no_association_ends(),
    }
}

/// The message of a creation that finds its node already there.
pub open spec fn already_there() -> Seq<char> {
    "A node of this kind and name exists!"@
}

/// What `create_node` does to a graph: the outcome `r` of writing `node`
/// to the graph `pre`, and the graph `post` that is left.
pub open spec fn node_created(
    pre: GraphModel,
    post: GraphModel,
    node: NodeTypeObject,
    r: Result<u64, Status>,
) -> bool {
    let entries = bag_entries(node.properties());
    match r {
        Ok(id) => {
            &&& entries != no_entries()
            &&& !pre.names(node.kind(), node.name())
            &&& id == pre.nodes.len()
            &&& post == pre.with_node(
                NodeModel {
                    kind: node.kind(),
                    name: node.name(),
                    properties: written_entries(node),
                },
            )
        },
        Err(status) => {
            &&& post == pre
            &&& if entries == no_entries() {
                status.code == Code::InvalidArgument && status.message@
                    == nothing_to_create_with()
            } else {
                pre.names(node.kind(), node.name()) && status.code == Code::AlreadyExists
                    && status.message@ == already_there()
            }
        },
    }
}

} // verus!
