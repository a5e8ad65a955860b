//! The query builder: the text of the queries that create and find nodes
//! and edges. Every function here is pure. Kinds of node and edge come
//! from a closed vocabulary. What a caller gives is held apart from the
//! query around it: a name or a value is written as a quoted literal
//! that it cannot leave, and a key that holds anything but letters,
//! digits and underscores is refused with `InvalidArgument`.

use crate::bag::bag_entries;
use crate::bag::bag_clone;
use crate::bag::bag_insert;
use crate::bag::entry_views;
use crate::bag::listing;
use crate::bag::lists;
use crate::bag::Entry;
use crate::literal::all_keys_plain;
use crate::literal::escape;
use crate::literal::escaped;
use crate::literal::is_key;
use crate::literal::key_refused;
use crate::literal::keys_are_plain;
use crate::literal::lemma_listed_keys;
use crate::literal::listed_keys_are_plain;
use crate::schema::Assignment;
use crate::schema::NodeType;
use crate::schema::NodeTypeObject;
use crate::schema::ASSIGNMENT;
use crate::schema::ASSOCIATION;
use crate::status::Code;
use crate::status::Status;
use crate::text::decimal_string;
use crate::text::name_view;
use crate::text::signed_decimal;
use crate::text::string_views;
use crate::text::text_view;
use pilota::AHashMap;
use pilota::FastStr;
use vstd::prelude::*;

verus! {

/// The functions of the query language that the builder uses.
pub struct OpenCypherFunc;

impl OpenCypherFunc {
    /// The call that gives the identifier of the node bound to `node`.
    pub open spec fn id_text(node: Seq<char>) -> Seq<char> {
        "id("@ + node + ")"@
    }

    /// `id(node)`.
    pub fn id(node: &str) -> (r: String)
        ensures
            r@ == Self::id_text(node@),
    {
        let mut r = String::from_str("id(");
        r.append(node);
        r.append(")");
        r
    }
}

/// One more condition of a `WHERE` clause: the node bound to `alias` has
/// the value of `entry` under its key.
pub open spec fn condition_text(alias: Seq<char>, entry: Entry) -> Seq<char> {
    " AND "@ + alias + "."@ + entry.0 + " = '"@ + escaped(entry.1) + "'"@
}

/// The conditions of all entries, in the order of `entries`.
pub open spec fn conditions_text(alias: Seq<char>, entries: Seq<Entry>) -> Seq<char>
    decreases entries.len(),
{
    if entries.len() == 0 {
        Seq::empty()
    } else {
        conditions_text(alias, entries.drop_last()) + condition_text(alias, entries.last())
    }
}

/// An entry as it stands inside a property map: `key: 'value'`.
pub open spec fn pair_text(entry: Entry) -> Seq<char> {
    entry.0 + ": '"@ + escaped(entry.1) + "'"@
}

/// The entries of a property map, separated by a comma and a space.
pub open spec fn joined_pairs(entries: Seq<Entry>) -> Seq<char>
    decreases entries.len(),
{
    if entries.len() == 0 {
        Seq::empty()
    } else if entries.len() == 1 {
        pair_text(entries[0])
    } else {
        joined_pairs(entries.drop_last()) + ", "@ + pair_text(entries.last())
    }
}

/// The inside of a property map, with a space at either end; none for no
/// entries.
pub open spec fn property_map_text(entries: Seq<Entry>) -> Option<Seq<char>> {
    if entries.len() == 0 {
        None
    } else {
        Some(" "@ + joined_pairs(entries) + " "@)
    }
}

/// The query that creates a node of `kind` with the given properties.
pub open spec fn create_node_text(kind: NodeType, entries: Seq<Entry>) -> Seq<char>
    recommends
        entries.len() > 0,
{
    "CREATE ("@ + kind.alias() + ": "@ + kind.label() + " {"@ + property_map_text(entries)->0
        + "}) "@
}

/// The variable that stands for the target of an edge or of a path: the
/// alias of its kind and, where the origin is of the same kind and so
/// bears that alias, the alias followed by `2`.
pub open spec fn target_variable(origin: NodeType, target: NodeType) -> Seq<char> {
    if origin == target {
        target.alias() + "2"@
    } else {
        target.alias()
    }
}

/// The type of the edges that assign a node to an attribute or to a
/// policy class.
pub open spec fn assignment_type() -> Seq<char> {
    "Assignment"@
}

/// The type of the edges that grant operations.
pub open spec fn association_type() -> Seq<char> {
    "Association"@
}

/// The part of an edge query that finds both ends by their identifiers,
/// each under a variable of its own.
pub open spec fn ends_match_text(
    origin: NodeType,
    origin_id: i64,
    target: NodeType,
    target_id: i64,
) -> Seq<char> {
    "MATCH ("@ + origin.alias() + ": "@ + origin.label() + "), ("@ + target_variable(
        origin,
        target,
    ) + ": "@ + target.label() + ") WHERE "@ + OpenCypherFunc::id_text(origin.alias()) + " = "@
        + signed_decimal(origin_id as int) + " AND "@ + OpenCypherFunc::id_text(
        target_variable(origin, target),
    ) + " = "@ + signed_decimal(target_id as int)
}

/// The query that finds two nodes by their identifiers, creates an edge
/// of the given type from the first to the second, and returns the edge.
/// Without entries the edge carries no property map.
pub open spec fn edge_text(
    edge_type: Seq<char>,
    origin: NodeType,
    origin_id: i64,
    target: NodeType,
    target_id: i64,
    entries: Seq<Entry>,
) -> Seq<char> {
    let found = ends_match_text(origin, origin_id, target, target_id);
    match property_map_text(entries) {
        Some(map) => found + " CREATE ("@ + origin.alias() + ")-[r:"@ + edge_type + " {"@ + map
            + "}]->("@ + target_variable(origin, target) + ") RETURN r"@,
        None => found + " CREATE ("@ + origin.alias() + ")-[r:"@ + edge_type + "]->("@
            + target_variable(origin, target) + ") RETURN r"@,
    }
}

/// The query that creates an assignment edge with the given entries.
pub open spec fn assignment_edge_text(
    origin: NodeType,
    origin_id: i64,
    target: NodeType,
    target_id: i64,
    entries: Seq<Entry>,
) -> Seq<char> {
    edge_text(assignment_type(), origin, origin_id, target, target_id, entries)
}

/// The operations of an association as a list: each in quotes, with a
/// comma and a space between them.
pub open spec fn quoted_list(items: Seq<Seq<char>>) -> Seq<char>
    decreases items.len(),
{
    if items.len() == 0 {
        Seq::empty()
    } else if items.len() == 1 {
        "'"@ + escaped(items[0]) + "'"@
    } else {
        quoted_list(items.drop_last()) + ", '"@ + escaped(items.last()) + "'"@
    }
}

/// The query that creates the association by which the user attribute
/// `user_attribute_id` grants the operations on what is under the object
/// attribute `object_attribute_id`: an association edge whose property
/// `ops` lists the operations.
pub open spec fn granting_text(
    user_attribute_id: i64,
    object_attribute_id: i64,
    operations: Seq<Seq<char>>,
) -> Seq<char> {
    ends_match_text(
        NodeType::UserAttribute,
        user_attribute_id,
        NodeType::ObjectAttribute,
        object_attribute_id,
    ) + " CREATE ("@ + NodeType::UserAttribute.alias() + ")-[r:"@ + association_type()
        + " { ops: ["@ + quoted_list(operations) + "] }]->("@ + NodeType::ObjectAttribute.alias()
        + ") RETURN r"@
}

/// A node of `kind` in a pattern, under the alias of its kind.
pub open spec fn node_pattern(kind: NodeType) -> Seq<char> {
    "("@ + kind.alias() + ": "@ + kind.label() + ")"@
}

/// The query that decides whether the user `subject_id` may perform
/// `operation` on the object `object_id`. It looks for a path from the
/// user over any number of edges to a user attribute, from there over an
/// association whose operations hold `operation` to an object attribute,
/// which the object reaches over any number of edges, where both
/// attributes are assigned to policy classes of one name. It returns the
/// shortest such path, and no row where there is none. Nodes and edges
/// are named as the queries of this module create them.
pub open spec fn authorization_text(subject_id: i64, object_id: i64, operation: Seq<char>) -> Seq<
    char,
> {
    "MATCH path = "@ + node_pattern(NodeType::User) + "-[*]->"@ + node_pattern(
        NodeType::UserAttribute,
    ) + "-[r:"@ + association_type() + "]->"@ + node_pattern(NodeType::ObjectAttribute)
        + "<-[*]-"@ + node_pattern(NodeType::Object) + " WHERE "@ + OpenCypherFunc::id_text(
        NodeType::User.alias(),
    ) + " = "@ + signed_decimal(subject_id as int) + " AND "@ + OpenCypherFunc::id_text(
        NodeType::Object.alias(),
    ) + " = "@ + signed_decimal(object_id as int) + " AND '"@ + escaped(operation)
        + "' IN r.ops MATCH ("@ + NodeType::UserAttribute.alias() + ")-[:"@ + assignment_type()
        + "]->(pc1: "@ + NodeType::PolicyClass.label() + ") MATCH ("@
        + NodeType::ObjectAttribute.alias() + ")-[:"@ + assignment_type() + "]->(pc2: "@
        + NodeType::PolicyClass.label()
        + ") WHERE pc1.name = pc2.name RETURN path, pc1, o, oa, u, ua, r ORDER BY length(path) LIMIT 1"@
}

/// The query that finds a node of `kind` by name, by identifier or by
/// both, and by the given properties. It is asked only with a name or an
/// identifier.
pub open spec fn search_node_text(
    kind: NodeType,
    name: Option<Seq<char>>,
    id: Option<i64>,
    entries: Seq<Entry>,
) -> Seq<char>
    recommends
        name is Some || id is Some,
{
    let conditions = conditions_text(kind.alias(), entries);
    match (name, id) {
        (Some(name), Some(id)) => "MATCH ("@ + kind.alias() + ": "@ + kind.label()
            + " { name: '"@ + escaped(name) + "' }) WHERE "@ + OpenCypherFunc::id_text(kind.alias())
            + " = "@ + signed_decimal(id as int) + conditions + " RETURN "@ + kind.alias(),
        (Some(name), None) => "MATCH ("@ + kind.alias() + ": "@ + kind.label() + ") WHERE "@
            + kind.alias() + ".name = '"@ + escaped(name) + "'"@ + conditions + " RETURN "@ + kind.alias(),
        (None, Some(id)) => "MATCH ("@ + kind.alias() + ": "@ + kind.label() + ") WHERE "@
            + OpenCypherFunc::id_text(kind.alias()) + " = "@ + signed_decimal(id as int)
            + conditions + " RETURN "@ + kind.alias(),
        (None, None) => Seq::empty(),
    }
}

/// How many edges a traversal may follow: one, or any number.
pub open spec fn hops_text(adjacent: bool) -> Seq<char> {
    if adjacent {
        ""@
    } else {
        "*"@
    }
}

/// The name of the target inside its pattern, where a name is given.
pub open spec fn named_text(name: Option<Seq<char>>) -> Seq<char> {
    match name {
        Some(name) => " { name: '"@ + escaped(name) + "' }"@,
        None => ""@,
    }
}

/// The condition on the identifier of the node under `variable`, where
/// an identifier is given.
pub open spec fn target_id_text(variable: Seq<char>, id: Option<i64>) -> Seq<char> {
    match id {
        Some(id) => " AND "@ + OpenCypherFunc::id_text(variable) + " = "@ + signed_decimal(
            id as int,
        ),
        None => ""@,
    }
}

/// The query that starts at the node of kind `origin` with the given
/// identifier, follows one edge (`adjacent`) or any number of them, and
/// returns the nodes of kind `target` that it reaches and that have the
/// given name, identifier and properties. The target has a variable of
/// its own.
pub open spec fn path_text(
    origin: NodeType,
    origin_id: i64,
    target: NodeType,
    name: Option<Seq<char>>,
    id: Option<i64>,
    entries: Seq<Entry>,
    adjacent: bool,
) -> Seq<char>
    recommends
        name is Some || id is Some,
{
    "MATCH ("@ + origin.alias() + ": "@ + origin.label() + ")-["@ + hops_text(adjacent) + "]->("@
        + target_variable(origin, target) + ": "@ + target.label() + named_text(name)
        + ") WHERE "@ + OpenCypherFunc::id_text(origin.alias()) + " = "@ + signed_decimal(
        origin_id as int,
    ) + target_id_text(target_variable(origin, target), id) + conditions_text(
        target_variable(origin, target),
        entries,
    ) + " RETURN "@ + target_variable(origin, target)
}

proof fn lemma_take_step<A>(s: Seq<A>, i: int)
    requires
        0 <= i < s.len(),
    ensures
        s.take(i + 1).drop_last() == s.take(i),
        s.take(i + 1).last() == s[i],
        s.take(i + 1).len() == i + 1,
{
    assert(s.take(i + 1).drop_last() =~= s.take(i));
}

/// The failure of a key that may not stand in a query.
fn refused_key() -> (r: Status)
    ensures
        r.code == Code::InvalidArgument,
        r.message@ == key_refused(),
{
    Status::invalid_argument("A property key may hold letters, digits and underscores only!")
}

/// The conditions that hold a node of `node_type` to the given entries,
/// each led by `AND`. A key that may not stand in a query fails with
/// `InvalidArgument`.
pub fn query_condition(node_type: NodeType, items: &Vec<(String, String)>) -> (r: Result<
    String,
    Status,
>)
    ensures
        match r {
            Ok(conditions) => keys_are_plain(entry_views(items@)) && conditions@
                == conditions_text(node_type.alias(), entry_views(items@)),
            Err(status) => !keys_are_plain(entry_views(items@)) && status.code
                == Code::InvalidArgument && status.message@ == key_refused(),
        },
{
    if !listed_keys_are_plain(items) {
        return Err(refused_key());
    }
    Ok(conditions_on(node_type.as_str(), items))
}

/// The conditions that hold the node under `variable` to the given
/// entries, each led by `AND`.
fn conditions_on(variable: &str, items: &Vec<(String, String)>) -> (r: String)
    ensures
        r@ == conditions_text(variable@, entry_views(items@)),
{
    let ghost entries = entry_views(items@);
    let mut conditions = String::new();
    let mut i: usize = 0;
    while i < items.len()
        invariant
            i <= items.len(),
            entries == entry_views(items@),
            conditions@ == conditions_text(variable@, entries.take(i as int)),
        decreases items.len() - i,
    {
        let mut one = String::from_str(" AND ");
        one.append(variable);
        one.append(".");
        one.append(items[i].0.as_str());
        one.append(" = '");
        one.append(escape(items[i].1.as_str()).as_str());
        one.append("'");
        proof {
            lemma_take_step(entries, i as int);
        }
        conditions.append(one.as_str());
        i = i + 1;
    }
    assert(entries.take(i as int) =~= entries);
    conditions
}

/// The inside of the property map that holds the given entries; none
/// where there are no entries. A key that may not stand in a query fails
/// with `InvalidArgument`.
pub fn property_map(items: &Vec<(String, String)>) -> (r: Result<Option<String>, Status>)
    ensures
        match r {
            Ok(map) => keys_are_plain(entry_views(items@)) && text_view(map)
                == property_map_text(entry_views(items@)),
            Err(status) => !keys_are_plain(entry_views(items@)) && status.code
                == Code::InvalidArgument && status.message@ == key_refused(),
        },
{
    if !listed_keys_are_plain(items) {
        return Err(refused_key());
    }
    Ok(map_of(items))
}

/// The inside of the property map that holds the given entries.
fn map_of(items: &Vec<(String, String)>) -> (r: Option<String>)
    ensures
        r is Some <==> items.len() > 0,
        text_view(r) == property_map_text(entry_views(items@)),
{
    if items.len() == 0 {
        return None;
    }
    let ghost entries = entry_views(items@);
    let mut joined = String::new();
    let mut i: usize = 0;
    while i < items.len()
        invariant
            i <= items.len(),
            entries == entry_views(items@),
            joined@ == joined_pairs(entries.take(i as int)),
        decreases items.len() - i,
    {
        let mut pair = String::from_str(items[i].0.as_str());
        pair.append(": '");
        pair.append(escape(items[i].1.as_str()).as_str());
        pair.append("'");
        proof {
            lemma_take_step(entries, i as int);
        }
        if i > 0 {
            joined.append(", ");
            joined.append(pair.as_str());
        } else {
            joined.append(pair.as_str());
            assert(joined@ =~= pair@);
        }
        i = i + 1;
    }
    assert(entries.take(i as int) =~= entries);
    let mut map = String::from_str(" ");
    map.append(joined.as_str());
    map.append(" ");
    Some(map)
}

/// The message of a search that was given neither a name nor an
/// identifier.
pub open spec fn nothing_to_search_by() -> Seq<char> {
    "The name and ID cannot both be empty!"@
}

/// The message of a creation that was given no properties.
pub open spec fn nothing_to_create_with() -> Seq<char> {
    "A node cannot be created without properties!"@
}

/// The query that creates a node of `node_type` with the given entries as
/// its property map. A node needs at least one property that identifies
/// it: without entries this fails with `InvalidArgument`, and so it does
/// with a key that may not stand in a query.
pub fn create_node_query(node_type: NodeType, items: &Vec<(String, String)>) -> (r: Result<
    String,
    Status,
>)
    ensures
        match r {
            Ok(query) => items.len() > 0 && keys_are_plain(entry_views(items@)) && query@
                == create_node_text(node_type, entry_views(items@)),
            Err(status) => status.code == Code::InvalidArgument && if items.len() == 0 {
                status.message@ == nothing_to_create_with()
            } else {
                !keys_are_plain(entry_views(items@)) && status.message@ == key_refused()
            },
        },
{
    if items.len() == 0 {
        return Err(Status::invalid_argument("A node cannot be created without properties!"));
    }
    if !listed_keys_are_plain(items) {
        return Err(refused_key());
    }
    match map_of(items) {
        Some(map) => {
            let mut query = String::from_str("CREATE (");
            query.append(node_type.as_str());
            query.append(": ");
            query.append(node_type.full_str());
            query.append(" {");
            query.append(map.as_str());
            query.append("}) ");
            Ok(query)
        },
        None => Err(refused_key()),
    }
}

/// The variable that stands for the target of an edge or of a path.
fn target_name(origin: NodeType, target: NodeType) -> (r: String)
    ensures
        r@ == target_variable(origin, target),
{
    let mut r = String::from_str(target.as_str());
    if origin == target {
        r.append("2");
    } else {
        assert(r@ =~= target_variable(origin, target));
    }
    r
}

/// The part of an edge query that finds both ends.
fn ends_match(origin: NodeType, origin_id: i64, target: NodeType, target_id: i64) -> (r: String)
    ensures
        r@ == ends_match_text(origin, origin_id, target, target_id),
{
    let end = target_name(origin, target);
    let mut query = String::from_str("MATCH (");
    query.append(origin.as_str());
    query.append(": ");
    query.append(origin.full_str());
    query.append("), (");
    query.append(end.as_str());
    query.append(": ");
    query.append(target.full_str());
    query.append(") WHERE ");
    query.append(OpenCypherFunc::id(origin.as_str()).as_str());
    query.append(" = ");
    query.append(decimal_string(origin_id).as_str());
    query.append(" AND ");
    query.append(OpenCypherFunc::id(end.as_str()).as_str());
    query.append(" = ");
    query.append(decimal_string(target_id).as_str());
    query
}

/// The query that creates an edge of the given type between two nodes
/// found by their identifiers.
fn edge_query(
    edge_type: &str,
    origin: NodeType,
    origin_id: i64,
    target: NodeType,
    target_id: i64,
    items: &Vec<(String, String)>,
) -> (r: String)
    ensures
        r@ == edge_text(edge_type@, origin, origin_id, target, target_id, entry_views(items@)),
{
    let mut query = ends_match(origin, origin_id, target, target_id);
    query.append(" CREATE (");
    query.append(origin.as_str());
    query.append(")-[r:");
    query.append(edge_type);
    match map_of(items) {
        Some(map) => {
            query.append(" {");
            query.append(map.as_str());
            query.append("}]->(");
        },
        None => {
            query.append("]->(");
        },
    }
    query.append(target_name(origin, target).as_str());
    query.append(") RETURN r");
    query
}

/// The query that creates an assignment edge between two nodes found by
/// their identifiers, with the given entries as the edge's property map,
/// and returns the edge. A key that may not stand in a query fails with
/// `InvalidArgument`.
pub fn assignment_query(
    origin_node_type: NodeType,
    origin_node_id: i64,
    target_node_type: NodeType,
    target_node_id: i64,
    items: &Vec<(String, String)>,
) -> (r: Result<String, Status>)
    ensures
        match r {
            Ok(query) => keys_are_plain(entry_views(items@)) && query@ == assignment_edge_text(
                origin_node_type,
                origin_node_id,
                target_node_type,
                target_node_id,
                entry_views(items@),
            ),
            Err(status) => !keys_are_plain(entry_views(items@)) && status.code
                == Code::InvalidArgument && status.message@ == key_refused(),
        },
{
    if !listed_keys_are_plain(items) {
        return Err(refused_key());
    }
    Ok(
        edge_query(
            ASSIGNMENT,
            origin_node_type,
            origin_node_id,
            target_node_type,
            target_node_id,
            items,
        ),
    )
}

/// The query that creates the association by which a user attribute
/// grants operations on what is under an object attribute.
pub fn association_cypher(
    user_attribute_id: i64,
    object_attribute_id: i64,
    operations: &Vec<String>,
) -> (r: String)
    ensures
        r@ == granting_text(user_attribute_id, object_attribute_id, string_views(operations@)),
{
    let ghost listed = string_views(operations@);
    let mut list = String::new();
    let mut i: usize = 0;
    while i < operations.len()
        invariant
            i <= operations.len(),
            listed == string_views(operations@),
            list@ == quoted_list(listed.take(i as int)),
        decreases operations.len() - i,
    {
        proof {
            lemma_take_step(listed, i as int);
        }
        if i > 0 {
            list.append(", '");
            list.append(escape(operations[i].as_str()).as_str());
            list.append("'");
        } else {
            let mut first = String::from_str("'");
            first.append(escape(operations[i].as_str()).as_str());
            first.append("'");
            list.append(first.as_str());
            assert(list@ =~= first@);
        }
        i = i + 1;
    }
    assert(listed.take(i as int) =~= listed);
    let mut query = ends_match(
        NodeType::UserAttribute,
        user_attribute_id,
        NodeType::ObjectAttribute,
        object_attribute_id,
    );
    query.append(" CREATE (");
    query.append(NodeType::UserAttribute.as_str());
    query.append(")-[r:");
    query.append(ASSOCIATION);
    query.append(" { ops: [");
    query.append(list.as_str());
    query.append("] }]->(");
    query.append(NodeType::ObjectAttribute.as_str());
    query.append(") RETURN r");
    query
}

/// A node of `kind` in a pattern.
fn pattern(kind: NodeType) -> (r: String)
    ensures
        r@ == node_pattern(kind),
{
    let mut r = String::from_str("(");
    r.append(kind.as_str());
    r.append(": ");
    r.append(kind.full_str());
    r.append(")");
    r
}

/// The query that decides whether the user `subject_id` may perform
/// `operation` on the object `object_id`.
pub fn authorization_query(subject_id: i64, object_id: i64, operation: &str) -> (r: String)
    ensures
        r@ == authorization_text(subject_id, object_id, operation@),
{
    let mut r = String::from_str("MATCH path = ");
    r.append(pattern(NodeType::User).as_str());
    r.append("-[*]->");
    r.append(pattern(NodeType::UserAttribute).as_str());
    r.append("-[r:");
    r.append(ASSOCIATION);
    r.append("]->");
    r.append(pattern(NodeType::ObjectAttribute).as_str());
    r.append("<-[*]-");
    r.append(pattern(NodeType::Object).as_str());
    r.append(" WHERE ");
    r.append(OpenCypherFunc::id(NodeType::User.as_str()).as_str());
    r.append(" = ");
    r.append(decimal_string(subject_id).as_str());
    r.append(" AND ");
    r.append(OpenCypherFunc::id(NodeType::Object.as_str()).as_str());
    r.append(" = ");
    r.append(decimal_string(object_id).as_str());
    r.append(" AND '");
    r.append(escape(operation).as_str());
    r.append("' IN r.ops MATCH (");
    r.append(NodeType::UserAttribute.as_str());
    r.append(")-[:");
    r.append(ASSIGNMENT);
    r.append("]->(pc1: ");
    r.append(NodeType::PolicyClass.full_str());
    r.append(") MATCH (");
    r.append(NodeType::ObjectAttribute.as_str());
    r.append(")-[:");
    r.append(ASSIGNMENT);
    r.append("]->(pc2: ");
    r.append(NodeType::PolicyClass.full_str());
    r.append(
        ") WHERE pc1.name = pc2.name RETURN path, pc1, o, oa, u, ua, r ORDER BY length(path) LIMIT 1",
    );
    r
}

/// The query that finds a node of `node_type`. With a name and an
/// identifier the name stands in the pattern and the identifier in the
/// `WHERE` clause; with one of them it stands in the `WHERE` clause; the
/// entries follow, each as one more condition. With neither this fails
/// with `InvalidArgument`, and so it does with a key that may not stand
/// in a query.
pub fn search_node_query(
    node_type: NodeType,
    name: Option<&str>,
    id: Option<i64>,
    items: &Vec<(String, String)>,
) -> (r: Result<String, Status>)
    ensures
        match r {
            Ok(query) => (name is Some || id is Some) && keys_are_plain(entry_views(items@))
                && query@ == search_node_text(
                node_type,
                name_view(name),
                id,
                entry_views(items@),
            ),
            Err(status) => status.code == Code::InvalidArgument && if name is None && id is None {
                status.message@ == nothing_to_search_by()
            } else {
                !keys_are_plain(entry_views(items@)) && status.message@ == key_refused()
            },
        },
{
    if name.is_none() && id.is_none() {
        return Err(Status::invalid_argument("The name and ID cannot both be empty!"));
    }
    if !listed_keys_are_plain(items) {
        return Err(refused_key());
    }
    let conditions = conditions_on(node_type.as_str(), items);
    let mut query = String::from_str("MATCH (");
    query.append(node_type.as_str());
    query.append(": ");
    query.append(node_type.full_str());
    match (name, id) {
        (Some(name), Some(id)) => {
            query.append(" { name: '");
            query.append(escape(name).as_str());
            query.append("' }) WHERE ");
            query.append(OpenCypherFunc::id(node_type.as_str()).as_str());
            query.append(" = ");
            query.append(decimal_string(id).as_str());
        },
        (Some(name), None) => {
            query.append(") WHERE ");
            query.append(node_type.as_str());
            query.append(".name = '");
            query.append(escape(name).as_str());
            query.append("'");
        },
        (None, Some(id)) => {
            query.append(") WHERE ");
            query.append(OpenCypherFunc::id(node_type.as_str()).as_str());
            query.append(" = ");
            query.append(decimal_string(id).as_str());
        },
        (None, None) => {},
    }
    query.append(conditions.as_str());
    query.append(" RETURN ");
    query.append(node_type.as_str());
    Ok(query)
}

/// The query that finds the nodes of `target_node_type` that the node
/// `origin_id` of `origin_node_type` is assigned to: directly
/// (`adjacent`) or over any number of edges. The target's name stands in
/// its pattern, its identifier and the entries in the `WHERE` clause,
/// after the origin's identifier. With neither a name nor an identifier
/// for the target this fails with `InvalidArgument`, and so it does with
/// a key that may not stand in a query.
pub fn path_query(
    origin_node_type: NodeType,
    origin_id: i64,
    target_node_type: NodeType,
    target_node_name: Option<&str>,
    target_node_id: Option<i64>,
    items: &Vec<(String, String)>,
    adjacent: bool,
) -> (r: Result<String, Status>)
    ensures
        match r {
            Ok(query) => (target_node_name is Some || target_node_id is Some) && keys_are_plain(
                entry_views(items@),
            ) && query@ == path_text(
                origin_node_type,
                origin_id,
                target_node_type,
                name_view(target_node_name),
                target_node_id,
                entry_views(items@),
                adjacent,
            ),
            Err(status) => status.code == Code::InvalidArgument && if target_node_name is None
                && target_node_id is None {
                status.message@ == nothing_to_search_by()
            } else {
                !keys_are_plain(entry_views(items@)) && status.message@ == key_refused()
            },
        },
{
    if target_node_name.is_none() && target_node_id.is_none() {
        return Err(Status::invalid_argument("The name and ID cannot both be empty!"));
    }
    if !listed_keys_are_plain(items) {
        return Err(refused_key());
    }
    let mut named = String::from_str("");
    if let Some(name) = target_node_name {
        named = String::from_str(" { name: '");
        named.append(escape(name).as_str());
        named.append("' }");
    }
    let end = target_name(origin_node_type, target_node_type);
    let mut identified = String::from_str("");
    if let Some(id) = target_node_id {
        identified = String::from_str(" AND ");
        identified.append(OpenCypherFunc::id(end.as_str()).as_str());
        identified.append(" = ");
        identified.append(decimal_string(id).as_str());
    }
    let conditions = conditions_on(end.as_str(), items);
    let mut query = String::from_str("MATCH (");
    query.append(origin_node_type.as_str());
    query.append(": ");
    query.append(origin_node_type.full_str());
    query.append(")-[");
    query.append(if adjacent {
        ""
    } else {
        "*"
    });
    query.append("]->(");
    query.append(end.as_str());
    query.append(": ");
    query.append(target_node_type.full_str());
    query.append(named.as_str());
    query.append(") WHERE ");
    query.append(OpenCypherFunc::id(origin_node_type.as_str()).as_str());
    query.append(" = ");
    query.append(decimal_string(origin_id).as_str());
    query.append(identified.as_str());
    query.append(conditions.as_str());
    query.append(" RETURN ");
    query.append(end.as_str());
    Ok(query)
}

/// The conditions that hold a node of `node_type` to what the bag holds,
/// in the order in which the bag hands its entries out. A key that may
/// not stand in a query fails with `InvalidArgument`.
pub fn properties_to_query_condition(
    node_type: &NodeType,
    properties: AHashMap<FastStr, FastStr>,
) -> (r: Result<String, Status>)
    ensures
        match r {
            Ok(conditions) => all_keys_plain(bag_entries(properties)) && exists|
                order: Seq<Entry>,
            | #[trigger]
                lists(order, bag_entries(properties)) && conditions@ == conditions_text(
                    node_type.alias(),
                    order,
                ),
            Err(status) => !all_keys_plain(bag_entries(properties)) && status.code
                == Code::InvalidArgument && status.message@ == key_refused(),
        },
{
    let items = listing(&properties);
    proof {
        lemma_listed_keys(entry_views(items@), bag_entries(properties));
    }
    query_condition(*node_type, &items)
}

/// The inside of the property map that holds what the bag holds, in the
/// order in which the bag hands its entries out; none for an empty bag.
/// A key that may not stand in a query fails with `InvalidArgument`.
pub fn properties_to_property_query_condition(properties: AHashMap<FastStr, FastStr>) -> (r:
    Result<Option<String>, Status>)
    ensures
        match r {
            Ok(Some(map)) => all_keys_plain(bag_entries(properties)) && bag_entries(properties)
                != crate::bag::no_entries() && exists|order: Seq<Entry>| #[trigger]
                lists(order, bag_entries(properties)) && property_map_text(order) == Some(map@),
            Ok(None) => bag_entries(properties) == crate::bag::no_entries(),
            Err(status) => !all_keys_plain(bag_entries(properties)) && status.code
                == Code::InvalidArgument && status.message@ == key_refused(),
        },
{
    let items = listing(&properties);
    proof {
        lemma_listed_keys(entry_views(items@), bag_entries(properties));
    }
    property_map(&items)
}

/// What a node is written with: what its bag holds, and under `name`
/// the node's name, by which the store keeps nodes apart and finds them
/// again.
pub open spec fn written_entries(node: NodeTypeObject) -> Map<Seq<char>, Seq<char>> {
    bag_entries(node.properties()).insert("name"@, node.name())
}

/// Whether the bag of `node` holds the node's name under `name`.
pub open spec fn holds_name(node: NodeTypeObject) -> bool {
    bag_entries(node.properties()).contains_pair("name"@, node.name())
}

/// `name` may stand as a key.
pub proof fn lemma_name_is_a_key()
    ensures
        is_key("name"@),
{
    reveal_strlit("name");
    let key = "name"@;
    assert(key[0] == 'n' && key[1] == 'a' && key[2] == 'm' && key[3] == 'e');
}

/// The query that creates `node`: a node of its kind whose property map
/// holds what the node's bag holds and, under `name`, the node's name. A
/// node needs at least one property of its own: an empty bag fails with
/// `InvalidArgument`, and so does a key that may not stand in a query.
pub fn create_node_cypher(node: &NodeTypeObject) -> (r: Result<String, Status>)
    ensures
        match r {
            Ok(query) => bag_entries(node.properties()) != crate::bag::no_entries()
                && all_keys_plain(bag_entries(node.properties())) && exists|order: Seq<Entry>|
                #[trigger] lists(order, written_entries(*node)) && query@ == create_node_text(
                    node.kind(),
                    order,
                ),
            Err(status) => status.code == Code::InvalidArgument && if bag_entries(
                node.properties(),
            ) == crate::bag::no_entries() {
                status.message@ == nothing_to_create_with()
            } else {
                !all_keys_plain(bag_entries(node.properties())) && status.message@
                    == key_refused()
            },
        },
{
    let own = listing(node.bag());
    if own.len() == 0 {
        return Err(Status::invalid_argument("A node cannot be created without properties!"));
    }
    let mut written = bag_clone(node.bag());
    bag_insert(&mut written, "name", node.node_name().as_str());
    let items = listing(&written);
    proof {
        lemma_name_is_a_key();
        lemma_listed_keys(entry_views(items@), bag_entries(written));
        assert(bag_entries(written).contains_key("name"@));
        let own = bag_entries(node.properties());
        if all_keys_plain(own) {
            assert forall|key: Seq<char>| #[trigger]
                bag_entries(written).contains_key(key) implies is_key(key) by {
                if key != "name"@ {
                    assert(own.contains_key(key));
                }
            }
        } else {
            let bad = choose|key: Seq<char>| #[trigger] own.contains_key(key) && !is_key(key);
            assert(bag_entries(written).contains_key(bad));
            assert(!all_keys_plain(bag_entries(written)));
        }
        assert(bag_entries(written) == written_entries(*node));
        assert(lists(entry_views(items@), written_entries(*node)));
        assert(bag_entries(node.properties()) != crate::bag::no_entries());
    }
    create_node_query(node.node_type(), &items)
}

/// The query that assigns the node `origin_node_id` to the node
/// `target_node_id`: it creates an assignment edge from the one to the
/// other and returns it. The edge carries what the bag holds; with an
/// empty bag it carries no property map. A key that may not stand in a
/// query fails with `InvalidArgument`.
pub fn create_association_cypher(
    origin_node_type: NodeType,
    origin_node_id: i64,
    target_node_type: NodeType,
    target_node_id: i64,
    properties: AHashMap<FastStr, FastStr>,
) -> (r: Result<String, Status>)
    ensures
        match r {
            Ok(query) => all_keys_plain(bag_entries(properties)) && exists|order: Seq<Entry>|
                #[trigger] lists(order, bag_entries(properties)) && query@
                    == assignment_edge_text(
                    origin_node_type,
                    origin_node_id,
                    target_node_type,
                    target_node_id,
                    order,
                ),
            Err(status) => !all_keys_plain(bag_entries(properties)) && status.code
                == Code::InvalidArgument && status.message@ == key_refused(),
        },
{
    let items = listing(&properties);
    proof {
        lemma_listed_keys(entry_views(items@), bag_entries(properties));
    }
    assignment_query(origin_node_type, origin_node_id, target_node_type, target_node_id, &items)
}

/// The query that creates the edge of an assignment: an assignment edge
/// without properties from the origin that the assignment names to its
/// target.
pub open spec fn assignment_text(assignment: Assignment) -> Seq<char> {
    assignment_edge_text(
        assignment.origin_kind(),
        assignment.ends().0,
        assignment.target_kind(),
        assignment.ends().1,
        Seq::empty(),
    )
}

/// The query that creates the edge of an assignment.
pub fn assignment_cypher(assignment_combination: &Assignment) -> (r: String)
    ensures
        r@ == assignment_text(*assignment_combination),
{
    let (origin, origin_id, target, target_id) = assignment_combination.parts();
    let none: Vec<(String, String)> = Vec::new();
    assert(entry_views(none@) =~= Seq::empty());
    edge_query(ASSIGNMENT, origin, origin_id, target, target_id, &none)
}

/// The query that finds a node of `node_type` by name, by identifier or
/// by both, and by what the bag holds. With neither a name nor an
/// identifier this fails with `InvalidArgument`.
pub fn search_node_cypher(
    node_type: NodeType,
    name: Option<&str>,
    id: Option<i64>,
    properties: AHashMap<FastStr, FastStr>,
) -> (r: Result<String, Status>)
    ensures
        match r {
            Ok(query) => (name is Some || id is Some) && all_keys_plain(bag_entries(properties))
                && exists|order: Seq<Entry>| #[trigger]
                lists(order, bag_entries(properties)) && query@ == search_node_text(
                    node_type,
                    name_view(name),
                    id,
                    order,
                ),
            Err(status) => status.code == Code::InvalidArgument && if name is None && id is None {
                status.message@ == nothing_to_search_by()
            } else {
                !all_keys_plain(bag_entries(properties)) && status.message@ == key_refused()
            },
        },
{
    let items = listing(&properties);
    proof {
        lemma_listed_keys(entry_views(items@), bag_entries(properties));
    }
    search_node_query(node_type, name, id, &items)
}

/// The query that finds the nodes of `target_node_type` that the node
/// `origin_id` is assigned to, directly (`adjacent`) or over any number
/// of edges, by name, by identifier or by both, and by what the bag
/// holds. With neither a name nor an identifier for the target this
/// fails with `InvalidArgument`.
pub fn search_origin_id_to_assigned_target_node_path_cypher(
    origin_node_type: NodeType,
    origin_id: i64,
    target_node_type: NodeType,
    target_node_name: Option<&str>,
    target_node_id: Option<i64>,
    target_node_properties: AHashMap<FastStr, FastStr>,
    adjacent: bool,
) -> (r: Result<String, Status>)
    ensures
        match r {
            Ok(query) => (target_node_name is Some || target_node_id is Some) && all_keys_plain(
                bag_entries(target_node_properties),
            ) && exists|order: Seq<Entry>| #[trigger]
                lists(order, bag_entries(target_node_properties)) && query@ == path_text(
                    origin_node_type,
                    origin_id,
                    target_node_type,
                    name_view(target_node_name),
                    target_node_id,
                    order,
                    adjacent,
                ),
            Err(status) => status.code == Code::InvalidArgument && if target_node_name is None
                && target_node_id is None {
                status.message@ == nothing_to_search_by()
            } else {
                !all_keys_plain(bag_entries(target_node_properties)) && status.message@
                    == key_refused()
            },
        },
{
    let items = listing(&target_node_properties);
    proof {
        lemma_listed_keys(entry_views(items@), bag_entries(target_node_properties));
    }
    path_query(
        origin_node_type,
        origin_id,
        target_node_type,
        target_node_name,
        target_node_id,
        &items,
        adjacent,
    )
}

/// The two ends of an edge, and of a path, stand under two different
/// variables, whatever their kinds: a query that holds the one to one
/// identifier and the other to another can be met.
pub proof fn law_ends_have_their_own_variables(origin: NodeType, target: NodeType)
    ensures
        origin.alias() != target_variable(origin, target),
{
    reveal_strlit("u");
    reveal_strlit("ua");
    reveal_strlit("o");
    reveal_strlit("oa");
    reveal_strlit("pc");
    reveal_strlit("2");
    let a = origin.alias();
    let b = target_variable(origin, target);
    if origin == target {
        assert(b.len() == a.len() + 1);
    } else {
        assert(a.len() != b.len() || a[0] != b[0]);
    }
}

/// An assignment is written under another type of edge than an
/// association, and the query that decides on access looks for the
/// policy classes over edges of the type of an assignment.
pub proof fn law_assignments_are_no_associations()
    ensures
        assignment_type() != association_type(),
{
    reveal_strlit("Assignment");
    reveal_strlit("Association");
    assert("Assignment"@.len() != "Association"@.len());
}

} // verus!
