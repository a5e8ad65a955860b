//! Query text for the property-graph store that mirrors the users: the
//! statements that create, find, change and delete a labelled node, and
//! the query that decides whether a user may act on an object.

use crate::cypher::authorization_query;
use crate::cypher::authorization_text;
use crate::text::decimal_string;
use crate::text::signed_decimal;
use crate::text::slice_views;
use crate::text::string_views;
use crate::text::text_view;
use crate::json::json_string;
use crate::json::json_text;
use crate::json::json_views;
use serde_json::Value;
use vstd::prelude::*;

verus! {

/// What a statement does.
#[derive(Debug)]
pub enum Operator {
    CREATE,
    MATCH,
    DELETE,
    UPDATE,
}

impl Operator {
    /// The keyword, as it stands in a statement.
    pub open spec fn text(self) -> Seq<char> {
        match self {
            Operator::CREATE => "CREATE"@,
            Operator::MATCH => "MATCH"@,
            Operator::DELETE => "DELETE"@,
            Operator::UPDATE => "UPDATE"@,
        }
    }

    /// The keyword.
    pub fn as_str(&self) -> (r: &'static str)
        ensures
            r@ == self.text(),
    {
        match self {
            Operator::CREATE => "CREATE",
            Operator::MATCH => "MATCH",
            Operator::DELETE => "DELETE",
            Operator::UPDATE => "UPDATE",
        }
    }
}

/// The clauses that follow the pattern of a statement.
#[derive(Debug)]
pub enum AuxiliaryOperator {
    RETURN,
    LIMIT,
    WHERE,
    SET,
}

impl AuxiliaryOperator {
    /// The keyword, as it stands in a statement.
    pub open spec fn text(self) -> Seq<char> {
        match self {
            AuxiliaryOperator::RETURN => "RETURN"@,
            AuxiliaryOperator::LIMIT => "LIMIT"@,
            AuxiliaryOperator::WHERE => "WHERE"@,
            AuxiliaryOperator::SET => "SET"@,
        }
    }

    /// The keyword.
    pub fn as_str(&self) -> (r: &'static str)
        ensures
            r@ == self.text(),
    {
        match self {
            AuxiliaryOperator::RETURN => "RETURN",
            AuxiliaryOperator::LIMIT => "LIMIT",
            AuxiliaryOperator::WHERE => "WHERE",
            AuxiliaryOperator::SET => "SET",
        }
    }
}

/// The operations that an association can grant.
#[derive(Debug, Clone, Copy)]
pub enum PermissionOperator {
    Add,
    Edit,
    Read,
    Delete,
}

impl PermissionOperator {
    /// The operation's token, as it stands in an association's set.
    pub open spec fn text(self) -> Seq<char> {
        match self {
            PermissionOperator::Add => "Add"@,
            PermissionOperator::Edit => "Edit"@,
            PermissionOperator::Read => "Read"@,
            PermissionOperator::Delete => "Delete"@,
        }
    }

    /// The operation's token.
    pub fn as_str(&self) -> (r: &'static str)
        ensures
            r@ == self.text(),
    {
        match self {
            PermissionOperator::Add => "Add",
            PermissionOperator::Edit => "Edit",
            PermissionOperator::Read => "Read",
            PermissionOperator::Delete => "Delete",
        }
    }
}

/// The labels of the nodes and edges in the statements of this
/// module, each written as it is named here.
#[allow(non_camel_case_types)]
#[derive(Debug)]
pub enum NodeType {
    USER,
    USER_ATTRIBUTES,
    OBJECT,
    OBJECT_ATTRIBUTES,
    POLICY_CLASS,
    ASSIGNMENT,
    ASSOCIATION,
    PROHIBITION,
}

impl NodeType {
    /// The label, as it stands in a statement.
    pub open spec fn text(self) -> Seq<char> {
        match self {
            NodeType::USER => "USER"@,
            NodeType::USER_ATTRIBUTES => "USER_ATTRIBUTES"@,
            NodeType::OBJECT => "OBJECT"@,
            NodeType::OBJECT_ATTRIBUTES => "OBJECT_ATTRIBUTES"@,
            NodeType::POLICY_CLASS => "POLICY_CLASS"@,
            NodeType::ASSIGNMENT => "ASSIGNMENT"@,
            NodeType::ASSOCIATION => "ASSOCIATION"@,
            NodeType::PROHIBITION => "PROHIBITION"@,
        }
    }

    /// The label.
    pub fn as_str(&self) -> (r: &'static str)
        ensures
            r@ == self.text(),
    {
        match self {
            NodeType::USER => "USER",
            NodeType::USER_ATTRIBUTES => "USER_ATTRIBUTES",
            NodeType::OBJECT => "OBJECT",
            NodeType::OBJECT_ATTRIBUTES => "OBJECT_ATTRIBUTES",
            NodeType::POLICY_CLASS => "POLICY_CLASS",
            NodeType::ASSIGNMENT => "ASSIGNMENT",
            NodeType::ASSOCIATION => "ASSOCIATION",
            NodeType::PROHIBITION => "PROHIBITION",
        }
    }
}

/// The properties of a node, by the node's label.
#[derive(Debug)]
pub enum Property {
    User(UserProperties),
}

/// The properties of a user node.
#[derive(Debug)]
pub struct UserProperties {
    pub name: String,
}

impl UserProperties {
    /// The property map of a user called `name`, indented to stand inside
    /// a pattern.
    pub open spec fn map_text(name: Seq<char>) -> Seq<char> {
        "  {\n    name: '"@ + name + "'\n  }"@
    }

    /// The assignment that sets the name to `name`.
    pub open spec fn set_text(name: Seq<char>) -> Seq<char> {
        "name = \""@ + name + "\""@
    }

    /// The property map, indented to stand inside a pattern.
    pub fn to_string(&self) -> (r: String)
        ensures
            r@ == Self::map_text(self.name@),
    {
        let mut r = String::from_str("  {\n    name: '");
        r.append(self.name.as_str());
        r.append("'\n  }");
        r
    }

    /// The assignment that sets the name.
    pub fn set_fmt(&self) -> (r: String)
        ensures
            r@ == Self::set_text(self.name@),
    {
        let mut r = String::from_str("name = \"");
        r.append(self.name.as_str());
        r.append("\"");
        r
    }
}

impl Property {
    /// The name that the properties give.
    pub open spec fn name(self) -> Seq<char> {
        match self {
            Property::User(p) => p.name@,
        }
    }
}

/// The name that optional properties give.
pub open spec fn property_name(property: Option<Property>) -> Option<Seq<char>> {
    match property {
        Some(property) => Some(property.name()),
        None => None,
    }
}

/// A pattern over several lines for a node `n` with the given label and,
/// if a name is given, the property map of that name.
pub open spec fn broad_pattern(label: Seq<char>, name: Option<Seq<char>>) -> Seq<char> {
    match name {
        Some(name) => " (\n  n:"@ + label + "\n"@ + UserProperties::map_text(name) + "\n)"@,
        None => " (\n  n:"@ + label + "\n)"@,
    }
}

/// The text of a `WHERE` clause with the space that follows it, or
/// nothing.
pub open spec fn clause_text(clause: Option<Seq<char>>) -> Seq<char> {
    match clause {
        Some(clause) => clause + " "@,
        None => ""@,
    }
}

/// The statement for an operation on the nodes of one label.
///
/// - `CREATE` makes a node with the given properties, if any.
/// - `MATCH` returns up to a hundred nodes of the label.
/// - `DELETE` finds the node with the given properties, under the given
///   clause if any, and deletes it; without properties it names the
///   label alone.
/// - `UPDATE` finds the nodes of the label, under the given clause if
///   any, and sets the name that the properties give. It is asked only
///   with properties.
pub open spec fn cql_text(
    category: Operator,
    label: Seq<char>,
    name: Option<Seq<char>>,
    clause: Option<Seq<char>>,
) -> Seq<char>
    recommends
        category is UPDATE ==> name is Some,
{
    match category {
        Operator::CREATE => "CREATE"@ + broad_pattern(label, name),
        Operator::MATCH => "MATCH (n:"@ + label + ") RETURN n LIMIT 100"@,
        Operator::DELETE => match name {
            Some(_) => "MATCH"@ + broad_pattern(label, name) + " "@ + clause_text(clause)
                + "DELETE n"@,
            None => "DELETE (n:"@ + label + ") DELETE "@ + label,
        },
        Operator::UPDATE => "MATCH"@ + broad_pattern(label, None) + " "@ + clause_text(clause)
            + "SET "@ + label + "."@ + UserProperties::set_text(name->0) + " RETURN n"@,
    }
}

/// A pattern over several lines for a node `n`.
fn pattern(node_type: &NodeType, property: &Option<Property>) -> (r: String)
    ensures
        r@ == broad_pattern(node_type.text(), property_name(*property)),
{
    let mut r = String::from_str(" (\n  n:");
    r.append(node_type.as_str());
    match property {
        Some(Property::User(p)) => {
            r.append("\n");
            r.append(p.to_string().as_str());
            r.append("\n)");
        },
        None => {
            r.append("\n)");
        },
    }
    r
}

/// A `WHERE` clause with the space that follows it, or nothing.
fn clause(where_str: &Option<String>) -> (r: String)
    ensures
        r@ == clause_text(text_view(*where_str)),
{
    match where_str {
        Some(w) => {
            let mut r = String::from_str(w.as_str());
            r.append(" ");
            r
        },
        None => String::from_str(""),
    }
}

/// The statement for an operation on the nodes of one label.
pub fn format_cql(
    categovy: Operator,
    node_type: NodeType,
    property: Option<Property>,
    where_str: Option<String>,
) -> (r: String)
    requires
        categovy is UPDATE ==> property is Some,
    ensures
        r@ == cql_text(
            categovy,
            node_type.text(),
            property_name(property),
            text_view(where_str),
        ),
{
    match categovy {
        Operator::CREATE => {
            let mut r = String::from_str("CREATE");
            r.append(pattern(&node_type, &property).as_str());
            r
        },
        Operator::MATCH => {
            let mut r = String::from_str("MATCH (n:");
            r.append(node_type.as_str());
            r.append(") RETURN n LIMIT 100");
            r
        },
        Operator::DELETE => {
            if property.is_some() {
                let mut r = String::from_str("MATCH");
                r.append(pattern(&node_type, &property).as_str());
                r.append(" ");
                r.append(clause(&where_str).as_str());
                r.append("DELETE n");
                r
            } else {
                let mut r = String::from_str("DELETE (n:");
                r.append(node_type.as_str());
                r.append(") DELETE ");
                r.append(node_type.as_str());
                r
            }
        },
        Operator::UPDATE => {
            let mut r = String::from_str("MATCH");
            r.append(pattern(&node_type, &None).as_str());
            r.append(" ");
            r.append(clause(&where_str).as_str());
            r.append("SET ");
            r.append(node_type.as_str());
            r.append(".");
            match property {
                Some(Property::User(p)) => {
                    r.append(p.set_fmt().as_str());
                },
                None => {},
            }
            r.append(" RETURN n");
            r
        },
    }
}

/// One line for each of the first `n` keys: the key as a property of the
/// labelled node, the operator at the key's place, and the value at the
/// key's place.
pub open spec fn comparison_lines(
    label: Seq<char>,
    keys: Seq<Seq<char>>,
    operators: Seq<Seq<char>>,
    values: Seq<Seq<char>>,
    n: nat,
) -> Seq<char>
    recommends
        n <= keys.len(),
        n <= operators.len(),
        n <= values.len(),
    decreases n,
{
    if n == 0 {
        Seq::empty()
    } else {
        comparison_lines(label, keys, operators, values, (n - 1) as nat) + "\n"@ + label + "."@
            + keys[n - 1] + " "@ + operators[n - 1] + " "@ + values[n - 1]
    }
}

/// A `WHERE` clause with one line for each key.
pub open spec fn where_text(
    label: Seq<char>,
    keys: Seq<Seq<char>>,
    operators: Seq<Seq<char>>,
    values: Seq<Seq<char>>,
) -> Seq<char> {
    "WHERE "@ + comparison_lines(label, keys, operators, values, keys.len()) + "\n"@
}

/// A `WHERE` clause that compares each key, as a property of the node
/// labelled `node`, with the text at the key's place in `values`, by the
/// operator at the key's place.
pub fn where_clause(
    node: &NodeType,
    keys: &Vec<&str>,
    values: &Vec<String>,
    operators: &Vec<&str>,
) -> (r: String)
    requires
        keys.len() <= values.len(),
        keys.len() <= operators.len(),
    ensures
        r@ == where_text(
            node.text(),
            slice_views(keys@),
            slice_views(operators@),
            string_views(values@),
        ),
{
    let mut lines = String::new();
    let mut i: usize = 0;
    while i < keys.len()
        invariant
            i <= keys.len(),
            keys.len() <= values.len(),
            keys.len() <= operators.len(),
            lines@ == comparison_lines(
                node.text(),
                slice_views(keys@),
                slice_views(operators@),
                string_views(values@),
                i as nat,
            ),
        decreases keys.len() - i,
    {
        lines.append("\n");
        lines.append(node.as_str());
        lines.append(".");
        lines.append(keys[i]);
        lines.append(" ");
        lines.append(operators[i]);
        lines.append(" ");
        lines.append(values[i].as_str());
        i = i + 1;
    }
    let mut r = String::from_str("WHERE ");
    r.append(lines.as_str());
    r.append("\n");
    r
}

/// A `WHERE` clause that compares each key with the JSON value at the
/// key's place, by the operator at the key's place. Each value stands in
/// the clause as the JSON text that `serde_json` gives it.
pub fn format_where(node: NodeType, keys: Vec<&str>, values: Vec<Value>, operators: Vec<&str>) -> (r:
    String)
    requires
        keys.len() <= values.len(),
        keys.len() <= operators.len(),
    ensures
        r@ == where_text(
            node.text(),
            slice_views(keys@),
            slice_views(operators@),
            json_views(values@),
        ),
{
    let mut texts: Vec<String> = Vec::new();
    let mut i: usize = 0;
    while i < values.len()
        invariant
            i <= values.len(),
            texts.len() == i,
            forall|j: int| 0 <= j < i ==> (#[trigger] texts[j])@ == json_text(values[j]),
        decreases values.len() - i,
    {
        texts.push(json_string(&values[i]));
        i = i + 1;
    }
    assert(string_views(texts@) =~= json_views(values@));
    where_clause(&node, &keys, &texts, &operators)
}

/// One line for each identifier, asking that the node `n` has it.
pub open spec fn id_lines(values: Seq<i64>) -> Seq<char>
    decreases values.len(),
{
    if values.len() == 0 {
        Seq::empty()
    } else {
        id_lines(values.drop_last()) + "\nID(n) = "@ + signed_decimal(values.last() as int)
    }
}

/// A `WHERE` clause with one line for each identifier.
pub open spec fn id_where_text(values: Seq<i64>) -> Seq<char> {
    "WHERE "@ + id_lines(values) + "\n"@
}

/// A `WHERE` clause with one line for each identifier.
pub fn format_id_where(values: Vec<i64>) -> (r: String)
    ensures
        r@ == id_where_text(values@),
{
    let mut lines = String::new();
    let mut i: usize = 0;
    while i < values.len()
        invariant
            i <= values.len(),
            lines@ == id_lines(values@.take(i as int)),
        decreases values.len() - i,
    {
        proof {
            assert(values@.take(i + 1).drop_last() =~= values@.take(i as int));
        }
        lines.append("\nID(n) = ");
        lines.append(decimal_string(values[i]).as_str());
        i = i + 1;
    }
    assert(values@.take(i as int) =~= values@);
    let mut r = String::from_str("WHERE ");
    r.append(lines.as_str());
    r.append("\n");
    r
}

/// The query that decides whether the user may perform `ops` on the
/// object. It is the query of the graph layer, which names nodes and
/// edges as that layer writes them.
pub fn format_path_query(user_id: i64, object_id: i64, ops: PermissionOperator) -> (r: String)
    ensures
        r@ == authorization_text(user_id, object_id, ops.text()),
{
    authorization_query(user_id, object_id, ops.as_str())
}

} // verus!
