use serde_json::Number;
use serde_json::Value;
use sinapis::cql::format_cql;
use sinapis::cql::format_id_where;
use sinapis::cql::format_path_query;
use sinapis::cql::format_where;
use sinapis::cypher::authorization_query;
use sinapis::cql::where_clause;
use sinapis::cql::AuxiliaryOperator;
use sinapis::cql::NodeType;
use sinapis::cql::Operator;
use sinapis::cql::PermissionOperator;
use sinapis::cql::Property;
use sinapis::cql::UserProperties;
use sinapis::text::decimal_string;

fn user(name: &str) -> Option<Property> {
    Some(Property::User(UserProperties { name: name.to_string() }))
}

#[test]
fn keywords() {
    assert_eq!(Operator::CREATE.as_str(), "CREATE");
    assert_eq!(Operator::MATCH.as_str(), "MATCH");
    assert_eq!(Operator::DELETE.as_str(), "DELETE");
    assert_eq!(Operator::UPDATE.as_str(), "UPDATE");
    assert_eq!(AuxiliaryOperator::RETURN.as_str(), "RETURN");
    assert_eq!(AuxiliaryOperator::LIMIT.as_str(), "LIMIT");
    assert_eq!(AuxiliaryOperator::WHERE.as_str(), "WHERE");
    assert_eq!(AuxiliaryOperator::SET.as_str(), "SET");
    assert_eq!(PermissionOperator::Add.as_str(), "Add");
    assert_eq!(PermissionOperator::Edit.as_str(), "Edit");
    assert_eq!(PermissionOperator::Read.as_str(), "Read");
    assert_eq!(PermissionOperator::Delete.as_str(), "Delete");
    assert_eq!(NodeType::USER.as_str(), "USER");
    assert_eq!(NodeType::USER_ATTRIBUTES.as_str(), "USER_ATTRIBUTES");
    assert_eq!(NodeType::OBJECT.as_str(), "OBJECT");
    assert_eq!(NodeType::OBJECT_ATTRIBUTES.as_str(), "OBJECT_ATTRIBUTES");
    assert_eq!(NodeType::POLICY_CLASS.as_str(), "POLICY_CLASS");
    assert_eq!(NodeType::ASSIGNMENT.as_str(), "ASSIGNMENT");
    assert_eq!(NodeType::ASSOCIATION.as_str(), "ASSOCIATION");
    assert_eq!(NodeType::PROHIBITION.as_str(), "PROHIBITION");
}

#[test]
fn keywords_are_the_names_of_the_variants() {
    assert_eq!(Operator::DELETE.as_str(), format!("{:?}", Operator::DELETE));
    assert_eq!(AuxiliaryOperator::LIMIT.as_str(), format!("{:?}", AuxiliaryOperator::LIMIT));
    assert_eq!(PermissionOperator::Read.as_str(), format!("{:?}", PermissionOperator::Read));
    assert_eq!(NodeType::POLICY_CLASS.as_str(), format!("{:?}", NodeType::POLICY_CLASS));
    assert_eq!(NodeType::USER_ATTRIBUTES.as_str(), format!("{:?}", NodeType::USER_ATTRIBUTES));
}

#[test]
fn user_properties_text() {
    let properties = UserProperties { name: "alice".to_string() };
    assert_eq!(properties.to_string(), "  {\n    name: 'alice'\n  }");
    assert_eq!(properties.set_fmt(), "name = \"alice\"");
}

#[test]
fn create_statement() {
    assert_eq!(
        format_cql(Operator::CREATE, NodeType::USER, user("alice"), None),
        "CREATE (\n  n:USER\n  {\n    name: 'alice'\n  }\n)"
    );
    assert_eq!(
        format_cql(Operator::CREATE, NodeType::OBJECT, None, Some("ignored".to_string())),
        "CREATE (\n  n:OBJECT\n)"
    );
}

#[test]
fn match_statement() {
    assert_eq!(
        format_cql(Operator::MATCH, NodeType::USER, user("alice"), None),
        "MATCH (n:USER) RETURN n LIMIT 100"
    );
    assert_eq!(
        format_cql(Operator::MATCH, NodeType::POLICY_CLASS, None, None),
        "MATCH (n:POLICY_CLASS) RETURN n LIMIT 100"
    );
}

#[test]
fn delete_statement() {
    assert_eq!(
        format_cql(Operator::DELETE, NodeType::USER, user("bob"), Some("WHERE x".to_string())),
        "MATCH (\n  n:USER\n  {\n    name: 'bob'\n  }\n) WHERE x DELETE n"
    );
    assert_eq!(
        format_cql(Operator::DELETE, NodeType::USER, user("bob"), None),
        "MATCH (\n  n:USER\n  {\n    name: 'bob'\n  }\n) DELETE n"
    );
    assert_eq!(
        format_cql(Operator::DELETE, NodeType::USER, None, Some(format_id_where(vec![5]))),
        "DELETE (n:USER) DELETE USER"
    );
}

#[test]
fn update_statement() {
    assert_eq!(
        format_cql(Operator::UPDATE, NodeType::USER, user("bob"), Some("WHERE x".to_string())),
        "MATCH (\n  n:USER\n) WHERE x SET USER.name = \"bob\" RETURN n"
    );
    assert_eq!(
        format_cql(Operator::UPDATE, NodeType::USER, user("bob"), None),
        "MATCH (\n  n:USER\n) SET USER.name = \"bob\" RETURN n"
    );
}

#[test]
fn id_where_clause() {
    assert_eq!(format_id_where(vec![]), "WHERE \n");
    assert_eq!(format_id_where(vec![42]), "WHERE \nID(n) = 42\n");
    assert_eq!(
        format_id_where(vec![1, -2, 9223372036854775807]),
        "WHERE \nID(n) = 1\nID(n) = -2\nID(n) = 9223372036854775807\n"
    );
}

#[test]
fn where_clause_of_json_values() {
    let clause = format_where(
        NodeType::USER,
        vec!["name", "age", "active"],
        vec![
            Value::String("alice".to_string()),
            Value::Number(Number::from(30)),
            Value::Bool(true),
        ],
        vec!["=", ">", "<>"],
    );
    assert_eq!(clause, "WHERE \nUSER.name = \"alice\"\nUSER.age > 30\nUSER.active <> true\n");
    assert_eq!(format_where(NodeType::OBJECT, vec![], vec![], vec![]), "WHERE \n");
}

#[test]
fn where_clause_uses_as_many_values_as_keys() {
    let clause = format_where(
        NodeType::OBJECT,
        vec!["k"],
        vec![Value::Null, Value::Bool(false)],
        vec!["=", "unused"],
    );
    assert_eq!(clause, "WHERE \nOBJECT.k = null\n");
    let clause = where_clause(
        &NodeType::USER_ATTRIBUTES,
        &vec!["a", "b"],
        &vec!["1".to_string(), "'x'".to_string()],
        &vec!["=", "<"],
    );
    assert_eq!(clause, "WHERE \nUSER_ATTRIBUTES.a = 1\nUSER_ATTRIBUTES.b < 'x'\n");
}

#[test]
fn authorization_path_query() {
    assert_eq!(
        format_path_query(11, 22, PermissionOperator::Read),
        "MATCH path = (u: User)-[*]->(ua: UserAttribute)-[r:Association]->(oa: ObjectAttribute)<-[*]-(o: Object) WHERE id(u) = 11 AND id(o) = 22 AND 'Read' IN r.ops MATCH (ua)-[:Assignment]->(pc1: PolicyClass) MATCH (oa)-[:Assignment]->(pc2: PolicyClass) WHERE pc1.name = pc2.name RETURN path, pc1, o, oa, u, ua, r ORDER BY length(path) LIMIT 1"
    );
}

#[test]
fn path_query_for_each_operation() {
    for (ops, token) in [
        (PermissionOperator::Add, "Add"),
        (PermissionOperator::Edit, "Edit"),
        (PermissionOperator::Read, "Read"),
        (PermissionOperator::Delete, "Delete"),
    ] {
        assert_eq!(format_path_query(1, 2, ops), authorization_query(1, 2, token));
        assert!(format_path_query(1, 2, ops).contains(&format!(" AND '{}' IN r.ops ", token)));
    }
}

#[test]
fn decimal_text() {
    assert_eq!(decimal_string(0), "0");
    assert_eq!(decimal_string(7), "7");
    assert_eq!(decimal_string(10), "10");
    assert_eq!(decimal_string(-1), "-1");
    assert_eq!(decimal_string(1234567890), "1234567890");
    assert_eq!(decimal_string(i64::MAX), "9223372036854775807");
    assert_eq!(decimal_string(i64::MIN), "-9223372036854775808");
    for v in [-1000i64, -99, -10, -9, 9, 99, 100, 101, 65535, 4294967296] {
        assert_eq!(decimal_string(v), v.to_string());
    }
}
