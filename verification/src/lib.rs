//! Graph-structured, attribute-based access control in the NGAC style.
//!
//! Users, objects and the attributes that govern them are nodes of a
//! graph; assignments place a node under an attribute or a policy class,
//! and associations grant operations from a user attribute to an object
//! attribute. Whether a user may act on an object is decided by a search
//! for a path in that graph.
//!
//! - [`schema`] holds the vocabulary: the kinds of node, the assignments
//!   between them, and the nodes as they are written and read.
//! - [`bag`] holds the property bag of a node or an edge.
//! - [`cypher`] and [`cql`] build the text of the queries that are sent
//!   to the graph store.
//! - [`service`] and [`flows`] are the entity service: each operation is
//!   a function from what has happened so far to what is done next, so
//!   that the store itself stays outside.
//! - [`policy`] holds a policy graph in memory and decides on it.
//! - [`status`] holds the failures that all of them report.
//! - [`idgen`] gives identifiers that grow with time, and [`response`]
//!   the shape of an answer of the gateway.
//! - [`json`] reads what the library needs of JSON values, and
//!   [`text`] writes integers as decimal text.

pub mod bag;
pub mod cql;
pub mod cypher;
pub mod flows;
pub mod idgen;
pub mod json;
pub mod literal;
pub mod policy;
pub mod response;
pub mod schema;
pub mod service;
pub mod status;
pub mod text;
