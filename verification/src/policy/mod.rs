//! The policy graph held in memory, and the authorization decision on it.
//!
//! The graph has the shape that the store gives the policy: nodes of five
//! kinds, each with the identifier that it got when it was written;
//! assignments, which place a node under an attribute or a policy class;
//! and associations, which grant operations from a user attribute to an
//! object attribute. A decision is a search in this graph.
//!
//! `model` says what a graph is and what it decides, `graph` holds one
//! and answers for it, and `laws` states what follows.

pub mod graph;
pub mod laws;
pub mod model;

pub use graph::PolicyGraph;
pub use model::Decision;
pub use model::GraphModel;
