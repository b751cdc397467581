//! Edge of a query-serving gateway in front of a GraphQL data-indexing node.
//!
//! The library holds the verified core of the gateway: classifying an
//! inbound subgraph query as free, paid, or rejected from the evidence in
//! its headers, translating the query processor's result into an HTTP-level
//! reply, and building the strings that the upstream GraphQL client sends
//! (request URLs and query envelopes) together with the attestability
//! reading of upstream responses.

pub mod dispatch;
pub mod graph_node;
pub mod headers;
