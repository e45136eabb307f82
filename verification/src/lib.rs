//! GraphQL backend binding for the mcpg gateway (`kind: "graphql"`).
//!
//! A tool call becomes a GraphQL request over HTTP: the arguments of the call
//! are the `variables`, the operation of the binding is the `query`. The library
//! holds what there is to decide: which binding specs are accepted, which
//! profile a call runs under, what is sent, and how the reply is reported. The
//! gateway reads the `downstreamError` of the report: it is set for a status
//! that the network core hands in as an error, for a non-empty GraphQL `errors`
//! array, and for a call that got no reply. Which statuses are errors is the
//! network core's part: all but 200.

pub mod binding;
pub mod call;
pub mod codec;
pub mod envelope;
pub mod json;
pub mod laws;
pub mod plugin;
pub mod protocol;
pub mod text;

pub use crate::plugin::GraphqlBackendPlugin;
