//! Lifecycle orchestration for subgraph deployments: admission control over the
//! set of running deployments, the steps of starting and stopping a deployment,
//! and the lifecycle events handed to the single downstream consumer.

pub mod types;
pub mod running;
pub mod channel;
pub mod resolver;
pub mod provider;
pub mod machine;
pub mod laws;
