//! Verified core of a desktop shell's native backend: the lifecycle and
//! request handling of a loopback OAuth callback receiver, and the decisions
//! of an HTTP request proxy.

pub mod auth_server;
pub mod http_client;
pub mod query;
pub mod shutdown;
pub mod text;
