//! A policy-gated HTTP fetch core: argument resolution, method parsing,
//! access-list configuration and checks, and the pre-dispatch sequence that
//! turns resolved options into an outbound request or a classified failure.

pub mod text;

pub mod dispatch;
pub mod error;
pub mod header;
pub mod method;
pub mod policy;
pub mod resolve;
pub mod uri;
