pub mod error;
pub mod observability;
pub mod policy_guard;
pub mod command_registry;
pub mod executor;
pub mod invocation;
pub mod permission_resolver;
