//! A bridge from a blocking, handle-based overlay-network stack to an async
//! server: the stack's error convention, its configuration and lifecycle, and
//! the accept loop's decisions, with a simulated stack to drive them; and the
//! migration steps between two versions of a GraphQL schema.
pub mod accept;
pub mod config;
pub mod error;
pub mod migrate;
pub mod network;
pub mod protocol;
pub mod schema;
pub mod sim;
pub mod stack;

pub use network::TSNetwork;
pub use stack::Tailscale;
