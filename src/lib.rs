//! A call protocol through which a contract module reaches two host-native
//! operations (registering a verification key, verifying a proof), with a
//! registry of substitute handlers that lets tests answer calls without a host.

pub mod client;
pub mod contract;
pub mod ids;
pub mod outcome;
pub mod registry;
pub mod wire;

pub use contract::TestContract;
