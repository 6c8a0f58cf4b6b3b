//! A multi-cluster client registry: a closed enumeration of backend clusters,
//! environment-derived connection parameters, and a registry that holds one
//! connected client handle per cluster and resolves lookups by cluster
//! identity or by a caller-supplied routing configuration.

pub mod cluster;
pub mod env;
pub mod registry;
