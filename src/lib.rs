//! A cluster controller core that fronts annotated workloads with generated
//! scale-to-zero proxy objects: annotation classification, configuration
//! derivation, watch-task bookkeeping and the reconciliation decisions.
pub mod annotation;
pub mod derivation;
pub mod laws;
pub mod operator_config;
pub mod reconcile;
pub mod registry;
pub mod sero_config;
pub mod text;
