//! The registry of build steps of a container image builder: the closed
//! catalog of step kinds, the schema that each kind's configuration must
//! meet, and the dispatch from a tagged configuration node to a typed,
//! shared step value.

pub mod catalog;
pub mod config;
pub mod dispatch;
pub mod error;
pub mod fingerprint;
pub mod node;
pub mod parser;
pub mod registry;
pub mod settings;
pub mod shape;
pub mod step;
pub mod text;
pub mod wrapper;
