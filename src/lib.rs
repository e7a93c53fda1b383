//! Selection and defaulting engine for an interactive port-forwarding front-end
//! of a cluster command-line tool: preference records, the selection pipeline,
//! the tool's command lines and the supervisor of the forwarding process.

pub mod error;
pub mod kubectl;
pub mod model;
pub mod pipeline;
pub mod ports;
pub mod selection;
pub mod supervisor;
