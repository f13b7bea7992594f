//! A local hardware-telemetry hub: the snapshot model that a query is
//! answered from, the cell that holds the latest pushed temperature, and
//! the decisions of the ingestion and query paths.

pub mod failure;
pub mod ingest;
pub mod readings;
pub mod snapshot;
pub mod startup;
pub mod telemetry;
