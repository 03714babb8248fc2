//! Telemetry ingestion for plant-monitoring devices: datagram validation,
//! fingerprinting, batching, threshold evaluation, the per-envelope ingest
//! procedure and line-protocol serialisation, with machine-checked contracts.

pub mod text;
pub mod scalar;
pub mod threshold;
pub mod ingest_id;
pub mod codec;
pub mod telemetry_sink;
pub mod envelope;
pub mod plant_id;
pub mod assess;
pub mod ingest;
pub mod store;
pub mod procedure;
pub mod laws;
pub mod batch;
pub mod router;
pub mod payload;
pub mod models;
pub mod gateway;
pub mod secrets;
