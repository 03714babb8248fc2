//! The requests and answers of the data gateway.

use vstd::prelude::*;
use crate::telemetry_sink::{Tag, TelemetryPoint};

verus! {

/// A structured record for the relational store. The payload is JSON text
/// and is passed through as it stands.
#[derive(Debug)]
pub struct StructuredRecord {
    /// Target table.
    pub table: String,
    pub payload: String,
}

/// The body of a combined write: structured records, time-series points, or
/// both.
#[derive(Debug)]
pub struct DataRequest {
    pub structured: Option<Vec<StructuredRecord>>,
    pub timeseries: Option<Vec<TelemetryPoint>>,
}

/// The body of an update of a structured record.
#[derive(Debug)]
pub struct UpdateStructuredRequest {
    pub payload: String,
}

/// The body of a time-series query.
#[derive(Debug)]
pub struct TimeSeriesQueryRequest {
    pub measurement: String,
    pub start: String,
    pub stop: String,
    pub tag_filters: Vec<Tag>,
    /// Most points to return; 0 for no limit.
    pub limit: u32,
}

/// The body of a time-series deletion.
#[derive(Debug)]
pub struct DeleteTimeSeriesRequest {
    pub measurement: String,
    pub start: String,
    pub stop: String,
    pub tag_filters: Vec<Tag>,
}

/// The outcome of writing one structured record.
#[derive(Debug)]
pub struct StructuredWriteResult {
    pub table: String,
    pub id: Option<String>,
    pub success: bool,
    pub error: Option<String>,
}

/// The outcome of writing time-series points.
#[derive(Debug)]
pub struct TimeSeriesWriteResult {
    pub success: bool,
    pub error: Option<String>,
}

/// The answer to a combined write: a part for each kind that was asked for.
#[derive(Debug)]
pub struct DataResponse {
    pub structured: Option<Vec<StructuredWriteResult>>,
    pub timeseries: Option<TimeSeriesWriteResult>,
}

/// A row of the records table.
#[derive(Debug)]
pub struct DbRecord {
    pub id: String,
    pub table_name: String,
    pub payload: String,
    pub created_at: String,
    pub updated_at: String,
}

impl DataRequest {
    /// True when the request asks for nothing, which the gateway refuses.
    pub fn is_empty(&self) -> (r: bool)
        ensures
            r == (self.structured is None && self.timeseries is None),
    {
        self.structured.is_none() && self.timeseries.is_none()
    }
}

} // verus!
