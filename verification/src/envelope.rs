//! The unit of work of the pipeline and the values that processing it yields.

use vstd::prelude::*;
use crate::codec::UdpTelemetryMessage;
use crate::ingest_id::{compute, fingerprint};
use crate::scalar::Scalar;
use crate::threshold::Severity;

verus! {

/// Number of readings that a message can carry.
pub const METRIC_COUNT: usize = 4;

/// The name of the `i`-th metric, in the order in which readings are handled.
pub open spec fn metric_name(i: int) -> Seq<char> {
    if i == 0 {
        "soil_moisture"@
    } else if i == 1 {
        "ambient_light_lux"@
    } else if i == 2 {
        "ambient_humidity_rh"@
    } else {
        "ambient_temp_c"@
    }
}

/// The name of the `i`-th metric.
pub(crate) fn metric_name_of(i: usize) -> (name: &'static str)
    requires
        i < METRIC_COUNT,
    ensures
        name@ == metric_name(i as int),
{
    if i == 0 {
        "soil_moisture"
    } else if i == 1 {
        "ambient_light_lux"
    } else if i == 2 {
        "ambient_humidity_rh"
    } else {
        "ambient_temp_c"
    }
}

/// A decoded message together with its fingerprint.
#[derive(Debug, Clone)]
pub struct TelemetryEnvelope {
    pub ingest_id: String,
    pub device_uid: String,
    pub plant_id: String,
    pub timestamp_ns: i64,
    pub seq: u32,
    pub soil_moisture: Option<Scalar>,
    pub ambient_light_lux: Option<Scalar>,
    pub ambient_humidity_rh: Option<Scalar>,
    pub ambient_temp_c: Option<Scalar>,
}

/// What an envelope holds, as plain values.
pub struct EnvelopeView {
    pub ingest_id: Seq<char>,
    pub device_uid: Seq<char>,
    pub plant_id: Seq<char>,
    pub timestamp_ns: i64,
    pub seq: u32,
    pub soil_moisture: Option<Scalar>,
    pub ambient_light_lux: Option<Scalar>,
    pub ambient_humidity_rh: Option<Scalar>,
    pub ambient_temp_c: Option<Scalar>,
}

impl EnvelopeView {
    /// The reading of the `i`-th metric.
    pub open spec fn reading(self, i: int) -> Option<Scalar> {
        if i == 0 {
            self.soil_moisture
        } else if i == 1 {
            self.ambient_light_lux
        } else if i == 2 {
            self.ambient_humidity_rh
        } else {
            self.ambient_temp_c
        }
    }

    /// True when the envelope carries no reading at all.
    pub open spec fn no_reading(self) -> bool {
        &&& self.soil_moisture is None
        &&& self.ambient_light_lux is None
        &&& self.ambient_humidity_rh is None
        &&& self.ambient_temp_c is None
    }
}

impl View for TelemetryEnvelope {
    type V = EnvelopeView;

    open spec fn view(&self) -> EnvelopeView {
        EnvelopeView {
            ingest_id: self.ingest_id@,
            device_uid: self.device_uid@,
            plant_id: self.plant_id@,
            timestamp_ns: self.timestamp_ns,
            seq: self.seq,
            soil_moisture: self.soil_moisture,
            ambient_light_lux: self.ambient_light_lux,
            ambient_humidity_rh: self.ambient_humidity_rh,
            ambient_temp_c: self.ambient_temp_c,
        }
    }
}

impl TelemetryEnvelope {
    /// The reading of the `i`-th metric.
    pub(crate) fn reading(&self, i: usize) -> (r: Option<Scalar>)
        requires
            i < METRIC_COUNT,
        ensures
            r == self@.reading(i as int),
    {
        if i == 0 {
            self.soil_moisture
        } else if i == 1 {
            self.ambient_light_lux
        } else if i == 2 {
            self.ambient_humidity_rh
        } else {
            self.ambient_temp_c
        }
    }

    /// A copy of the envelope.
    pub fn duplicate(&self) -> (copy: TelemetryEnvelope)
        ensures
            copy@ == self@,
    {
        TelemetryEnvelope {
            ingest_id: self.ingest_id.clone(),
            device_uid: self.device_uid.clone(),
            plant_id: self.plant_id.clone(),
            timestamp_ns: self.timestamp_ns,
            seq: self.seq,
            soil_moisture: self.soil_moisture,
            ambient_light_lux: self.ambient_light_lux,
            ambient_humidity_rh: self.ambient_humidity_rh,
            ambient_temp_c: self.ambient_temp_c,
        }
    }
}

/// The envelope of a message: its fields, and the fingerprint of the four
/// that identify it.
pub open spec fn envelope_of(msg: UdpTelemetryMessage) -> EnvelopeView {
    EnvelopeView {
        ingest_id: fingerprint(msg.device_uid@, msg.plant_id@, msg.seq, msg.timestamp_ns),
        device_uid: msg.device_uid@,
        plant_id: msg.plant_id@,
        timestamp_ns: msg.timestamp_ns,
        seq: msg.seq,
        soil_moisture: msg.soil_moisture,
        ambient_light_lux: msg.ambient_light_lux,
        ambient_humidity_rh: msg.ambient_humidity_rh,
        ambient_temp_c: msg.ambient_temp_c,
    }
}

/// Wraps an accepted message into an envelope, computing its fingerprint.
pub fn seal(msg: UdpTelemetryMessage) -> (env: TelemetryEnvelope)
    ensures
        env@ == envelope_of(msg),
{
    let id = compute(msg.device_uid.as_str(), msg.plant_id.as_str(), msg.seq, msg.timestamp_ns);
    TelemetryEnvelope {
        ingest_id: id,
        device_uid: msg.device_uid,
        plant_id: msg.plant_id,
        timestamp_ns: msg.timestamp_ns,
        seq: msg.seq,
        soil_moisture: msg.soil_moisture,
        ambient_light_lux: msg.ambient_light_lux,
        ambient_humidity_rh: msg.ambient_humidity_rh,
        ambient_temp_c: msg.ambient_temp_c,
    }
}

/// How the processing of one envelope ended.
#[derive(Debug, Clone, Copy, PartialEq, Eq, Structural)]
pub enum IngestResult {
    /// Applied for the first time.
    Applied,
    /// Seen before; nothing was applied.
    Duplicate,
    /// Rejected or failed.
    Error,
}

impl IngestResult {
    /// The number of the result on the wire.
    pub open spec fn wire_code(self) -> i32 {
        match self {
            IngestResult::Applied => 0,
            IngestResult::Duplicate => 1,
            IngestResult::Error => 2,
        }
    }

    /// The number of the result on the wire: 0, 1 or 2.
    pub fn code(self) -> (c: i32)
        ensures
            c == self.wire_code(),
    {
        match self {
            IngestResult::Applied => 0,
            IngestResult::Duplicate => 1,
            IngestResult::Error => 2,
        }
    }
}

/// A change of a plant's overall severity.
#[derive(Debug, Clone)]
pub struct StatusChange {
    pub plant_id: String,
    pub prev_severity: Severity,
    pub new_severity: Severity,
    pub occurred_at_ns: i64,
}

/// What a status change holds, as plain values.
pub struct StatusChangeView {
    pub plant_id: Seq<char>,
    pub prev_severity: Severity,
    pub new_severity: Severity,
    pub occurred_at_ns: i64,
}

impl View for StatusChange {
    type V = StatusChangeView;

    open spec fn view(&self) -> StatusChangeView {
        StatusChangeView {
            plant_id: self.plant_id@,
            prev_severity: self.prev_severity,
            new_severity: self.new_severity,
            occurred_at_ns: self.occurred_at_ns,
        }
    }
}

impl StatusChange {
    /// A copy of the change.
    pub fn duplicate(&self) -> (copy: StatusChange)
        ensures
            copy@ == self@,
    {
        StatusChange {
            plant_id: self.plant_id.clone(),
            prev_severity: self.prev_severity,
            new_severity: self.new_severity,
            occurred_at_ns: self.occurred_at_ns,
        }
    }
}

/// The view of an optional status change.
pub open spec fn change_view(change: Option<StatusChange>) -> Option<StatusChangeView> {
    match change {
        Some(c) => Some(c@),
        None => None,
    }
}

} // verus!
