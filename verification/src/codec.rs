//! Telemetry messages as devices send them, and the rules a message must meet
//! before it enters the pipeline.
//!
//! A datagram carries one JSON object. Turning its bytes into a
//! [`UdpTelemetryMessage`] is the caller's part; [`decode`] takes the outcome
//! of that step and applies the protocol's own rules.

use vstd::prelude::*;
use vstd::string::StringExecFns;
use crate::scalar::Scalar;
use crate::text::decimal_u64;

verus! {

/// The only protocol version that is accepted.
pub const PROTOCOL_VERSION: u8 = 1;

/// A telemetry message as received from a device.
#[derive(Debug, Clone)]
pub struct UdpTelemetryMessage {
    /// Protocol version.
    pub version: u8,
    /// Globally unique device identifier.
    pub device_uid: String,
    /// UUID of the plant that the device monitors.
    pub plant_id: String,
    /// Sequence number, wrapping at `u32::MAX`.
    pub seq: u32,
    /// Time of the reading, in nanoseconds since the Unix epoch.
    pub timestamp_ns: i64,
    pub soil_moisture: Option<Scalar>,
    pub ambient_light_lux: Option<Scalar>,
    pub ambient_humidity_rh: Option<Scalar>,
    pub ambient_temp_c: Option<Scalar>,
}

/// Why a datagram was rejected.
#[derive(Debug)]
pub enum DecodeError {
    /// The bytes were not a JSON object of the expected shape; the text is the
    /// JSON reader's message.
    Json(String),
    /// The version is not [`PROTOCOL_VERSION`].
    UnsupportedVersion(u8),
    /// The device identifier is empty or white space.
    EmptyDeviceUid,
    /// The plant identifier is empty or white space.
    EmptyPlantId,
}

/// True for the characters with the Unicode property `White_Space`.
pub open spec fn is_white_space(c: char) -> bool {
    let u = c as u32;
    (0x09 <= u && u <= 0x0d) || u == 0x20 || u == 0x85 || u == 0xa0 || u == 0x1680 || (0x2000 <= u
        && u <= 0x200a) || u == 0x2028 || u == 0x2029 || u == 0x202f || u == 0x205f || u == 0x3000
}

/// True when nothing is left of the text once white space is trimmed from
/// both ends, that is, when every character is white space.
pub open spec fn is_blank(s: Seq<char>) -> bool {
    forall|i: int| 0 <= i < s.len() ==> is_white_space(#[trigger] s[i])
}

/// Tells whether a character is white space.
pub fn white_space(c: char) -> (r: bool)
    ensures
        r == is_white_space(c),
{
    let u: u32 = c as u32;
    (0x09 <= u && u <= 0x0d) || u == 0x20 || u == 0x85 || u == 0xa0 || u == 0x1680 || (0x2000 <= u
        && u <= 0x200a) || u == 0x2028 || u == 0x2029 || u == 0x202f || u == 0x205f || u == 0x3000
}

/// Tells whether a text is empty or white space only.
pub fn blank(s: &str) -> (r: bool)
    ensures
        r == is_blank(s@),
{
    for c in it: s.chars()
        invariant
            it.seq() == s@,
            forall|i: int| 0 <= i < it.index() ==> is_white_space(#[trigger] s@[i]),
    {
        if !white_space(c) {
            return false;
        }
    }
    true
}

impl DecodeError {
    /// The message of the error.
    pub open spec fn message(self) -> Seq<char> {
        match self {
            DecodeError::Json(e) => "JSON decode error: "@ + e@,
            DecodeError::UnsupportedVersion(v) => "unsupported protocol version "@
                + crate::text::decimal(v as int),
            DecodeError::EmptyDeviceUid => "device_uid is empty"@,
            DecodeError::EmptyPlantId => "plant_id is empty"@,
        }
    }
}

impl DecodeError {
    /// The message of the error, as text.
    pub fn to_text(&self) -> (s: String)
        ensures
            s@ == self.message(),
    {
        match self {
            DecodeError::Json(e) => {
                let mut s = "JSON decode error: ".to_owned();
                s.append(e.as_str());
                s
            },
            DecodeError::UnsupportedVersion(v) => {
                let mut s = "unsupported protocol version ".to_owned();
                let digits = decimal_u64(*v as u64);
                s.append(digits.as_str());
                s
            },
            DecodeError::EmptyDeviceUid => "device_uid is empty".to_owned(),
            DecodeError::EmptyPlantId => "plant_id is empty".to_owned(),
        }
    }
}

/// What [`decode`] returns for a message that was read from a datagram.
pub open spec fn check_message(msg: UdpTelemetryMessage) -> Result<
    UdpTelemetryMessage,
    DecodeError,
> {
    if msg.version != PROTOCOL_VERSION {
        Err(DecodeError::UnsupportedVersion(msg.version))
    } else if is_blank(msg.device_uid@) {
        Err(DecodeError::EmptyDeviceUid)
    } else if is_blank(msg.plant_id@) {
        Err(DecodeError::EmptyPlantId)
    } else {
        Ok(msg)
    }
}

/// True when the message meets the protocol's rules.
pub open spec fn well_formed(msg: UdpTelemetryMessage) -> bool {
    &&& msg.version == PROTOCOL_VERSION
    &&& !is_blank(msg.device_uid@)
    &&& !is_blank(msg.plant_id@)
}

/// Accepts or rejects what was read from a datagram. A datagram that could
/// not be read is rejected with the reader's message; a message is accepted
/// unchanged when it is well formed, and else rejected for the first rule it
/// breaks: version, device identifier, plant identifier.
pub fn decode(parsed: Result<UdpTelemetryMessage, String>) -> (r: Result<
    UdpTelemetryMessage,
    DecodeError,
>)
    ensures
        parsed is Err ==> r == Err::<UdpTelemetryMessage, DecodeError>(
            DecodeError::Json(parsed->Err_0),
        ),
        parsed is Ok ==> r == check_message(parsed->Ok_0),
        r is Ok <==> parsed is Ok && well_formed(parsed->Ok_0),
{
    match parsed {
        Err(e) => Err(DecodeError::Json(e)),
        Ok(msg) => {
            if msg.version != PROTOCOL_VERSION {
                return Err(DecodeError::UnsupportedVersion(msg.version));
            }
            if blank(msg.device_uid.as_str()) {
                return Err(DecodeError::EmptyDeviceUid);
            }
            if blank(msg.plant_id.as_str()) {
                return Err(DecodeError::EmptyPlantId);
            }
            Ok(msg)
        },
    }
}

} // verus!
