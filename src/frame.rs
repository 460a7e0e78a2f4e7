//! Bus frames: identifiers, payload, the monitored identifier family and the
//! decoding of the measurement they carry.
use vstd::prelude::*;

verus! {

/// Largest standard (11-bit) identifier.
pub const STANDARD_ID_MAX: u16 = 0x7FF;

/// Largest extended (29-bit) identifier.
pub const EXTENDED_ID_MAX: u32 = 0x1FFF_FFFF;

/// Most payload bytes a frame carries.
pub const MAX_PAYLOAD: usize = 8;

/// Relies on embedded_can::StandardId::new, which accepts a raw value iff it
/// fits in 11 bits, and on StandardId::as_raw, which hands that value back.
#[verifier::external_body]
fn checked_standard_id(raw: u16) -> (r: Option<u16>)
    ensures
        r == (if raw <= 0x7FF { Some(raw) } else { None::<u16> }),
{
    embedded_can::StandardId::new(raw).map(|id| id.as_raw())
}

/// Relies on embedded_can::ExtendedId::new, which accepts a raw value iff it
/// fits in 29 bits, and on ExtendedId::as_raw, which hands that value back.
#[verifier::external_body]
fn checked_extended_id(raw: u32) -> (r: Option<u32>)
    ensures
        r == (if raw <= 0x1FFF_FFFF { Some(raw) } else { None::<u32> }),
{
    embedded_can::ExtendedId::new(raw).map(|id| id.as_raw())
}

/// A bus identifier: a standard 11-bit one or an extended 29-bit one.
#[derive(Clone, Copy, Debug, PartialEq, Eq, Structural)]
pub enum FrameId {
    Standard(u16),
    Extended(u32),
}

impl FrameId {
    /// The identifier fits the width of its kind.
    pub open spec fn wf(self) -> bool {
        match self {
            FrameId::Standard(raw) => raw <= STANDARD_ID_MAX,
            FrameId::Extended(raw) => raw <= EXTENDED_ID_MAX,
        }
    }

    /// A standard identifier, or `None` where `raw` does not fit in 11 bits.
    pub fn standard(raw: u16) -> (r: Option<FrameId>)
        ensures
            r == (if raw <= STANDARD_ID_MAX { Some(FrameId::Standard(raw)) } else { None }),
    {
        match checked_standard_id(raw) {
            Some(v) => Some(FrameId::Standard(v)),
            None => None,
        }
    }

    /// An extended identifier, or `None` where `raw` does not fit in 29 bits.
    pub fn extended(raw: u32) -> (r: Option<FrameId>)
        ensures
            r == (if raw <= EXTENDED_ID_MAX { Some(FrameId::Extended(raw)) } else { None }),
    {
        match checked_extended_id(raw) {
            Some(v) => Some(FrameId::Extended(v)),
            None => None,
        }
    }
}

/// A frame as received from the bus: identifier and payload.
#[derive(Clone, Debug)]
pub struct Frame {
    pub id: FrameId,
    pub data: Vec<u8>,
}

impl Frame {
    /// The identifier fits its kind and the payload holds at most eight bytes.
    pub open spec fn wf(&self) -> bool {
        &&& self.id.wf()
        &&& self.data@.len() <= MAX_PAYLOAD
    }

    /// A frame from an identifier and a payload, or `None` where the payload
    /// holds more than eight bytes.
    pub fn new(id: FrameId, data: Vec<u8>) -> (r: Option<Frame>)
        ensures
            data@.len() <= MAX_PAYLOAD <==> r.is_some(),
            r matches Some(f) ==> f.id == id && f.data@ == data@,
    {
        if data.len() <= MAX_PAYLOAD {
            Some(Frame { id, data })
        } else {
            None
        }
    }
}

/// The identifiers that carry the monitored telemetry: three devices with
/// four sub-channels each, all of them standard identifiers.
pub open spec fn frame_id_family() -> Set<u16> {
    set![
        0x300u16, 0x308u16, 0x310u16, 0x318u16,
        0x320u16, 0x328u16, 0x330u16, 0x338u16,
        0x340u16, 0x348u16, 0x350u16, 0x358u16,
    ]
}

/// The frame belongs to the monitored telemetry family.
pub open spec fn is_telemetry(frame: &Frame) -> bool {
    match frame.id {
        FrameId::Standard(raw) => frame_id_family().contains(raw),
        FrameId::Extended(_) => false,
    }
}

/// True iff the frame has a standard identifier that belongs to the family;
/// an extended identifier is never accepted, whatever its numeric value.
pub fn classify(frame: &Frame) -> (r: bool)
    ensures
        r == is_telemetry(frame),
        frame.id is Extended ==> !r,
        frame.id matches FrameId::Standard(raw) ==> (r <==> frame_id_family().contains(raw)),
{
    match frame.id {
        FrameId::Standard(raw) => {
            let r = raw == 0x300 || raw == 0x308 || raw == 0x310 || raw == 0x318
                || raw == 0x320 || raw == 0x328 || raw == 0x330 || raw == 0x338
                || raw == 0x340 || raw == 0x348 || raw == 0x350 || raw == 0x358;
            r
        },
        FrameId::Extended(_) => false,
    }
}

/// Offset subtracted from the raw reading before scaling.
pub const RAW_OFFSET: i32 = 20;

/// A decoded measurement, held exactly as a whole number of hundredths of a
/// percent: the percentage is `hundredths / 100`.
#[derive(Clone, Copy, Debug, PartialEq, Eq, Structural)]
pub struct Measurement {
    pub hundredths: i32,
}

/// Two bytes read as a big-endian unsigned 16-bit integer.
pub open spec fn be_u16(hi: u8, lo: u8) -> int {
    hi as int * 256 + lo as int
}

/// The measurement a raw reading stands for, in hundredths of a percent:
/// `(raw - 20) / 100` percent.
pub open spec fn hundredths_of_raw(raw: int) -> int {
    raw - RAW_OFFSET
}

/// What `decode` yields for a frame: a measurement where the frame is
/// telemetry and carries at least two payload bytes.
pub open spec fn decoded(frame: &Frame) -> Option<Measurement> {
    if is_telemetry(frame) && frame.data@.len() >= 2 {
        Some(Measurement {
            hundredths: hundredths_of_raw(be_u16(frame.data@[0], frame.data@[1])) as i32,
        })
    } else {
        None
    }
}

impl Measurement {
    /// The measurement of a raw reading: `(raw - 20) / 100` percent.
    pub fn from_raw(raw: u16) -> (r: Measurement)
        ensures
            r.hundredths == hundredths_of_raw(raw as int),
    {
        Measurement { hundredths: raw as i32 - RAW_OFFSET }
    }

    /// The measurement in hundredths of a percent.
    pub fn hundredths(&self) -> (r: i32)
        ensures
            r == self.hundredths,
    {
        self.hundredths
    }
}

/// The measurement a telemetry frame carries: its first two payload bytes,
/// big-endian, less 20, in hundredths of a percent. `None` for a frame
/// outside the family or with fewer than two payload bytes. No range check
/// is made on the result.
pub fn decode(frame: &Frame) -> (r: Option<Measurement>)
    ensures
        r == decoded(frame),
        r.is_some() <==> (is_telemetry(frame) && frame.data@.len() >= 2),
        r matches Some(m) ==> m.hundredths == be_u16(frame.data@[0], frame.data@[1]) - 20,
{
    if classify(frame) && frame.data.len() >= 2 {
        let raw: u16 = frame.data[0] as u16 * 256 + frame.data[1] as u16;
        Some(Measurement::from_raw(raw))
    } else {
        None
    }
}

} // verus!
