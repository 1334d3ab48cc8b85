//! The record that the touch controller hands out for one touch.

use crate::interface::{Gesture, Touch, TouchType};
use vstd::prelude::*;
use vstd::std_specs::convert::TryFromSpec;

verus! {

/// Address of the touch controller on its bus.
pub const TOUCH_CONTROLLER_ADDR: u8 = 0x15;

/// Size in bytes of the record of one touch.
pub const TOUCH_RECORD_LEN: usize = 7;

/// Why the record of a touch could not be read.
#[derive(Clone, Copy, Debug, PartialEq, Eq, Structural)]
pub enum TouchDecodeError {
    /// The gesture code stands for no gesture.
    UnknownGesture(u8),
    /// The event code stands for no phase of a touch.
    UnknownEventType(u8),
}

/// The event code of a record: the two high bits of its byte 3.
pub open spec fn event_type_code(byte: u8) -> u8 {
    byte / 64
}

/// The touch that a record stands for: byte 1 holds the gesture, the two
/// high bits of byte 3 the phase, byte 4 the x and byte 5 the y coordinate.
/// A gesture code that is not known is reported before an event code that
/// is not known.
pub open spec fn decoded_touch(record: Seq<u8>) -> Result<Touch, TouchDecodeError> {
    match Gesture::try_from_spec(record[1]) {
        Err(code) => Err(TouchDecodeError::UnknownGesture(code)),
        Ok(gesture) => match TouchType::try_from_spec(event_type_code(record[3])) {
            Err(code) => Err(TouchDecodeError::UnknownEventType(code)),
            Ok(event_type) => Ok(Touch { gesture, event_type, x: record[4], y: record[5] }),
        },
    }
}

/// Reads the record of one touch.
pub fn decode_touch(record: &[u8; 7]) -> (touch: Result<Touch, TouchDecodeError>)
    ensures
        touch == decoded_touch(record@),
{
    let gesture = match Gesture::try_from(record[1]) {
        Ok(gesture) => gesture,
        Err(code) => {
            return Err(TouchDecodeError::UnknownGesture(code));
        },
    };
    let byte = record[3];
    assert(byte >> 6 == byte / 64) by (bit_vector);
    let event_type = match TouchType::try_from(byte >> 6) {
        Ok(event_type) => event_type,
        Err(code) => {
            return Err(TouchDecodeError::UnknownEventType(code));
        },
    };
    Ok(Touch { gesture, event_type, x: record[4], y: record[5] })
}

/// A record is read as a touch exactly where its gesture code is one of the
/// eight that are known and its event code is below three.
pub proof fn lemma_decodable_records(record: Seq<u8>)
    ensures
        decoded_touch(record) is Ok <==> {
            &&& (record[1] <= 0x05 || record[1] == 0x0B || record[1] == 0x0C)
            &&& record[3] < 192
        },
        decoded_touch(record) matches Ok(touch) ==> touch.x == record[4] && touch.y == record[5],
{
}

} // verus!
