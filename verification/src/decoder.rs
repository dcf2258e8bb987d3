//! The heart-rate decoder: one payload byte, scaled to a fraction.

use vstd::prelude::*;
use crate::binary32::{
    five_thousandths_of, lemma_five_thousandths_is_close, scale_by_five_thousandths, scaled_value,
};
use crate::config::HEART_RATE_DATA_INDEX;

verus! {

/// A decoded heart rate.
///
/// `normalized` is the value that goes on the wire: in a well-formed reading, the
/// pattern of the single-precision number `raw_byte * 0.005`.
#[derive(Clone, Copy, Debug, PartialEq, Eq)]
pub struct HeartRateReading {
    pub raw_byte: u8,
    pub normalized: u32,
}

impl HeartRateReading {
    /// The reading that a heart-rate byte stands for.
    pub open spec fn of(raw_byte: u8) -> HeartRateReading {
        HeartRateReading { raw_byte, normalized: five_thousandths_of(raw_byte) }
    }

    /// Whether the normalized value is the one that belongs to the heart-rate byte.
    pub open spec fn well_formed(&self) -> bool {
        *self == HeartRateReading::of(self.raw_byte)
    }

    /// The reading of a heart-rate byte.
    pub fn from_byte(raw_byte: u8) -> (reading: HeartRateReading)
        ensures
            reading == HeartRateReading::of(raw_byte),
            reading.well_formed(),
    {
        HeartRateReading { raw_byte, normalized: scale_by_five_thousandths(raw_byte) }
    }

    /// The normalized value in exact thousandths, as a decimal display needs it:
    /// `raw_byte * 0.005 * 1000`.
    pub fn thousandths(&self) -> (value: u16)
        ensures
            value == 5 * self.raw_byte,
    {
        5 * (self.raw_byte as u16)
    }
}

/// What a manufacturer payload decodes to: nothing while it is too short to hold the
/// heart-rate byte, else the reading of that byte, whatever its value.
pub open spec fn decoded(payload: Seq<u8>) -> Option<HeartRateReading> {
    if payload.len() > HEART_RATE_DATA_INDEX {
        Some(HeartRateReading::of(payload[HEART_RATE_DATA_INDEX as int]))
    } else {
        None
    }
}

/// Extracts and normalizes the heart rate of a manufacturer payload.
pub fn decode(payload: &[u8]) -> (reading: Option<HeartRateReading>)
    ensures
        reading == decoded(payload@),
{
    if payload.len() > HEART_RATE_DATA_INDEX {
        Some(HeartRateReading::from_byte(payload[HEART_RATE_DATA_INDEX]))
    } else {
        None
    }
}

/// A payload of fewer than four bytes decodes to nothing; any longer one decodes to the
/// well-formed reading of its fourth byte, of which nothing else is asked.
pub proof fn lemma_decoded_iff_four_bytes(payload: Seq<u8>)
    ensures
        decoded(payload) is Some <==> payload.len() >= 4,
        payload.len() >= 4 ==> decoded(payload) == Some(HeartRateReading::of(payload[3])),
        decoded(payload) matches Some(reading) ==> reading.well_formed(),
{
}

/// The normalized value of a well-formed reading is the heart-rate byte times 0.005:
/// exactly zero for a zero byte, and for any other byte a single-precision number that
/// is less than one ten-millionth away. (The number times `2^31` is compared with the
/// byte times `0.005 * 2^31`, both taken a thousandfold to stay with integers.)
pub proof fn lemma_normalized_value(reading: HeartRateReading)
    requires
        reading.well_formed(),
    ensures
        reading.raw_byte == 0 ==> reading.normalized == 0,
        reading.raw_byte > 0 ==> -0x8000_0000 < 10_000 * (1000 * scaled_value(reading.normalized)
            - 5 * reading.raw_byte * 0x8000_0000) < 0x8000_0000,
{
    if reading.raw_byte > 0 {
        lemma_five_thousandths_is_close(reading.raw_byte);
    }
}

} // verus!
