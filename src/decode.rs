//! Decoders for the three response shapes: the description of the history
//! store, blocks of historical samples, and the live advertisement payload.
//!
//! Temperatures are fixed-point with one decimal digit: they are held as
//! whole tenths of a degree Celsius.
use vstd::prelude::*;

use crate::RESPONSE_OK;

verus! {

/// Device-type marker that opens a live advertisement payload.
pub const LIVE_MARKER: u8 = 105;

/// Description of the device's history store.
#[derive(Debug, Clone, Copy, PartialEq, Eq, Structural)]
pub struct MeterSectionInfo {
    /// Time of the oldest sample, in seconds since the Unix epoch.
    pub start_time: u32,
    /// Time of the newest sample, in seconds since the Unix epoch.
    pub end_time: u32,
    /// Number of bytes of sample data held by the store.
    pub data_length: u16,
    /// Seconds between two samples.
    pub interval: u16,
}

/// One historical reading.
#[derive(Debug, Clone, Copy, PartialEq, Eq, Structural)]
pub struct MeterSampleValue {
    /// Temperature in tenths of a degree Celsius.
    pub temperature: i16,
    /// Relative humidity in percent.
    pub humidity: u8,
}

/// The live reading broadcast in an advertisement.
#[derive(Debug, Clone, Copy, PartialEq, Eq, Structural)]
pub struct MeterValue {
    /// Temperature in tenths of a degree Celsius.
    pub temperature: i16,
    /// Relative humidity in percent.
    pub humidity: u8,
    /// Battery charge in percent.
    pub battery: u8,
}

/// Big-endian value of the two bytes of `b` from index `at`.
pub open spec fn be_u16_at(b: Seq<u8>, at: int) -> int {
    b[at] * 256 + b[at + 1]
}

/// Big-endian value of the four bytes of `b` from index `at`.
pub open spec fn be_u32_at(b: Seq<u8>, at: int) -> int {
    b[at] * 0x100_0000 + b[at + 1] * 0x1_0000 + b[at + 2] * 0x100 + b[at + 3]
}

/// What a section-info response describes, or `None` when it is too short
/// or does not report success.
pub open spec fn section_info_of(data: Seq<u8>) -> Option<MeterSectionInfo> {
    if data.len() < 13 || data[0] != RESPONSE_OK {
        None
    } else {
        Some(
            MeterSectionInfo {
                start_time: be_u32_at(data, 1) as u32,
                end_time: be_u32_at(data, 5) as u32,
                data_length: be_u16_at(data, 9) as u16,
                interval: be_u16_at(data, 11) as u16,
            },
        )
    }
}

/// A temperature in tenths from a byte whose bit 7 is the sign (set means
/// positive) and whose low seven bits are the whole degrees, and a digit of
/// tenths.
pub open spec fn signed_tenths(sign_and_degrees: u8, tenths: int) -> int {
    let magnitude = (sign_and_degrees % 128) * 10 + tenths;
    if sign_and_degrees >= 128 {
        magnitude
    } else {
        -magnitude
    }
}

/// The first reading of the 5-byte window `[b0, b1, b2, ..]`: its tenths
/// are the high nibble of `b2`.
pub open spec fn first_reading(b0: u8, b1: u8, b2: u8) -> MeterSampleValue {
    MeterSampleValue { temperature: signed_tenths(b0, b2 as int / 16) as i16, humidity: b1 % 128 }
}

/// The second reading of the 5-byte window `[.., b2, b3, b4]`: its tenths
/// are the low nibble of `b2`.
pub open spec fn second_reading(b2: u8, b3: u8, b4: u8) -> MeterSampleValue {
    MeterSampleValue { temperature: signed_tenths(b3, b2 as int % 16) as i16, humidity: b4 % 128 }
}

/// Reading number `k` of a sample-block response: windows of five bytes
/// follow the status byte, and each gives two readings, first then second.
pub open spec fn reading_at(data: Seq<u8>, k: int) -> MeterSampleValue {
    let w = 1 + 5 * (k / 2);
    if k % 2 == 0 {
        first_reading(data[w], data[w + 1], data[w + 2])
    } else {
        second_reading(data[w + 2], data[w + 3], data[w + 4])
    }
}

/// Whether a sample-block response is well shaped: success status, then at
/// least one whole 5-byte window and nothing else.
pub open spec fn is_sample_block(data: Seq<u8>) -> bool {
    data.len() >= 6 && data[0] == RESPONSE_OK && (data.len() - 1) % 5 == 0
}

/// All readings of a sample-block response, or `None` when it is not well
/// shaped.
pub open spec fn sample_block_of(data: Seq<u8>) -> Option<Seq<MeterSampleValue>> {
    if is_sample_block(data) {
        Some(Seq::new((2 * ((data.len() - 1) / 5)) as nat, |k: int| reading_at(data, k)))
    } else {
        None
    }
}

/// The live reading of an advertisement payload, or `None` unless it is six
/// bytes long and opens with the device-type marker.
pub open spec fn live_value_of(data: Seq<u8>) -> Option<MeterValue> {
    if data.len() != 6 || data[0] != LIVE_MARKER {
        None
    } else {
        Some(
            MeterValue {
                temperature: signed_tenths(data[4], data[3] as int % 16) as i16,
                humidity: data[5] % 128,
                battery: data[2] % 128,
            },
        )
    }
}

proof fn lemma_byte_fields(b: u8)
    ensures
        b & 0x7f == b % 128,
        (b & 0x80 == 0) == (b < 128),
        (b >> 4u8) & 0xf == b / 16,
        b & 0xf == b % 16,
{
    assert(b & 0x7f == b % 128) by (bit_vector);
    assert((b & 0x80 == 0) == (b < 128)) by (bit_vector);
    assert((b >> 4u8) & 0xf == b / 16) by (bit_vector);
    assert(b & 0xf == b % 16) by (bit_vector);
}

/// Temperature in tenths from a sign-and-degrees byte and a digit of tenths.
fn tenths_from(sign_and_degrees: u8, tenths: u8) -> (r: i16)
    requires
        tenths < 16,
    ensures
        r as int == signed_tenths(sign_and_degrees, tenths as int),
{
    proof {
        lemma_byte_fields(sign_and_degrees);
    }
    let magnitude = ((sign_and_degrees & 0x7f) as i16) * 10 + tenths as i16;
    if (sign_and_degrees & 0x80) == 0 {
        -magnitude
    } else {
        magnitude
    }
}

fn be_u16(data: &[u8], at: usize) -> (r: u16)
    requires
        at + 2 <= data@.len(),
    ensures
        r as int == be_u16_at(data@, at as int),
{
    (data[at] as u16) * 256 + data[at + 1] as u16
}

fn be_u32(data: &[u8], at: usize) -> (r: u32)
    requires
        at + 4 <= data@.len(),
    ensures
        r as int == be_u32_at(data@, at as int),
{
    (data[at] as u32) * 0x100_0000 + (data[at + 1] as u32) * 0x1_0000 + (data[at + 2] as u32)
        * 0x100 + data[at + 3] as u32
}

impl MeterSectionInfo {
    /// Decodes the answer to the "read section info" command: four
    /// big-endian fields after the status byte. Returns `None` for a
    /// response shorter than 13 bytes or without the success status.
    pub fn from_response(data: &[u8]) -> (r: Option<MeterSectionInfo>)
        ensures
            r == section_info_of(data@),
            data@.len() < 13 || data@[0] != RESPONSE_OK ==> r is None,
    {
        if data.len() < 13 || data[0] != RESPONSE_OK {
            return None;
        }
        let start_time = be_u32(data, 1);
        let end_time = be_u32(data, 5);
        let data_length = be_u16(data, 9);
        let interval = be_u16(data, 11);
        Some(MeterSectionInfo { start_time, end_time, data_length, interval })
    }
}

impl MeterSampleValue {
    /// Decodes a sample-block response into its readings, two per 5-byte
    /// window, in order. Returns `None` for a response that is not the
    /// success status followed by whole windows.
    pub fn from_response(data: &[u8]) -> (r: Option<Vec<MeterSampleValue>>)
        ensures
            r is Some <==> is_sample_block(data@),
            r is Some ==> Some(r->0@) == sample_block_of(data@),
            data@.len() < 6 || data@[0] != RESPONSE_OK || (data@.len() - 1) % 5 != 0 ==> r is None,
            r is Some ==> r->0@.len() == 2 * (data@.len() - 1) / 5,
    {
        if data.len() < 6 || data[0] != RESPONSE_OK || (data.len() - 1) % 5 != 0 {
            return None;
        }
        let n = data.len();
        let windows = (n - 1) / 5;
        assert(5 * windows == n - 1);
        let mut result: Vec<MeterSampleValue> = Vec::with_capacity(2 * windows);
        let mut j: usize = 0;
        while j < windows
            invariant
                n == data@.len(),
                5 * windows == n - 1,
                j <= windows,
                result@.len() == 2 * j,
                forall|k: int| 0 <= k < 2 * j ==> #[trigger] result@[k] == reading_at(data@, k),
            decreases windows - j,
        {
            assert(5 * j + 5 <= 5 * windows) by (nonlinear_arith)
                requires
                    j < windows,
            ;
            let at = 1 + 5 * j;
            let first = MeterSampleValue::first_value(data, at);
            let second = MeterSampleValue::second_value(data, at);
            result.push(first);
            result.push(second);
            assert(reading_at(data@, 2 * j as int) == first);
            assert(reading_at(data@, 2 * j + 1) == second);
            j = j + 1;
        }
        assert(result@ =~= sample_block_of(data@)->0);
        Some(result)
    }

    /// The first reading of the window that starts at index `at`.
    fn first_value(data: &[u8], at: usize) -> (r: MeterSampleValue)
        requires
            at + 3 <= data.len(),
        ensures
            r == first_reading(data@[at as int], data@[at + 1], data@[at + 2]),
    {
        proof {
            lemma_byte_fields(data@[at + 1]);
            lemma_byte_fields(data@[at + 2]);
        }
        let temperature = tenths_from(data[at], (data[at + 2] >> 4u8) & 0xf);
        let humidity = data[at + 1] & 0x7f;
        MeterSampleValue { temperature, humidity }
    }

    /// The second reading of the window that starts at index `at`.
    fn second_value(data: &[u8], at: usize) -> (r: MeterSampleValue)
        requires
            at + 5 <= data.len(),
        ensures
            r == second_reading(data@[at + 2], data@[at + 3], data@[at + 4]),
    {
        proof {
            lemma_byte_fields(data@[at + 2]);
            lemma_byte_fields(data@[at + 4]);
        }
        let temperature = tenths_from(data[at + 3], data[at + 2] & 0xf);
        let humidity = data[at + 4] & 0x7f;
        MeterSampleValue { temperature, humidity }
    }
}

impl MeterValue {
    /// Decodes the service data of an advertisement into the live reading.
    /// Returns `None` unless the payload is six bytes long and opens with
    /// the device-type marker.
    pub fn from_data(data: &[u8]) -> (r: Option<MeterValue>)
        ensures
            r == live_value_of(data@),
            data@.len() != 6 || data@[0] != LIVE_MARKER ==> r is None,
    {
        if data.len() != 6 || data[0] != LIVE_MARKER {
            return None;
        }
        proof {
            lemma_byte_fields(data@[2]);
            lemma_byte_fields(data@[3]);
            lemma_byte_fields(data@[5]);
        }
        let temperature = tenths_from(data[4], data[3] & 0xf);
        let humidity = data[5] & 0x7f;
        let battery = data[2] & 0x7f;
        Some(MeterValue { temperature, humidity, battery })
    }
}

} // verus!
