//! Construction of outgoing command frames.
use vstd::prelude::*;

use crate::RESPONSE_OK;

verus! {

/// First byte of every command frame.
pub const FRAME_MARKER: u8 = 0x57;

/// Opcode of the "set current time" command.
pub const CMD_SET_TIME: u8 = 5;

/// Opcode of the "read section info" command.
pub const CMD_READ_SECTION_INFO: u8 = 59;

/// Opcode of the "read sample block" command.
pub const CMD_READ_SAMPLE_BLOCK: u8 = 60;

/// Size of the addressing unit of the history store, in bytes; also the
/// block multiplier sent with every "read sample block" command.
pub const BLOCK_SIZE: u8 = 6;

/// Class selector carried in the second byte of a frame.
pub open spec fn class_selector(opcode: u8) -> u8 {
    if opcode > 0x0f {
        0x0f
    } else {
        0
    }
}

/// The three bytes that open the frame of `opcode`.
pub open spec fn frame_header(opcode: u8) -> Seq<u8> {
    seq![FRAME_MARKER, class_selector(opcode), opcode]
}

/// A frame of `opcode` followed by `payload_length` zero bytes.
pub open spec fn blank_frame(opcode: u8, payload_length: nat) -> Seq<u8> {
    frame_header(opcode) + Seq::new(payload_length, |_i: int| 0u8)
}

/// The "read section info" command.
pub open spec fn read_section_info_frame() -> Seq<u8> {
    frame_header(CMD_READ_SECTION_INFO) + seq![0u8]
}

/// The "read sample block" command for the store offset `offset`: the
/// offset travels big-endian, followed by the block multiplier.
pub open spec fn read_sample_block_frame(offset: u16) -> Seq<u8> {
    frame_header(CMD_READ_SAMPLE_BLOCK) + seq![
        0u8,
        (offset as int / 256) as u8,
        (offset as int % 256) as u8,
        BLOCK_SIZE,
    ]
}

/// Big-endian bytes of the two's complement form of `t`.
pub open spec fn be_bytes_i64(t: i64) -> Seq<u8> {
    let u = t as u64;
    seq![
        (u >> 56u64) as u8,
        (u >> 48u64) as u8,
        (u >> 40u64) as u8,
        (u >> 32u64) as u8,
        (u >> 24u64) as u8,
        (u >> 16u64) as u8,
        (u >> 8u64) as u8,
        u as u8,
    ]
}

/// The "set time" command for the Unix timestamp `timestamp`.
pub open spec fn set_time_frame(timestamp: i64) -> Seq<u8> {
    frame_header(CMD_SET_TIME) + seq![3u8, 0u8] + be_bytes_i64(timestamp)
}

/// A frame of opcode `cmd` with a zeroed payload of `payload_length` bytes.
pub fn gen_cmd(cmd: u8, payload_length: usize) -> (r: Vec<u8>)
    requires
        payload_length <= usize::MAX - 3,
    ensures
        r@ == blank_frame(cmd, payload_length as nat),
        r@.len() == 3 + payload_length,
{
    let mut data: Vec<u8> = Vec::with_capacity(3 + payload_length);
    data.push(FRAME_MARKER);
    data.push(if cmd > 0x0f { 0x0f } else { 0 });
    data.push(cmd);
    let mut i: usize = 0;
    while i < payload_length
        invariant
            i <= payload_length,
            data@ == blank_frame(cmd, i as nat),
        decreases payload_length - i,
    {
        data.push(0u8);
        i = i + 1;
        assert(data@ =~= blank_frame(cmd, i as nat));
    }
    data
}

/// Builds the command that asks for the description of the history store.
pub fn build_read_section_info_command() -> (r: Vec<u8>)
    ensures
        r@ == read_section_info_frame(),
{
    let mut cmd = gen_cmd(CMD_READ_SECTION_INFO, 1);
    cmd.set(3, 0);
    assert(cmd@ =~= read_section_info_frame());
    cmd
}

/// Builds the command that fetches one block of the history store,
/// starting at byte `offset`.
pub fn build_read_sample_block_command(offset: u16) -> (r: Vec<u8>)
    ensures
        r@ == read_sample_block_frame(offset),
{
    let mut cmd = gen_cmd(CMD_READ_SAMPLE_BLOCK, 4);
    let high = (offset >> 8u16) as u8;
    let low = (offset & 0xffu16) as u8;
    assert(high == (offset as int / 256) as u8 && low == (offset as int % 256) as u8) by {
        assert(offset >> 8u16 == offset / 256) by (bit_vector);
        assert(offset & 0xffu16 == offset % 256) by (bit_vector);
    }
    cmd.set(3, 0);
    cmd.set(4, high);
    cmd.set(5, low);
    cmd.set(6, BLOCK_SIZE);
    assert(cmd@ =~= read_sample_block_frame(offset));
    cmd
}

/// Builds the command that sets the device clock to the Unix timestamp
/// `timestamp`.
pub fn build_set_time_command(timestamp: i64) -> (r: Vec<u8>)
    ensures
        r@ == set_time_frame(timestamp),
{
    let mut cmd = gen_cmd(CMD_SET_TIME, 10);
    let u = timestamp as u64;
    cmd.set(3, 3);
    cmd.set(4, 0);
    cmd.set(5, (u >> 56u64) as u8);
    cmd.set(6, (u >> 48u64) as u8);
    cmd.set(7, (u >> 40u64) as u8);
    cmd.set(8, (u >> 32u64) as u8);
    cmd.set(9, (u >> 24u64) as u8);
    cmd.set(10, (u >> 16u64) as u8);
    cmd.set(11, (u >> 8u64) as u8);
    cmd.set(12, u as u8);
    assert(cmd@ =~= set_time_frame(timestamp));
    cmd
}

/// Relies on chrono's `Local::now` and `DateTime::timestamp`: the current
/// time as whole seconds since the Unix epoch. Nothing is known of the value.
#[verifier::external_body]
fn now_timestamp() -> (r: i64) {
    chrono::Local::now().timestamp()
}

/// Builds the "set time" command for the current time of the local clock.
pub fn build_set_time_command_now() -> (r: Vec<u8>)
    ensures
        exists|t: i64| r@ == set_time_frame(t),
{
    let t = now_timestamp();
    build_set_time_command(t)
}

/// Whether a response opens with the success status.
pub fn is_ok_response(response: &[u8]) -> (r: bool)
    ensures
        r == (response@.len() > 0 && response@[0] == RESPONSE_OK),
{
    response.len() > 0 && response[0] == RESPONSE_OK
}

} // verus!
