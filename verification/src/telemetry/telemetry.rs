//! # Telemetry Packets
//!
//! The serialization of flight data snapshots into fixed-size binary frames.
use vstd::prelude::*;

verus! {

/// The size of a serialized packet in bytes: 36 bytes of data and 1 byte of
/// status flags.
pub const PACKET_LEN: usize = 37;

/// A fixed-size snapshot of the vehicle state.
///
/// The angles, the altitude and the motor outputs are single-precision floats,
/// held here as their IEEE-754 bit patterns (what `f32::to_bits` gives).
///
/// ### Binary Layout
/// Each 32-bit field is written least significant byte first, so the frame
/// is the same on every platform.
///
/// | Field | Type | Offset |
/// | :--- | :--- | :--- |
/// | `timestamp_ms` | `u32` | 0 |
/// | `roll`..`pos_z` | `f32` x 4 | 4-19 |
/// | `motor_fl`..`rr` | `f32` x 4 | 20-35 |
/// | `status_flags` | `u8` | 36 |
#[derive(Debug, Clone, Copy)]
pub struct TelemetryPacket {
    /// System uptime in milliseconds.
    pub timestamp_ms: u32,
    /// Current Euler angles (Radians), as `f32` bit patterns.
    pub roll: u32,
    pub pitch: u32,
    pub yaw: u32,
    /// Vertical position (Altitude) in meters (NED frame), as an `f32` bit pattern.
    pub pos_z: u32,
    /// Normalized motor outputs [0.0 - 1.0], as `f32` bit patterns.
    pub motor_fl: u32,
    pub motor_fr: u32,
    pub motor_rl: u32,
    pub motor_rr: u32,
    /// Bitmask for system status:
    /// - Bit 0: Armed state (1 = Armed, 0 = Disarmed)
    /// - Bit 1: Failsafe active
    /// - Bit 2: Battery critical
    pub status_flags: u8,
}

/// The four bytes of `x`, least significant first.
pub open spec fn le_bytes(x: u32) -> Seq<u8> {
    seq![x as u8, (x >> 8u32) as u8, (x >> 16u32) as u8, (x >> 24u32) as u8]
}

/// The 32-bit word stored least significant byte first at `at` in `bytes`.
pub open spec fn le_word_at(bytes: Seq<u8>, at: int) -> u32 {
    (bytes[at] as u32) | ((bytes[at + 1] as u32) << 8u32) | ((bytes[at + 2] as u32) << 16u32) | (
    (bytes[at + 3] as u32) << 24u32)
}

impl TelemetryPacket {
    /// The serialized frame: the nine 32-bit fields in declaration order,
    /// then the status flags.
    pub open spec fn spec_bytes(self) -> Seq<u8> {
        le_bytes(self.timestamp_ms) + le_bytes(self.roll) + le_bytes(self.pitch) + le_bytes(
            self.yaw,
        ) + le_bytes(self.pos_z) + le_bytes(self.motor_fl) + le_bytes(self.motor_fr) + le_bytes(
            self.motor_rl,
        ) + le_bytes(self.motor_rr) + seq![self.status_flags]
    }

    /// Constructs a new telemetry snapshot; the status flags record only the
    /// armed state (bit 0).
    pub fn new(
        timestamp_ms: u32,
        roll: u32,
        pitch: u32,
        yaw: u32,
        pos_z: u32,
        motor_fl: u32,
        motor_fr: u32,
        motor_rl: u32,
        motor_rr: u32,
        armed: bool,
    ) -> (p: Self)
        ensures
            p.timestamp_ms == timestamp_ms,
            p.roll == roll,
            p.pitch == pitch,
            p.yaw == yaw,
            p.pos_z == pos_z,
            p.motor_fl == motor_fl,
            p.motor_fr == motor_fr,
            p.motor_rl == motor_rl,
            p.motor_rr == motor_rr,
            p.status_flags == (if armed { 1u8 } else { 0u8 }),
    {
        TelemetryPacket {
            timestamp_ms,
            roll,
            pitch,
            yaw,
            pos_z,
            motor_fl,
            motor_fr,
            motor_rl,
            motor_rr,
            status_flags: if armed {
                1
            } else {
                0
            },
        }
    }

    /// The packet as a byte frame for transmission.
    pub fn as_bytes(&self) -> (bytes: Vec<u8>)
        ensures
            bytes@ == self.spec_bytes(),
            bytes@.len() == PACKET_LEN,
    {
        let mut bytes: Vec<u8> = Vec::new();
        push_le_word(&mut bytes, self.timestamp_ms);
        push_le_word(&mut bytes, self.roll);
        push_le_word(&mut bytes, self.pitch);
        push_le_word(&mut bytes, self.yaw);
        push_le_word(&mut bytes, self.pos_z);
        push_le_word(&mut bytes, self.motor_fl);
        push_le_word(&mut bytes, self.motor_fr);
        push_le_word(&mut bytes, self.motor_rl);
        push_le_word(&mut bytes, self.motor_rr);
        bytes.push(self.status_flags);
        bytes
    }
}

/// Appends the four bytes of `x`, least significant first.
fn push_le_word(bytes: &mut Vec<u8>, x: u32)
    ensures
        final(bytes)@ == old(bytes)@ + le_bytes(x),
{
    bytes.push(x as u8);
    bytes.push((x >> 8u32) as u8);
    bytes.push((x >> 16u32) as u8);
    bytes.push((x >> 24u32) as u8);
}

/// Reading back the four bytes of a word gives the word.
pub proof fn lemma_le_word_roundtrip(x: u32)
    ensures
        le_word_at(le_bytes(x), 0) == x,
{
    let b = le_bytes(x);
    assert(b[0] == x as u8 && b[1] == (x >> 8u32) as u8 && b[2] == (x >> 16u32) as u8 && b[3] == (
    x >> 24u32) as u8);
    assert((((x as u8) as u32) | ((((x >> 8u32) as u8) as u32) << 8u32) | ((((x >> 16u32) as u8) as u32)
        << 16u32) | ((((x >> 24u32) as u8) as u32) << 24u32)) == x) by (bit_vector);
}

/// A word written at `at` inside a frame reads back from `at`.
proof fn lemma_word_in_frame(bytes: Seq<u8>, at: int, x: u32)
    requires
        0 <= at,
        at + 4 <= bytes.len(),
        bytes.subrange(at, at + 4) == le_bytes(x),
    ensures
        le_word_at(bytes, at) == x,
{
    let w = bytes.subrange(at, at + 4);
    assert(w[0] == bytes[at] && w[1] == bytes[at + 1] && w[2] == bytes[at + 2] && w[3] == bytes[at
        + 3]);
    lemma_le_word_roundtrip(x);
}

/// The frame follows the documented binary layout: it is `PACKET_LEN` bytes
/// long, each 32-bit field reads back from its offset, and the status flags
/// are the last byte.
pub proof fn lemma_packet_layout(p: TelemetryPacket)
    ensures
        p.spec_bytes().len() == PACKET_LEN,
        le_word_at(p.spec_bytes(), 0) == p.timestamp_ms,
        le_word_at(p.spec_bytes(), 4) == p.roll,
        le_word_at(p.spec_bytes(), 8) == p.pitch,
        le_word_at(p.spec_bytes(), 12) == p.yaw,
        le_word_at(p.spec_bytes(), 16) == p.pos_z,
        le_word_at(p.spec_bytes(), 20) == p.motor_fl,
        le_word_at(p.spec_bytes(), 24) == p.motor_fr,
        le_word_at(p.spec_bytes(), 28) == p.motor_rl,
        le_word_at(p.spec_bytes(), 32) == p.motor_rr,
        p.spec_bytes()[36] == p.status_flags,
{
    let b = p.spec_bytes();
    assert(b.subrange(0, 4) =~= le_bytes(p.timestamp_ms));
    assert(b.subrange(4, 8) =~= le_bytes(p.roll));
    assert(b.subrange(8, 12) =~= le_bytes(p.pitch));
    assert(b.subrange(12, 16) =~= le_bytes(p.yaw));
    assert(b.subrange(16, 20) =~= le_bytes(p.pos_z));
    assert(b.subrange(20, 24) =~= le_bytes(p.motor_fl));
    assert(b.subrange(24, 28) =~= le_bytes(p.motor_fr));
    assert(b.subrange(28, 32) =~= le_bytes(p.motor_rl));
    assert(b.subrange(32, 36) =~= le_bytes(p.motor_rr));
    lemma_word_in_frame(b, 0, p.timestamp_ms);
    lemma_word_in_frame(b, 4, p.roll);
    lemma_word_in_frame(b, 8, p.pitch);
    lemma_word_in_frame(b, 12, p.yaw);
    lemma_word_in_frame(b, 16, p.pos_z);
    lemma_word_in_frame(b, 20, p.motor_fl);
    lemma_word_in_frame(b, 24, p.motor_fr);
    lemma_word_in_frame(b, 28, p.motor_rl);
    lemma_word_in_frame(b, 32, p.motor_rr);
}

} // verus!
