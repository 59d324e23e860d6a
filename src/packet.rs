//! Assembly of calibrated samples into wire packets.
use crate::calibration::{physical_value, CalibrationReference};
use vstd::prelude::*;

verus! {

/// Bytes that one sample takes on the wire.
pub const SAMPLE_WIDTH: usize = 2;

/// The endpoints' maximum packet size in the reference configuration.
pub const MAX_PACKET_SIZE: u16 = 64;

/// How many whole samples fit one packet of `max_packet_size` bytes.
pub open spec fn samples_in(max_packet_size: int) -> int {
    max_packet_size / (SAMPLE_WIDTH as int)
}

/// The samples in little-endian byte order, two bytes each.
pub open spec fn le_bytes(s: Seq<u16>) -> Seq<u8> {
    Seq::new(
        2 * s.len(),
        |i: int|
            if i % 2 == 0 {
                (s[i / 2] % 256) as u8
            } else {
                (s[i / 2] / 256) as u8
            },
    )
}

/// The samples in big-endian byte order, two bytes each.
pub open spec fn be_bytes(s: Seq<u16>) -> Seq<u8> {
    Seq::new(
        2 * s.len(),
        |i: int|
            if i % 2 == 0 {
                (s[i / 2] / 256) as u8
            } else {
                (s[i / 2] % 256) as u8
            },
    )
}

/// The samples in the byte order of the machine, whichever it is.
pub open spec fn native_bytes(b: Seq<u8>, s: Seq<u16>) -> bool {
    b == le_bytes(s) || b == be_bytes(s)
}

/// Each raw code mapped to millivolts against `reading`.
pub open spec fn physical_samples(raw: Seq<u16>, reading: u16) -> Seq<u16> {
    raw.map_values(|r: u16| physical_value(r as int, reading as int) as u16)
}

/// Whether `b` is the packet that carries the raw codes `raw`, calibrated
/// against `reading`.
pub open spec fn is_packet_of(b: Seq<u8>, raw: Seq<u16>, reading: u16) -> bool {
    native_bytes(b, physical_samples(raw, reading))
}

/// How many samples fit one packet of `max_packet_size` bytes.
pub fn samples_per_packet(max_packet_size: u16) -> (r: usize)
    ensures
        r as int == samples_in(max_packet_size as int),
{
    max_packet_size as usize / SAMPLE_WIDTH
}

/// Relies on bytemuck::cast_slice from `u16` to `u8`: the same memory read
/// as bytes, two per sample in the machine's byte order. The cast cannot
/// fail, as a byte has no alignment and divides any size.
#[verifier::external_body]
fn sample_bytes(samples: &[u16]) -> (r: Vec<u8>)
    ensures
        native_bytes(r@, samples@),
{
    bytemuck::cast_slice::<u16, u8>(samples).to_vec()
}

/// Calibrates each raw code against `reference`.
pub fn calibrate_samples(raw: &[u16], reference: &CalibrationReference) -> (r: Vec<u16>)
    requires
        reference.wf(),
    ensures
        r@ == physical_samples(raw@, reference.view_reading()),
{
    let mut out: Vec<u16> = Vec::with_capacity(raw.len());
    let mut i: usize = 0;
    while i < raw.len()
        invariant
            reference.wf(),
            i <= raw@.len(),
            out@ == physical_samples(raw@.subrange(0, i as int), reference.view_reading()),
        decreases raw@.len() - i,
    {
        let p = reference.to_physical(raw[i]);
        proof {
            assert(raw@.subrange(0, i + 1) == raw@.subrange(0, i as int).push(raw@[i as int]));
        }
        out.push(p);
        i += 1;
        proof {
            assert(out@ =~= physical_samples(raw@.subrange(0, i as int), reference.view_reading()));
        }
    }
    proof {
        assert(raw@.subrange(0, raw@.len() as int) == raw@);
    }
    out
}

/// The packet that carries `raw`: each code calibrated against `reference`
/// and written as two bytes.
pub fn assemble_packet(raw: &[u16], reference: &CalibrationReference) -> (r: Vec<u8>)
    requires
        reference.wf(),
    ensures
        is_packet_of(r@, raw@, reference.view_reading()),
        r@.len() == SAMPLE_WIDTH * raw@.len(),
{
    let physical = calibrate_samples(raw, reference);
    sample_bytes(physical.as_slice())
}

} // verus!
