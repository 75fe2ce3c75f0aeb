//! Native sample encodings and their conversion to the sink's 16-bit signed
//! output.
//!
//! A capture device delivers samples in whichever encoding it negotiated;
//! the sink always stores 16-bit signed integers, so unsigned input is
//! recentred around zero before writing.  Floating-point input is scaled to
//! the 16-bit range at the capture edge, outside this crate.

use vstd::prelude::*;

verus! {

/// The native encodings a capture device can deliver.  Anything beyond the
/// three supported ones is `Unsupported` and rejected when the stream is
/// negotiated.
#[derive(Clone, Copy, Debug, PartialEq, Eq, Structural)]
pub enum SampleEncoding {
    SignedInt16,
    UnsignedInt16,
    Float32,
    Unsupported,
}

/// The standard recentring conversion from unsigned to signed 16-bit: the
/// midpoint 32768 maps to zero, zero to the most negative value, 65535 to
/// the most positive.
pub open spec fn spec_u16_to_i16(s: u16) -> i16 {
    ((s - 32768) as i16)
}

/// Converts one unsigned 16-bit sample to signed.
pub fn convert_u16_sample(s: u16) -> (r: i16)
    ensures
        r == spec_u16_to_i16(s),
        r as int == s - 32768,
{
    if s < 32768 {
        (s as i16) - 32767 - 1
    } else {
        ((s - 32768) as i16)
    }
}

/// Converts a whole delivered batch of unsigned samples.
pub fn convert_u16_batch(batch: &Vec<u16>) -> (out: Vec<i16>)
    ensures
        out@ == batch@.map_values(|s: u16| spec_u16_to_i16(s)),
{
    let mut out: Vec<i16> = Vec::new();
    let mut i: usize = 0;
    while i < batch.len()
        invariant
            i <= batch@.len(),
            out@ == batch@.take(i as int).map_values(|s: u16| spec_u16_to_i16(s)),
        decreases batch@.len() - i,
    {
        out.push(convert_u16_sample(batch[i]));
        proof {
            assert(batch@.take(i + 1).map_values(|s: u16| spec_u16_to_i16(s))
                =~= batch@.take(i as int).map_values(|s: u16| spec_u16_to_i16(s))
                    .push(spec_u16_to_i16(batch@[i as int])));
        }
        i = i + 1;
    }
    proof {
        assert(batch@.take(batch@.len() as int) =~= batch@);
    }
    out
}

} // verus!
