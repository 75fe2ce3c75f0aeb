//! The on-disk artifact: a linear PCM (WAV) container with 16-bit signed
//! samples.
//!
//! [`SampleSink`] is the incremental writer: `create` lays down the 44-byte
//! chunked header with zeroed length fields, `write_sample` appends one
//! sample in little-endian two's complement, and `finalize` patches the two
//! length fields and surrenders the finished byte image.  The byte layout is
//! pinned down exactly by the spec functions here, and `parse_wav_header`
//! recovers the declared format from a finished image.

use vstd::prelude::*;
use vstd::arithmetic::div_mod::{
    lemma_fundamental_div_mod, lemma_div_denominator, lemma_multiply_divide_lt,
};
use crate::errors::RecorderError;
use crate::MAX_DATA_BYTES;

verus! {

/// Byte `k` of a little-endian encoding: `le_at(v, p)` is the byte of weight
/// `p`, where `p` is 1, 256, 65536 or 16777216.
pub open spec fn le_at(v: int, p: int) -> u8 {
    (((v / p) % 256) as u8)
}

/// The unsigned 16-bit word that carries sample `s` in two's complement.
pub open spec fn i16_word(s: i16) -> int {
    if s >= 0 {
        s as int
    } else {
        s + 65536
    }
}

/// A 16-bit value as its two little-endian bytes.
pub open spec fn u16_le(v: int) -> Seq<u8> {
    seq![le_at(v, 1), le_at(v, 256)]
}

/// A 32-bit value as its four little-endian bytes.
pub open spec fn u32_le(v: int) -> Seq<u8> {
    seq![le_at(v, 1), le_at(v, 256), le_at(v, 65536), le_at(v, 16777216)]
}

/// The two little-endian bytes of one written sample.
pub open spec fn sample_bytes(s: i16) -> Seq<u8> {
    u16_le(i16_word(s))
}

/// The data chunk contents: every sample, in order, two bytes each.
pub open spec fn data_bytes(samples: Seq<i16>) -> Seq<u8>
    decreases samples.len(),
{
    if samples.len() == 0 {
        Seq::empty()
    } else {
        data_bytes(samples.drop_last()) + sample_bytes(samples.last())
    }
}

pub proof fn lemma_data_bytes_len(samples: Seq<i16>)
    ensures
        data_bytes(samples).len() == 2 * samples.len(),
    decreases samples.len(),
{
    if samples.len() > 0 {
        lemma_data_bytes_len(samples.drop_last());
    }
}

/// The 44-byte header: RIFF chunk, fmt chunk (16-byte PCM form, format tag 1,
/// 16 bits per sample) and the data chunk tag.  The two length fields are
/// given explicitly so the same function describes both the just-created
/// header (both zero) and the finalized one.
pub open spec fn header_bytes_with(channels: int, rate: int, riff_field: int, data_field: int) -> Seq<u8> {
    seq![0x52u8, 0x49u8, 0x46u8, 0x46u8]
        + u32_le(riff_field)
        + seq![0x57u8, 0x41u8, 0x56u8, 0x45u8, 0x66u8, 0x6Du8, 0x74u8, 0x20u8,
               16u8, 0u8, 0u8, 0u8, 1u8, 0u8]
        + u16_le(channels)
        + u32_le(rate)
        + u32_le(2 * channels * rate)
        + u16_le(2 * channels)
        + seq![16u8, 0u8, 0x64u8, 0x61u8, 0x74u8, 0x61u8]
        + u32_le(data_field)
}

/// A finished, playable image: header with correct lengths, then the data.
pub open spec fn wav_file_bytes(channels: int, rate: int, samples: Seq<i16>) -> Seq<u8> {
    header_bytes_with(channels, rate, 36 + 2 * samples.len() as int, 2 * samples.len() as int)
        + data_bytes(samples)
}

/// The formats a sink accepts: at least one channel, a block alignment
/// (2 bytes per sample times channels) that fits its 16-bit field, a nonzero
/// rate, and a byte rate that fits its 32-bit field.
pub open spec fn valid_format(channels: int, rate: int) -> bool {
    &&& 1 <= channels
    &&& 2 * channels <= 0xFFFF
    &&& 1 <= rate
    &&& 2 * channels * rate <= 0xFFFF_FFFF
}

/// Recomposing the two little-endian bytes of a 16-bit value gives the value
/// back.
pub proof fn lemma_le16_recompose(v: int)
    requires
        0 <= v < 0x1_0000,
    ensures
        le_at(v, 1) + 256 * le_at(v, 256) == v,
{
    lemma_fundamental_div_mod(v, 256);
    assert(v / 1 == v);
    lemma_multiply_divide_lt(v, 256, 256);
    assert((v / 256) % 256 == v / 256);
}

/// Recomposing the four little-endian bytes of a 32-bit value gives the
/// value back.
pub proof fn lemma_le32_recompose(v: int)
    requires
        0 <= v < 0x1_0000_0000,
    ensures
        le_at(v, 1) + 256 * le_at(v, 256) + 65536 * le_at(v, 65536)
            + 16777216 * le_at(v, 16777216) == v,
{
    lemma_fundamental_div_mod(v, 256);
    lemma_fundamental_div_mod(v / 256, 256);
    lemma_fundamental_div_mod(v / 65536, 256);
    lemma_div_denominator(v, 256, 256);
    lemma_div_denominator(v, 65536, 256);
    assert(v / 1 == v);
    lemma_multiply_divide_lt(v, 16777216, 256);
    assert((v / 16777216) % 256 == v / 16777216);
}

/// What a well-formed header declares: the format and the length of the data
/// chunk in bytes.
#[derive(Clone, Copy, Debug, PartialEq, Eq, Structural)]
pub struct WavInfo {
    pub channels: u16,
    pub sample_rate: u32,
    pub data_len: u32,
}

impl WavInfo {
    /// Total declared sample count, all channels together.
    pub open spec fn spec_total_samples(self) -> int {
        self.data_len as int / 2
    }

    /// Total declared sample count, all channels together.
    pub fn total_samples(&self) -> (n: u32)
        ensures
            n == self.spec_total_samples(),
    {
        self.data_len / 2
    }
}

/// Reads a finished image's header back.  `Some` exactly when the image is a
/// well-formed container of the kind this library writes: the RIFF/WAVE/fmt
/// and data tags in place, a 16-byte PCM fmt chunk declaring 16-bit samples,
/// consistent derived fields, and both length fields matching the image's
/// actual length.
pub open spec fn spec_parse_wav_header(b: Seq<u8>) -> Option<WavInfo> {
    if b.len() < 44 {
        None
    } else {
        let channels = b[22] + 256 * b[23];
        let rate = b[24] + 256 * b[25] + 65536 * b[26] + 16777216 * b[27];
        let byte_rate = b[28] + 256 * b[29] + 65536 * b[30] + 16777216 * b[31];
        let block_align = b[32] + 256 * b[33];
        let riff_len = b[4] + 256 * b[5] + 65536 * b[6] + 16777216 * b[7];
        let data_len = b[40] + 256 * b[41] + 65536 * b[42] + 16777216 * b[43];
        if b[0] == 0x52 && b[1] == 0x49 && b[2] == 0x46 && b[3] == 0x46
            && b[8] == 0x57 && b[9] == 0x41 && b[10] == 0x56 && b[11] == 0x45
            && b[12] == 0x66 && b[13] == 0x6D && b[14] == 0x74 && b[15] == 0x20
            && b[16] == 16 && b[17] == 0 && b[18] == 0 && b[19] == 0
            && b[20] == 1 && b[21] == 0
            && b[34] == 16 && b[35] == 0
            && b[36] == 0x64 && b[37] == 0x61 && b[38] == 0x74 && b[39] == 0x61
            && 1 <= channels && 1 <= rate
            && block_align == 2 * channels
            && byte_rate == 2 * channels * rate
            && riff_len == 36 + data_len
            && b.len() == 44 + data_len
            && data_len % 2 == 0 {
            Some(WavInfo {
                channels: channels as u16,
                sample_rate: rate as u32,
                data_len: data_len as u32,
            })
        } else {
            None
        }
    }
}

/// Executable form of [`spec_parse_wav_header`].
pub fn parse_wav_header(bytes: &Vec<u8>) -> (r: Option<WavInfo>)
    ensures
        r == spec_parse_wav_header(bytes@),
{
    if bytes.len() < 44 {
        return None;
    }
    let channels: u32 = (bytes[22] as u32) + 256 * (bytes[23] as u32);
    let rate: u32 = (bytes[24] as u32) + 256 * (bytes[25] as u32) + 65536 * (bytes[26] as u32)
        + 16777216 * (bytes[27] as u32);
    let byte_rate: u32 = (bytes[28] as u32) + 256 * (bytes[29] as u32) + 65536 * (bytes[30] as u32)
        + 16777216 * (bytes[31] as u32);
    let block_align: u32 = (bytes[32] as u32) + 256 * (bytes[33] as u32);
    let riff_len: u32 = (bytes[4] as u32) + 256 * (bytes[5] as u32) + 65536 * (bytes[6] as u32)
        + 16777216 * (bytes[7] as u32);
    let data_len: u32 = (bytes[40] as u32) + 256 * (bytes[41] as u32) + 65536 * (bytes[42] as u32)
        + 16777216 * (bytes[43] as u32);
    let tags_ok = bytes[0] == 0x52 && bytes[1] == 0x49 && bytes[2] == 0x46 && bytes[3] == 0x46
        && bytes[8] == 0x57 && bytes[9] == 0x41 && bytes[10] == 0x56 && bytes[11] == 0x45
        && bytes[12] == 0x66 && bytes[13] == 0x6D && bytes[14] == 0x74 && bytes[15] == 0x20
        && bytes[16] == 16 && bytes[17] == 0 && bytes[18] == 0 && bytes[19] == 0
        && bytes[20] == 1 && bytes[21] == 0
        && bytes[34] == 16 && bytes[35] == 0
        && bytes[36] == 0x64 && bytes[37] == 0x61 && bytes[38] == 0x74 && bytes[39] == 0x61;
    assert(2 * (channels as int) * (rate as int) <= 2 * 65535 * 0xFFFF_FFFF)
        by (nonlinear_arith)
        requires
            channels <= 65535u32,
            rate <= 0xFFFF_FFFFu32,
    ;
    let fields_ok = 1 <= channels && 1 <= rate
        && block_align == 2 * channels
        && (byte_rate as u64) == 2u64 * (channels as u64) * (rate as u64)
        && (riff_len as u64) == 36u64 + (data_len as u64)
        && (bytes.len() as u64) == 44u64 + (data_len as u64)
        && data_len % 2 == 0;
    if tags_ok && fields_ok {
        Some(WavInfo {
            channels: channels as u16,
            sample_rate: rate,
            data_len,
        })
    } else {
        None
    }
}

/// Reopening an image this library finalized reports exactly the format it
/// was captured with, and a data length of two bytes for every sample
/// written.
#[verifier::rlimit(100)]
pub proof fn lemma_wav_round_trip(channels: int, rate: int, samples: Seq<i16>)
    requires
        valid_format(channels, rate),
        2 * samples.len() <= MAX_DATA_BYTES,
    ensures
        spec_parse_wav_header(wav_file_bytes(channels, rate, samples))
            == Some(WavInfo {
                channels: channels as u16,
                sample_rate: rate as u32,
                data_len: (2 * samples.len()) as u32,
            }),
        spec_parse_wav_header(wav_file_bytes(channels, rate, samples))
            matches Some(info) && info.spec_total_samples() == samples.len(),
{
    lemma_data_bytes_len(samples);
    let n = samples.len() as int;
    let b = wav_file_bytes(channels, rate, samples);
    let h = header_bytes_with(channels, rate, 36 + 2 * n, 2 * n);
    assert(h.len() == 44);
    assert(b.len() == 44 + 2 * n);
    assert forall|i: int| 0 <= i < 44 implies b[i] == h[i] by {}
    assert(b[22] == le_at(channels, 1) && b[23] == le_at(channels, 256));
    assert(b[24] == le_at(rate, 1) && b[25] == le_at(rate, 256) && b[26] == le_at(rate, 65536)
        && b[27] == le_at(rate, 16777216));
    assert(b[28] == le_at(2 * channels * rate, 1) && b[29] == le_at(2 * channels * rate, 256)
        && b[30] == le_at(2 * channels * rate, 65536)
        && b[31] == le_at(2 * channels * rate, 16777216));
    assert(b[32] == le_at(2 * channels, 1) && b[33] == le_at(2 * channels, 256));
    assert(b[4] == le_at(36 + 2 * n, 1) && b[5] == le_at(36 + 2 * n, 256)
        && b[6] == le_at(36 + 2 * n, 65536) && b[7] == le_at(36 + 2 * n, 16777216));
    assert(b[40] == le_at(2 * n, 1) && b[41] == le_at(2 * n, 256) && b[42] == le_at(2 * n, 65536)
        && b[43] == le_at(2 * n, 16777216));
    assert(b[0] == 0x52u8 && b[1] == 0x49u8 && b[2] == 0x46u8 && b[3] == 0x46u8);
    assert(b[8] == 0x57u8 && b[9] == 0x41u8 && b[10] == 0x56u8 && b[11] == 0x45u8);
    assert(b[12] == 0x66u8 && b[13] == 0x6Du8 && b[14] == 0x74u8 && b[15] == 0x20u8);
    assert(b[16] == 16u8 && b[17] == 0u8 && b[18] == 0u8 && b[19] == 0u8);
    assert(b[20] == 1u8 && b[21] == 0u8);
    assert(b[34] == 16u8 && b[35] == 0u8);
    assert(b[36] == 0x64u8 && b[37] == 0x61u8 && b[38] == 0x74u8 && b[39] == 0x61u8);
    assert(rate <= 2 * channels * rate) by (nonlinear_arith)
        requires
            1 <= channels,
            1 <= rate,
    ;
    lemma_le16_recompose(channels);
    lemma_le16_recompose(2 * channels);
    lemma_le32_recompose(rate);
    lemma_le32_recompose(2 * channels * rate);
    lemma_le32_recompose(36 + 2 * n);
    lemma_le32_recompose(2 * n);
    assert(b[22] + 256 * b[23] == channels);
    assert(b[24] + 256 * b[25] + 65536 * b[26] + 16777216 * b[27] == rate);
    assert(b[28] + 256 * b[29] + 65536 * b[30] + 16777216 * b[31] == 2 * channels * rate);
    assert(b[32] + 256 * b[33] == 2 * channels);
    assert(b[4] + 256 * b[5] + 65536 * b[6] + 16777216 * b[7] == 36 + 2 * n);
    assert(b[40] + 256 * b[41] + 65536 * b[42] + 16777216 * b[43] == 2 * n);
    assert((2 * n) % 2 == 0) by (nonlinear_arith);
}

/// Incremental writer for one recording's container file.
///
/// Holds the growing byte image; the header goes in at creation, each
/// accepted sample appends two bytes, and `finalize` consumes the sink —
/// nothing can be written afterwards, and only a finalized image carries
/// correct length fields.
pub struct SampleSink {
    channels: u16,
    sample_rate: u32,
    bytes: Vec<u8>,
    samples: Ghost<Seq<i16>>,
}

impl SampleSink {
    /// Declared channel count.
    pub closed spec fn channels(self) -> u16 {
        self.channels
    }

    /// Declared sample rate.
    pub closed spec fn sample_rate(self) -> u32 {
        self.sample_rate
    }

    /// The samples accepted so far, in order.
    pub closed spec fn samples(self) -> Seq<i16> {
        self.samples@
    }

    /// Internal invariant: the format is valid, the data still fits the
    /// 32-bit length fields, and the byte image is the zero-length header
    /// followed by the data written so far.
    pub closed spec fn wf(self) -> bool {
        &&& valid_format(self.channels as int, self.sample_rate as int)
        &&& 2 * self.samples@.len() <= MAX_DATA_BYTES
        &&& self.bytes@ == header_bytes_with(self.channels as int, self.sample_rate as int, 0, 0)
            + data_bytes(self.samples@)
    }

    /// A well-formed sink's data always fits the 32-bit length fields.
    pub proof fn lemma_wf_capacity(self)
        requires
            self.wf(),
        ensures
            2 * self.samples().len() <= MAX_DATA_BYTES,
            valid_format(self.channels() as int, self.sample_rate() as int),
    {
    }

    /// Opens a sink for the given format, writing the header immediately.
    /// Fails exactly on an invalid format: zero channels, zero rate, or a
    /// channel count whose block alignment or byte rate overflows its field.
    #[verifier::rlimit(80)]
    pub fn create(channels: u16, sample_rate: u32) -> (r: Result<SampleSink, RecorderError>)
        ensures
            r is Ok <==> valid_format(channels as int, sample_rate as int),
            r matches Ok(sink) ==> {
                &&& sink.wf()
                &&& sink.channels() == channels
                &&& sink.sample_rate() == sample_rate
                &&& sink.samples() == Seq::<i16>::empty()
            },
            r matches Err(e) ==> e == RecorderError::IoError,
    {
        if channels == 0 || channels > 0x7FFF || sample_rate == 0 {
            return Err(RecorderError::IoError);
        }
        assert(2 * (channels as int) * (sample_rate as int) <= 0xFFFE * 0xFFFF_FFFF) by (nonlinear_arith)
            requires
                channels <= 0x7FFFu16,
                sample_rate <= 0xFFFF_FFFFu32,
        ;
        let byte_rate_wide: u64 = 2u64 * (channels as u64) * (sample_rate as u64);
        if byte_rate_wide > 0xFFFF_FFFFu64 {
            return Err(RecorderError::IoError);
        }
        let byte_rate: u32 = byte_rate_wide as u32;
        let block_align: u16 = 2 * channels;
        let mut bytes: Vec<u8> = Vec::new();
        // RIFF chunk tag; its length field is patched at finalize.
        bytes.push(0x52);
        bytes.push(0x49);
        bytes.push(0x46);
        bytes.push(0x46);
        bytes.push(0);
        bytes.push(0);
        bytes.push(0);
        bytes.push(0);
        // WAVE form tag, then the fmt chunk: tag, 16-byte length, PCM format.
        bytes.push(0x57);
        bytes.push(0x41);
        bytes.push(0x56);
        bytes.push(0x45);
        bytes.push(0x66);
        bytes.push(0x6D);
        bytes.push(0x74);
        bytes.push(0x20);
        bytes.push(16);
        bytes.push(0);
        bytes.push(0);
        bytes.push(0);
        bytes.push(1);
        bytes.push(0);
        bytes.push((channels % 256) as u8);
        bytes.push((channels / 256) as u8);
        bytes.push((sample_rate % 256) as u8);
        bytes.push(((sample_rate / 256) % 256) as u8);
        bytes.push(((sample_rate / 65536) % 256) as u8);
        bytes.push(((sample_rate / 16777216) % 256) as u8);
        bytes.push((byte_rate % 256) as u8);
        bytes.push(((byte_rate / 256) % 256) as u8);
        bytes.push(((byte_rate / 65536) % 256) as u8);
        bytes.push(((byte_rate / 16777216) % 256) as u8);
        bytes.push((block_align % 256) as u8);
        bytes.push((block_align / 256) as u8);
        bytes.push(16);
        bytes.push(0);
        // Data chunk tag; its length field is patched at finalize too.
        bytes.push(0x64);
        bytes.push(0x61);
        bytes.push(0x74);
        bytes.push(0x61);
        bytes.push(0);
        bytes.push(0);
        bytes.push(0);
        bytes.push(0);
        let sink = SampleSink {
            channels,
            sample_rate,
            bytes,
            samples: Ghost(Seq::empty()),
        };
        proof {
            assert(sink.bytes@ =~= header_bytes_with(channels as int, sample_rate as int, 0, 0)
                + data_bytes(Seq::<i16>::empty()));
        }
        Ok(sink)
    }

    /// Appends one 16-bit signed sample.  Fails, leaving the sink unchanged,
    /// exactly when another sample would overflow the 32-bit data length.
    pub fn write_sample(&mut self, s: i16) -> (r: Result<(), RecorderError>)
        requires
            old(self).wf(),
        ensures
            final(self).wf(),
            final(self).channels() == old(self).channels(),
            final(self).sample_rate() == old(self).sample_rate(),
            r is Ok <==> 2 * old(self).samples().len() + 2 <= MAX_DATA_BYTES,
            r is Ok ==> final(self).samples() == old(self).samples().push(s),
            r is Err ==> r == Err::<(), RecorderError>(RecorderError::IoError)
                && *final(self) == *old(self),
    {
        proof {
            lemma_data_bytes_len(self.samples@);
        }
        if (self.bytes.len() as u64) + 2 > 44u64 + (MAX_DATA_BYTES as u64) {
            return Err(RecorderError::IoError);
        }
        let w: u16 = if s >= 0 {
            s as u16
        } else {
            ((s as i32) + 65536) as u16
        };
        assert(w as int == i16_word(s));
        self.bytes.push((w % 256) as u8);
        self.bytes.push((w / 256) as u8);
        let ghost prev = self.samples@;
        proof {
            self.samples@ = self.samples@.push(s);
            assert(self.samples@.drop_last() =~= prev);
            assert(data_bytes(self.samples@) == data_bytes(prev) + sample_bytes(s));
            assert(self.bytes@ =~= header_bytes_with(self.channels as int, self.sample_rate as int, 0, 0)
                + data_bytes(self.samples@));
        }
        Ok(())
    }

    /// How many samples the sink has accepted.
    pub fn sample_count(&self) -> (n: usize)
        requires
            self.wf(),
        ensures
            n == self.samples().len(),
    {
        proof {
            lemma_data_bytes_len(self.samples@);
        }
        (self.bytes.len() - 44) / 2
    }

    /// Seals the file: patches the RIFF and data chunk lengths and hands the
    /// finished image back.  Consumes the sink, so a file is finalized at
    /// most once and takes no sample afterwards.
    #[verifier::rlimit(80)]
    pub fn finalize(self) -> (r: Vec<u8>)
        requires
            self.wf(),
        ensures
            r@ == wav_file_bytes(self.channels() as int, self.sample_rate() as int, self.samples()),
    {
        proof {
            lemma_data_bytes_len(self.samples@);
        }
        let SampleSink { channels, sample_rate, mut bytes, samples } = self;
        let data_len: u32 = ((bytes.len() as u64) - 44) as u32;
        let riff_len: u32 = 36 + data_len;
        bytes.set(4, (riff_len % 256) as u8);
        bytes.set(5, ((riff_len / 256) % 256) as u8);
        bytes.set(6, ((riff_len / 65536) % 256) as u8);
        bytes.set(7, ((riff_len / 16777216) % 256) as u8);
        bytes.set(40, (data_len % 256) as u8);
        bytes.set(41, ((data_len / 256) % 256) as u8);
        bytes.set(42, ((data_len / 65536) % 256) as u8);
        bytes.set(43, ((data_len / 16777216) % 256) as u8);
        proof {
            assert(bytes@ =~= wav_file_bytes(channels as int, sample_rate as int, samples@));
        }
        bytes
    }
}

} // verus!
