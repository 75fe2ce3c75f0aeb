//! The capture worker's decision core: negotiate the native encoding, open
//! the sink, accept or discard each delivered batch, and seal the file.
//!
//! The platform's stream and its callback thread live outside this crate;
//! they hand the delivered samples and the state of the capture signal in as
//! plain values, and every decision about them is made — and proved — here.

use vstd::prelude::*;
use crate::errors::RecorderError;
use crate::samples::{SampleEncoding, spec_u16_to_i16, convert_u16_batch};
use crate::wav::{
    SampleSink, wav_file_bytes, valid_format, spec_parse_wav_header, lemma_wav_round_trip,
};
use crate::MAX_DATA_BYTES;

verus! {

/// How many samples a sink can hold before its 32-bit data length field
/// would overflow: half of `MAX_DATA_BYTES`, rounded down.
pub open spec fn sink_capacity() -> int {
    0x7FFF_FFED
}

/// Negotiates a stream's format: an unsupported native encoding fails with
/// `FormatError` before any file is touched; a supported one opens a sink
/// for the device's channel count and rate, which fails with `IoError`
/// exactly on an invalid format.
pub fn open_capture_sink(enc: SampleEncoding, channels: u16, sample_rate: u32) -> (r: Result<
    SampleSink,
    RecorderError,
>)
    ensures
        r is Ok <==> (enc != SampleEncoding::Unsupported
            && valid_format(channels as int, sample_rate as int)),
        r matches Ok(sink) ==> {
            &&& sink.wf()
            &&& sink.channels() == channels
            &&& sink.sample_rate() == sample_rate
            &&& sink.samples() == Seq::<i16>::empty()
        },
        enc == SampleEncoding::Unsupported ==> r == Err::<SampleSink, RecorderError>(
            RecorderError::FormatError,
        ),
        enc != SampleEncoding::Unsupported && !valid_format(channels as int, sample_rate as int)
            ==> r == Err::<SampleSink, RecorderError>(RecorderError::IoError),
{
    match enc {
        SampleEncoding::Unsupported => Err(RecorderError::FormatError),
        _ => SampleSink::create(channels, sample_rate),
    }
}

/// One callback delivery of already-converted samples.  While the capture
/// signal is off the whole batch is discarded — a no-op, not an error.
/// While it is on, samples are appended in order until the first write
/// failure, which silently ends the batch; the return value counts the
/// samples actually written.
pub fn handle_batch_i16(sink: &mut SampleSink, signal_active: bool, batch: &Vec<i16>) -> (written:
    usize)
    requires
        old(sink).wf(),
    ensures
        final(sink).wf(),
        final(sink).channels() == old(sink).channels(),
        final(sink).sample_rate() == old(sink).sample_rate(),
        !signal_active ==> *final(sink) == *old(sink) && written == 0,
        signal_active ==> written == (if old(sink).samples().len() + batch@.len()
            <= sink_capacity() {
            batch@.len() as int
        } else {
            sink_capacity() - old(sink).samples().len()
        }),
        signal_active ==> final(sink).samples() == old(sink).samples() + batch@.take(
            written as int,
        ),
{
    if !signal_active {
        return 0;
    }
    proof {
        old(sink).lemma_wf_capacity();
    }
    let mut i: usize = 0;
    let mut full = false;
    while i < batch.len() && !full
        invariant
            sink.wf(),
            sink.channels() == old(sink).channels(),
            sink.sample_rate() == old(sink).sample_rate(),
            i <= batch@.len(),
            sink.samples() == old(sink).samples() + batch@.take(i as int),
            old(sink).samples().len() + i <= sink_capacity(),
            full ==> old(sink).samples().len() + i == sink_capacity() && i < batch@.len(),
        decreases batch@.len() - i + (if full { 0int } else { 1int }),
    {
        let r = sink.write_sample(batch[i]);
        match r {
            Ok(_) => {
                proof {
                    assert(batch@.take(i + 1) =~= batch@.take(i as int).push(batch@[i as int]));
                }
                i = i + 1;
            },
            Err(_) => {
                full = true;
            },
        }
    }
    proof {
        if !full {
            assert(batch@.take(i as int) =~= batch@);
        }
    }
    i
}

/// One callback delivery of unsigned 16-bit samples: each is recentred to
/// signed before writing, under the same discard/append/stop-on-failure
/// policy.
pub fn handle_batch_u16(sink: &mut SampleSink, signal_active: bool, batch: &Vec<u16>) -> (written:
    usize)
    requires
        old(sink).wf(),
    ensures
        final(sink).wf(),
        final(sink).channels() == old(sink).channels(),
        final(sink).sample_rate() == old(sink).sample_rate(),
        !signal_active ==> *final(sink) == *old(sink) && written == 0,
        signal_active ==> written == (if old(sink).samples().len() + batch@.len()
            <= sink_capacity() {
            batch@.len() as int
        } else {
            sink_capacity() - old(sink).samples().len()
        }),
        signal_active ==> final(sink).samples() == old(sink).samples() + batch@.map_values(
            |s: u16| spec_u16_to_i16(s),
        ).take(written as int),
{
    let converted = convert_u16_batch(batch);
    handle_batch_i16(sink, signal_active, &converted)
}

/// One delivery from the device: the signal's state at that moment and the
/// converted samples it carried.
pub struct CaptureBatch {
    pub active: bool,
    pub samples: Vec<i16>,
}

/// The samples a capture run accepts: those of the batches delivered while
/// the signal was on, in order; batches that arrived after the signal
/// flipped off are legitimately discarded.
pub open spec fn accepted_samples(batches: Seq<CaptureBatch>) -> Seq<i16>
    decreases batches.len(),
{
    if batches.len() == 0 {
        Seq::empty()
    } else {
        accepted_samples(batches.drop_last()) + (if batches.last().active {
            batches.last().samples@
        } else {
            Seq::empty()
        })
    }
}

pub proof fn lemma_accepted_prefix_len(batches: Seq<CaptureBatch>, i: int)
    requires
        0 <= i <= batches.len(),
    ensures
        accepted_samples(batches.take(i)).len() <= accepted_samples(batches).len(),
    decreases batches.len() - i,
{
    if i < batches.len() {
        lemma_accepted_prefix_len(batches, i + 1);
        assert(batches.take(i + 1).drop_last() =~= batches.take(i));
        assert(batches.take(i + 1).last() == batches[i]);
    } else {
        assert(batches.take(i) =~= batches);
    }
}

/// After a successful capture run with whatever batches arrived, the
/// resulting image is a valid, playable container: reopened, it reports
/// exactly the channel count and sample rate the stream was captured with,
/// and declares exactly as many samples as were accepted — batches that
/// arrived after the stop signal are not counted.
pub proof fn lemma_capture_file_well_formed(channels: int, rate: int, batches: Seq<CaptureBatch>)
    requires
        valid_format(channels, rate),
        2 * accepted_samples(batches).len() <= MAX_DATA_BYTES,
    ensures
        spec_parse_wav_header(wav_file_bytes(channels, rate, accepted_samples(batches)))
            matches Some(info) && info.channels == channels as u16 && info.sample_rate
            == rate as u32 && info.spec_total_samples() == accepted_samples(batches).len(),
{
    lemma_wav_round_trip(channels, rate, accepted_samples(batches));
}

/// A whole capture run on one negotiated stream, from the delivered batches
/// to the finished file image: negotiate, open the sink, accept or discard
/// each batch, finalize exactly once.  On success the image is precisely the
/// container for the accepted samples.
pub fn capture_session(
    enc: SampleEncoding,
    channels: u16,
    sample_rate: u32,
    batches: &Vec<CaptureBatch>,
) -> (r: Result<Vec<u8>, RecorderError>)
    requires
        2 * accepted_samples(batches@).len() <= MAX_DATA_BYTES,
    ensures
        r is Ok <==> (enc != SampleEncoding::Unsupported
            && valid_format(channels as int, sample_rate as int)),
        enc == SampleEncoding::Unsupported ==> r == Err::<Vec<u8>, RecorderError>(
            RecorderError::FormatError,
        ),
        enc != SampleEncoding::Unsupported && !valid_format(channels as int, sample_rate as int)
            ==> r == Err::<Vec<u8>, RecorderError>(RecorderError::IoError),
        r matches Ok(bytes) ==> bytes@ == wav_file_bytes(
            channels as int,
            sample_rate as int,
            accepted_samples(batches@),
        ),
{
    let mut sink = match open_capture_sink(enc, channels, sample_rate) {
        Ok(sink) => sink,
        Err(e) => {
            return Err(e);
        },
    };
    let mut i: usize = 0;
    while i < batches.len()
        invariant
            sink.wf(),
            sink.channels() == channels,
            sink.sample_rate() == sample_rate,
            i <= batches@.len(),
            sink.samples() == accepted_samples(batches@.take(i as int)),
            2 * accepted_samples(batches@).len() <= MAX_DATA_BYTES,
        decreases batches@.len() - i,
    {
        proof {
            lemma_accepted_prefix_len(batches@, i + 1);
            assert(batches@.take(i + 1).drop_last() =~= batches@.take(i as int));
            assert(batches@.take(i + 1).last() == batches@[i as int]);
        }
        let b = &batches[i];
        let written = handle_batch_i16(&mut sink, b.active, &b.samples);
        proof {
            if b.active {
                assert(b.samples@.take(written as int) =~= b.samples@);
            }
        }
        i = i + 1;
    }
    proof {
        assert(batches@.take(batches@.len() as int) =~= batches@);
    }
    Ok(sink.finalize())
}

} // verus!
