use audio_capture::capture::{
    capture_session, handle_batch_i16, handle_batch_u16, open_capture_sink, CaptureBatch,
};
use audio_capture::errors::RecorderError;
use audio_capture::samples::{convert_u16_batch, convert_u16_sample, SampleEncoding};
use audio_capture::wav::{parse_wav_header, SampleSink};

fn image_for(samples: &[i16], channels: u16, rate: u32) -> Vec<u8> {
    let mut sink = SampleSink::create(channels, rate).unwrap();
    for &s in samples {
        sink.write_sample(s).unwrap();
    }
    sink.finalize()
}

#[test]
fn conversion_recentres_unsigned_input() {
    assert_eq!(convert_u16_sample(0), i16::MIN);
    assert_eq!(convert_u16_sample(32768), 0);
    assert_eq!(convert_u16_sample(65535), i16::MAX);
    assert_eq!(convert_u16_sample(32767), -1);
    assert_eq!(convert_u16_batch(&vec![0, 32768, 65535]), vec![i16::MIN, 0, i16::MAX]);
}

#[test]
fn create_rejects_invalid_formats() {
    assert_eq!(SampleSink::create(0, 16000).err().unwrap(), RecorderError::IoError);
    assert_eq!(SampleSink::create(1, 0).err().unwrap(), RecorderError::IoError);
    assert!(SampleSink::create(2, 44100).is_ok());
    assert_eq!(
        open_capture_sink(SampleEncoding::Unsupported, 1, 16000).err().unwrap(),
        RecorderError::FormatError
    );
    assert!(open_capture_sink(SampleEncoding::SignedInt16, 1, 16000).is_ok());
}

#[test]
fn finalized_header_fields() {
    let bytes = image_for(&[1, -1, 300], 1, 16000);
    assert_eq!(bytes.len(), 44 + 6);
    // RIFF length, then the fixed tags and the format fields.
    assert_eq!(&bytes[0..4], b"RIFF");
    assert_eq!(u32::from_le_bytes([bytes[4], bytes[5], bytes[6], bytes[7]]), 36 + 6);
    assert_eq!(&bytes[8..12], b"WAVE");
    assert_eq!(&bytes[12..16], b"fmt ");
    assert_eq!(u16::from_le_bytes([bytes[22], bytes[23]]), 1);
    assert_eq!(u32::from_le_bytes([bytes[24], bytes[25], bytes[26], bytes[27]]), 16000);
    assert_eq!(u32::from_le_bytes([bytes[28], bytes[29], bytes[30], bytes[31]]), 32000);
    assert_eq!(u16::from_le_bytes([bytes[34], bytes[35]]), 16);
    assert_eq!(&bytes[36..40], b"data");
    assert_eq!(u32::from_le_bytes([bytes[40], bytes[41], bytes[42], bytes[43]]), 6);
    // Sample data: little-endian two's complement.
    assert_eq!(&bytes[44..50], &[1, 0, 255, 255, 44, 1]);
}

#[test]
fn parse_reads_back_what_finalize_wrote() {
    let bytes = image_for(&[5, 6, 7, 8], 2, 44100);
    let info = parse_wav_header(&bytes).unwrap();
    assert_eq!(info.channels, 2);
    assert_eq!(info.sample_rate, 44100);
    assert_eq!(info.data_len, 8);
    assert_eq!(info.total_samples(), 4);
}

#[test]
fn parse_rejects_malformed_images() {
    assert_eq!(parse_wav_header(&vec![0u8; 10]), None);
    let mut bytes = image_for(&[1, 2], 1, 8000);
    bytes[0] = b'X';
    assert_eq!(parse_wav_header(&bytes), None);
    let mut truncated = image_for(&[1, 2], 1, 8000);
    truncated.pop();
    assert_eq!(parse_wav_header(&truncated), None);
}

#[test]
fn batches_are_discarded_while_signal_is_off() {
    let mut sink = SampleSink::create(1, 16000).unwrap();
    let written = handle_batch_i16(&mut sink, false, &vec![1, 2, 3]);
    assert_eq!(written, 0);
    let written = handle_batch_i16(&mut sink, true, &vec![4, 5]);
    assert_eq!(written, 2);
    let written = handle_batch_u16(&mut sink, true, &vec![32768]);
    assert_eq!(written, 1);
    assert_eq!(sink.sample_count(), 3);
    let bytes = sink.finalize();
    let info = parse_wav_header(&bytes).unwrap();
    assert_eq!(info.total_samples(), 3);
    assert_eq!(&bytes[44..50], &[4, 0, 5, 0, 0, 0]);
}

#[test]
fn capture_session_end_to_end() {
    // Three delivered batches of 100 samples each at 16kHz mono.
    let batches: Vec<CaptureBatch> = (0..3)
        .map(|b| CaptureBatch { active: true, samples: vec![b as i16; 100] })
        .collect();
    let bytes = capture_session(SampleEncoding::SignedInt16, 1, 16000, &batches).unwrap();
    let info = parse_wav_header(&bytes).unwrap();
    assert_eq!(info.channels, 1);
    assert_eq!(info.sample_rate, 16000);
    assert_eq!(info.data_len, 600);
    assert_eq!(info.total_samples(), 300);
    assert_eq!(bytes.len(), 44 + 600);
}

#[test]
fn capture_session_discards_late_batches() {
    let batches = vec![
        CaptureBatch { active: true, samples: vec![1; 50] },
        CaptureBatch { active: false, samples: vec![2; 50] },
        CaptureBatch { active: true, samples: vec![3; 25] },
    ];
    let bytes = capture_session(SampleEncoding::UnsignedInt16, 1, 8000, &batches).unwrap();
    let info = parse_wav_header(&bytes).unwrap();
    assert_eq!(info.total_samples(), 75);
}

#[test]
fn capture_session_errors() {
    let batches: Vec<CaptureBatch> = Vec::new();
    assert_eq!(
        capture_session(SampleEncoding::Unsupported, 1, 16000, &batches).unwrap_err(),
        RecorderError::FormatError
    );
    assert_eq!(
        capture_session(SampleEncoding::Float32, 0, 16000, &batches).unwrap_err(),
        RecorderError::IoError
    );
}

#[test]
fn hound_reopens_the_image_with_matching_format() {
    let batches = vec![CaptureBatch { active: true, samples: vec![100, -100, 0, i16::MAX, i16::MIN] }];
    let bytes = capture_session(SampleEncoding::SignedInt16, 1, 16000, &batches).unwrap();
    let reader = hound::WavReader::new(std::io::Cursor::new(bytes)).unwrap();
    let spec = reader.spec();
    assert_eq!(spec.channels, 1);
    assert_eq!(spec.sample_rate, 16000);
    assert_eq!(spec.bits_per_sample, 16);
    assert_eq!(spec.sample_format, hound::SampleFormat::Int);
    let samples: Vec<i16> = reader.into_samples::<i16>().map(|s| s.unwrap()).collect();
    assert_eq!(samples, vec![100, -100, 0, i16::MAX, i16::MIN]);
}

#[test]
fn hound_reopens_a_stereo_image() {
    let bytes = image_for(&[10, 20, 30, 40], 2, 44100);
    let reader = hound::WavReader::new(std::io::Cursor::new(bytes)).unwrap();
    let spec = reader.spec();
    assert_eq!(spec.channels, 2);
    assert_eq!(spec.sample_rate, 44100);
    assert_eq!(reader.duration(), 2);
}
