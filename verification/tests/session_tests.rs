use std::io::Cursor;

use micrec::config::{SampleFormat, StreamConfig};
use micrec::errors::RecError;
use micrec::session::{CaptureSession, Phase};
use micrec::wav::{encode_samples, wav_file_bytes};

fn f32_config(channels: u16, sample_rate: u32) -> StreamConfig {
    StreamConfig { channels, sample_rate, sample_format: SampleFormat::F32 }
}

#[test]
fn negotiate_accepts_f32() {
    let mut session = CaptureSession::new();
    let fmt = session.negotiate(&f32_config(2, 48000)).unwrap();
    assert_eq!(fmt.channels, 2);
    assert_eq!(fmt.sample_rate, 48000);
    assert_eq!(session.phase, Phase::Negotiated);
}

#[test]
fn negotiate_rejects_non_float_and_creates_no_output() {
    let mut session = CaptureSession::new();
    let cfg = StreamConfig { channels: 1, sample_rate: 44100, sample_format: SampleFormat::I16 };
    assert_eq!(session.negotiate(&cfg), Err(RecError::UnsupportedFormat));
    assert_eq!(session.phase, Phase::Idle);
    assert!(session.sink.is_none());
    assert!(session.output_path.is_none());
}

#[test]
fn open_output_disambiguates_taken_path() {
    let mut session = CaptureSession::new();
    session.negotiate(&f32_config(1, 44100)).unwrap();
    let existing = vec!["take.wav".to_string()];
    let used = session.open_output("take.wav", &existing);
    assert_eq!(used, "take_1.wav");
    assert_eq!(session.output_path.as_deref(), Some("take_1.wav"));
}

#[test]
fn sink_receives_batches_in_order() {
    let mut session = CaptureSession::new();
    session.negotiate(&f32_config(1, 8000)).unwrap();
    session.open_output("o.wav", &Vec::new());
    session.start();
    assert!(session.accept_samples(&vec![1, 2, 3]));
    assert!(session.accept_samples(&vec![4, 5]));
    assert_eq!(session.accepted_count(), Some(5));
    let bytes = session.finalize().unwrap();
    let reader = hound::WavReader::new(Cursor::new(bytes)).unwrap();
    let samples: Vec<i16> = reader.into_samples::<i16>().map(|s| s.unwrap()).collect();
    assert_eq!(samples, vec![1, 2, 3, 4, 5]);
}

#[test]
fn interrupt_then_finalize_yields_valid_wav() {
    let mut session = CaptureSession::new();
    session.negotiate(&f32_config(2, 48000)).unwrap();
    session.open_output("s.wav", &Vec::new());
    session.start();
    assert_eq!(session.phase, Phase::Streaming);
    assert!(session.accept_samples(&vec![100, -100, 32767, -32768]));
    session.request_stop();
    assert_eq!(session.phase, Phase::Stopping);
    let bytes = session.finalize().unwrap();
    assert_eq!(session.phase, Phase::Finalized);
    assert_eq!(bytes.len(), 44 + 8);
    let reader = hound::WavReader::new(Cursor::new(bytes)).unwrap();
    let spec = reader.spec();
    assert_eq!(spec.channels, 2);
    assert_eq!(spec.sample_rate, 48000);
    assert_eq!(spec.bits_per_sample, 16);
    assert_eq!(spec.sample_format, hound::SampleFormat::Int);
    assert_eq!(reader.len(), 4);
    let samples: Vec<i16> = reader.into_samples::<i16>().map(|s| s.unwrap()).collect();
    assert_eq!(samples, vec![100, -100, 32767, -32768]);
}

#[test]
fn request_stop_is_idempotent() {
    let mut session = CaptureSession::new();
    session.negotiate(&f32_config(1, 8000)).unwrap();
    session.open_output("o.wav", &Vec::new());
    session.start();
    session.request_stop();
    session.request_stop();
    assert_eq!(session.phase, Phase::Stopping);
}

#[test]
fn second_finalize_finds_sink_absent() {
    let mut session = CaptureSession::new();
    session.negotiate(&f32_config(1, 8000)).unwrap();
    session.open_output("o.wav", &Vec::new());
    session.start();
    session.accept_samples(&vec![7]);
    session.request_stop();
    assert!(session.finalize().is_some());
    assert!(session.finalize().is_none());
    assert_eq!(session.phase, Phase::Finalized);
    assert_eq!(session.accepted_count(), None);
}

#[test]
fn batches_after_take_are_discarded() {
    let mut session = CaptureSession::new();
    session.negotiate(&f32_config(1, 8000)).unwrap();
    session.open_output("o.wav", &Vec::new());
    session.start();
    session.finalize().unwrap();
    assert!(!session.accept_samples(&vec![1, 2]));
    assert_eq!(session.accepted_count(), None);
}

#[test]
fn file_bytes_match_reference_writer() {
    let samples: Vec<i16> = vec![0, 1, -1, 32767, -32768, 258];
    let ours = wav_file_bytes(1, 44100, &samples);
    let spec = hound::WavSpec {
        channels: 1,
        sample_rate: 44100,
        bits_per_sample: 16,
        sample_format: hound::SampleFormat::Int,
    };
    let mut cursor = Cursor::new(Vec::new());
    {
        let mut writer = hound::WavWriter::new(&mut cursor, spec).unwrap();
        for s in &samples {
            writer.write_sample(*s).unwrap();
        }
        writer.finalize().unwrap();
    }
    assert_eq!(ours, cursor.into_inner());
}

#[test]
fn sample_encoding_is_little_endian_twos_complement() {
    assert_eq!(encode_samples(&vec![258]), vec![2, 1]);
    assert_eq!(encode_samples(&vec![-1]), vec![0xFF, 0xFF]);
    assert_eq!(encode_samples(&vec![-32768]), vec![0x00, 0x80]);
    assert_eq!(encode_samples(&vec![0]), vec![0, 0]);
}

#[test]
fn header_fields_are_in_place() {
    let bytes = wav_file_bytes(1, 44100, &vec![0]);
    assert_eq!(&bytes[0..4], b"RIFF");
    assert_eq!(&bytes[4..8], &[38, 0, 0, 0]);
    assert_eq!(&bytes[8..12], b"WAVE");
    assert_eq!(&bytes[12..16], b"fmt ");
    assert_eq!(&bytes[16..20], &[16, 0, 0, 0]);
    assert_eq!(&bytes[20..22], &[1, 0]);
    assert_eq!(&bytes[22..24], &[1, 0]);
    assert_eq!(&bytes[24..28], &[0x44, 0xAC, 0, 0]);
    assert_eq!(&bytes[28..32], &[0x88, 0x58, 0x01, 0]);
    assert_eq!(&bytes[32..34], &[2, 0]);
    assert_eq!(&bytes[34..36], &[16, 0]);
    assert_eq!(&bytes[36..40], b"data");
    assert_eq!(&bytes[40..44], &[2, 0, 0, 0]);
    assert_eq!(&bytes[44..46], &[0, 0]);
}
