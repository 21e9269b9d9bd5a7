use hound::{SampleFormat, WavReader, WavSpec, WavWriter};
use mic_recorder::{
    capture_format, plan_capture, sample_format, sample_size, wav_spec_from_config, CaptureFormat,
    NativeFormat, RecordingError, Session, StreamConfig,
};
use std::io::Cursor;
use std::sync::{Arc, Mutex};

const ALL: [NativeFormat; 10] = [
    NativeFormat::I8,
    NativeFormat::I16,
    NativeFormat::I32,
    NativeFormat::I64,
    NativeFormat::U8,
    NativeFormat::U16,
    NativeFormat::U32,
    NativeFormat::U64,
    NativeFormat::F32,
    NativeFormat::F64,
];

#[test]
fn sample_sizes_match_representations() {
    let sizes: Vec<usize> = ALL.iter().map(|f| sample_size(*f)).collect();
    assert_eq!(sizes, vec![1, 2, 4, 8, 1, 2, 4, 8, 4, 8]);
    assert_eq!(NativeFormat::U16.sample_size(), 2);
}

#[test]
fn float_representations_get_float_tag() {
    for f in ALL {
        let expected = if f == NativeFormat::F32 || f == NativeFormat::F64 {
            SampleFormat::Float
        } else {
            SampleFormat::Int
        };
        assert_eq!(sample_format(f), expected);
        assert_eq!(f.is_float(), expected == SampleFormat::Float);
    }
}

#[test]
fn wav_spec_copies_channels_rate_and_depth() {
    let config = StreamConfig { channels: 2, sample_rate: 48000, format: NativeFormat::I16 };
    let spec = wav_spec_from_config(&config);
    assert_eq!(
        spec,
        WavSpec { channels: 2, sample_rate: 48000, bits_per_sample: 16, sample_format: SampleFormat::Int }
    );
    let config = StreamConfig { channels: 1, sample_rate: 44100, format: NativeFormat::F32 };
    assert_eq!(
        wav_spec_from_config(&config),
        WavSpec { channels: 1, sample_rate: 44100, bits_per_sample: 32, sample_format: SampleFormat::Float }
    );
    let config = StreamConfig { channels: 6, sample_rate: 8000, format: NativeFormat::U64 };
    assert_eq!(wav_spec_from_config(&config).bits_per_sample, 64);
}

#[test]
fn captured_formats_are_the_four_supported() {
    assert_eq!(capture_format(NativeFormat::I8), Ok(CaptureFormat::I8));
    assert_eq!(capture_format(NativeFormat::I16), Ok(CaptureFormat::I16));
    assert_eq!(capture_format(NativeFormat::I32), Ok(CaptureFormat::I32));
    assert_eq!(capture_format(NativeFormat::F32), Ok(CaptureFormat::F32));
    for f in [NativeFormat::I64, NativeFormat::U8, NativeFormat::U16, NativeFormat::U32, NativeFormat::U64, NativeFormat::F64] {
        assert_eq!(capture_format(f), Err(RecordingError::UnsupportedFormat));
    }
}

#[test]
fn plan_capture_gives_header_and_stream_format() {
    let config = StreamConfig { channels: 2, sample_rate: 96000, format: NativeFormat::I32 };
    let plan = plan_capture(&config).unwrap();
    assert_eq!(plan.format, CaptureFormat::I32);
    assert_eq!(plan.spec, wav_spec_from_config(&config));
    let config = StreamConfig { channels: 2, sample_rate: 96000, format: NativeFormat::U8 };
    assert!(matches!(plan_capture(&config), Err(RecordingError::UnsupportedFormat)));
}

type Handle<'a> = Arc<Mutex<Option<WavWriter<Cursor<&'a mut Vec<u8>>>>>>;

fn deliver(input: &[i16], handle: &Handle<'_>) {
    if let Ok(mut guard) = handle.try_lock() {
        if let Some(writer) = guard.as_mut() {
            for &sample in input {
                writer.write_sample(sample).ok();
            }
        }
    }
}

fn finalize(handle: Handle<'_>) -> Result<(), String> {
    let writer = handle.lock().map_err(|e| e.to_string())?.take();
    match writer {
        Some(w) => w.finalize().map_err(|e| e.to_string()),
        None => Ok(()),
    }
}

fn record(config: &StreamConfig, buffers: &[Vec<i16>]) -> (Result<String, RecordingError>, Vec<u8>) {
    let mut bytes = Vec::new();
    let result;
    {
        let plan = plan_capture(config).unwrap();
        let mut session: Session<String, Handle<'_>, ()> = Session::new();
        let mut feeder: Option<Handle<'_>> = None;
        let started = session.start(|| {
            let writer = WavWriter::new(Cursor::new(&mut bytes), plan.spec)
                .map_err(|e| RecordingError::WriterInitFailed(e.to_string()))?;
            let handle = Arc::new(Mutex::new(Some(writer)));
            feeder = Some(handle.clone());
            Ok(("take.wav".to_string(), handle, ()))
        });
        assert_eq!(started, Ok(()));
        let feeder = feeder.unwrap();
        for b in buffers {
            deliver(b, &feeder);
        }
        drop(feeder);
        result = session.stop(finalize);
    }
    (result, bytes)
}

#[test]
fn recorded_samples_read_back_in_order() {
    let config = StreamConfig { channels: 2, sample_rate: 16000, format: NativeFormat::I16 };
    let buffers: Vec<Vec<i16>> = (0..5).map(|k| (0..64).map(|i| (k * 64 + i) as i16 - 100).collect()).collect();
    let (result, bytes) = record(&config, &buffers);
    assert_eq!(result, Ok("take.wav".to_string()));
    let mut reader = WavReader::new(Cursor::new(bytes)).unwrap();
    assert_eq!(reader.spec(), wav_spec_from_config(&config));
    assert_eq!(reader.len(), 320);
    assert_eq!(reader.duration(), 160);
    let read: Vec<i16> = reader.samples::<i16>().map(|s| s.unwrap()).collect();
    let expected: Vec<i16> = buffers.concat();
    assert_eq!(read, expected);
}

#[test]
fn empty_recording_is_a_complete_container() {
    let config = StreamConfig { channels: 1, sample_rate: 44100, format: NativeFormat::I16 };
    let (result, bytes) = record(&config, &[]);
    assert_eq!(result, Ok("take.wav".to_string()));
    assert_eq!(u32::from_le_bytes([bytes[4], bytes[5], bytes[6], bytes[7]]) as usize, bytes.len() - 8);
    let reader = WavReader::new(Cursor::new(bytes)).unwrap();
    assert_eq!(reader.len(), 0);
    assert_eq!(reader.spec().channels, 1);
}

#[test]
fn buffer_is_dropped_while_writer_is_held() {
    let config = StreamConfig { channels: 1, sample_rate: 8000, format: NativeFormat::I16 };
    let plan = plan_capture(&config).unwrap();
    let mut bytes = Vec::new();
    {
        let handle: Handle<'_> = Arc::new(Mutex::new(Some(WavWriter::new(Cursor::new(&mut bytes), plan.spec).unwrap())));
        deliver(&[1, 2], &handle);
        {
            let _held = handle.lock().unwrap();
            deliver(&[3, 4], &handle);
        }
        deliver(&[5], &handle);
        assert_eq!(finalize(handle), Ok(()));
    }
    let mut reader = WavReader::new(Cursor::new(bytes)).unwrap();
    let read: Vec<i16> = reader.samples::<i16>().map(|s| s.unwrap()).collect();
    assert_eq!(read, vec![1, 2, 5]);
}
