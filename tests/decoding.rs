use songbites::wav::{decode_wav, DecodeError};

fn wav_bytes(channels: u16, bits: u16, format: hound::SampleFormat, samples: &[i32]) -> Vec<u8> {
    let spec = hound::WavSpec {
        channels,
        sample_rate: 8000,
        bits_per_sample: bits,
        sample_format: format,
    };
    let mut buf = std::io::Cursor::new(Vec::new());
    {
        let mut w = hound::WavWriter::new(&mut buf, spec).unwrap();
        for s in samples {
            w.write_sample(*s).unwrap();
        }
        w.finalize().unwrap();
    }
    buf.into_inner()
}

#[test]
fn mono_eight_samples() {
    let input = [0, 1, -1, 1000, -1000, 32767, -32768, 7];
    let bytes = wav_bytes(1, 16, hound::SampleFormat::Int, &input);
    let out = decode_wav(&bytes).unwrap();
    assert_eq!(out.len(), 8);
    assert_eq!(out, vec![0i16, 1, -1, 1000, -1000, 32767, -32768, 7]);
}

#[test]
fn stereo_length_is_frames_times_channels() {
    let input = [1, 2, 3, 4, 5, 6, 7, 8, 9, 10];
    let bytes = wav_bytes(2, 16, hound::SampleFormat::Int, &input);
    let out = decode_wav(&bytes).unwrap();
    assert_eq!(out.len(), 5 * 2);
    assert_eq!(out[9], 10);
}

#[test]
fn empty_data_decodes_to_nothing() {
    let bytes = wav_bytes(1, 16, hound::SampleFormat::Int, &[]);
    assert_eq!(decode_wav(&bytes), Ok(vec![]));
}

#[test]
fn eight_bit_is_unsupported() {
    let bytes = wav_bytes(1, 8, hound::SampleFormat::Int, &[1, 2, 3]);
    assert_eq!(decode_wav(&bytes), Err(DecodeError::UnsupportedFormat));
}

#[test]
fn twenty_four_bit_is_unsupported() {
    let bytes = wav_bytes(1, 24, hound::SampleFormat::Int, &[1, 2, 3]);
    assert_eq!(decode_wav(&bytes), Err(DecodeError::UnsupportedFormat));
}

#[test]
fn garbage_header_is_unsupported() {
    assert_eq!(decode_wav(b"not a wav file at all"), Err(DecodeError::UnsupportedFormat));
    assert_eq!(decode_wav(&[]), Err(DecodeError::UnsupportedFormat));
}

#[test]
fn truncated_data_is_io_error() {
    let bytes = wav_bytes(1, 16, hound::SampleFormat::Int, &[1, 2, 3, 4, 5, 6, 7, 8]);
    let cut = &bytes[..bytes.len() - 4];
    assert_eq!(decode_wav(cut), Err(DecodeError::Io));
}
