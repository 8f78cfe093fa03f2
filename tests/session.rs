use songbites::settings::Settings;
use songbites::songbites::{LoadError, LoadStatus, Songbite};
use songbites::storage::upload_target;
use songbites::upload::{IngestError, UploadProgress};
use songbites::wav::DecodeError;

fn settings() -> Settings {
    Settings {
        program_name: String::from("Songbites"),
        program_ver: String::from("0.1.0"),
        program_devs: vec![String::from("a"), String::from("b")],
        program_web: String::from("https://example.org"),
        songbites_folder: String::from("./songbites/"),
    }
}

fn mono16(samples: &[i16]) -> Vec<u8> {
    let spec = hound::WavSpec {
        channels: 1,
        sample_rate: 8000,
        bits_per_sample: 16,
        sample_format: hound::SampleFormat::Int,
    };
    let mut buf = std::io::Cursor::new(Vec::new());
    {
        let mut w = hound::WavWriter::new(&mut buf, spec).unwrap();
        for s in samples {
            w.write_sample(*s).unwrap();
        }
        w.finalize().unwrap();
    }
    buf.into_inner()
}

#[test]
fn init_is_empty() {
    let s = Songbite::init(settings());
    assert_eq!(s.load_status, LoadStatus::Empty);
    assert!(s.current_file_path.is_none());
    assert!(s.sample_buffer.is_none());
    assert_eq!(s.load_duration_ns, 0);
    assert_eq!(s.settings.program_devs.len(), 2);
}

#[test]
fn load_valid_file_becomes_loaded() {
    let mut s = Songbite::init(settings());
    let bytes = mono16(&[1, 2, 3, 4, 5, 6, 7, 8]);
    let r = s.load_new_file(String::from("./songbites/a.wav"), &bytes);
    assert_eq!(r, Ok(()));
    assert_eq!(s.load_status, LoadStatus::Loaded);
    assert_eq!(s.current_file_path.as_deref(), Some("./songbites/a.wav"));
    assert_eq!(s.sample_buffer.as_ref().unwrap().len(), 8);
    let snap = s.get_session_snapshot();
    assert_eq!(snap.sample_count, 8);
    assert_eq!(snap.load_status, LoadStatus::Loaded);
    assert_eq!(snap.current_file_path.as_deref(), Some("./songbites/a.wav"));
}

#[test]
fn failed_load_keeps_previous_artifact() {
    let mut s = Songbite::init(settings());
    s.load_new_file(String::from("good.wav"), &mono16(&[9, 9])).unwrap();
    let r = s.load_new_file(String::from("bad.wav"), b"garbage");
    assert_eq!(r, Err(DecodeError::UnsupportedFormat));
    assert_eq!(s.load_status, LoadStatus::Failed);
    assert_eq!(s.current_file_path.as_deref(), Some("good.wav"));
    assert_eq!(s.sample_buffer, Some(vec![9, 9]));
    let snap = s.get_session_snapshot();
    assert_eq!(snap.load_status, LoadStatus::Failed);
    assert_eq!(snap.sample_count, 2);
}

#[test]
fn failed_first_load_leaves_nothing() {
    let mut s = Songbite::init(settings());
    s.publish(String::from("x.wav"), Err(LoadError::Ingest(IngestError::EmptyStream)), 5);
    assert_eq!(s.load_status, LoadStatus::Failed);
    assert!(s.current_file_path.is_none());
    assert!(s.sample_buffer.is_none());
    assert_eq!(s.load_duration_ns, 0);
}

#[test]
fn publish_success_records_duration() {
    let mut s = Songbite::init(settings());
    s.publish(String::from("x.wav"), Ok(vec![1, -1]), 1234);
    assert_eq!(s.load_status, LoadStatus::Loaded);
    assert_eq!(s.load_duration_ns, 1234);
    assert_eq!(s.sample_buffer, Some(vec![1, -1]));
    s.publish(String::from("y.wav"), Err(LoadError::Decode(DecodeError::Io)), 99);
    assert_eq!(s.load_duration_ns, 1234);
    assert_eq!(s.current_file_path.as_deref(), Some("x.wav"));
}

#[test]
fn upload_outcomes() {
    let s = settings();
    let mut p = UploadProgress::begin(upload_target(&s, Some("a.wav")));
    p.record_chunk(0);
    assert!(!p.wrote_bytes);
    p.record_chunk(10);
    let a = p.finish().unwrap();
    assert_eq!(a.sanitized_filename, "a.wav");

    let p = UploadProgress::begin(upload_target(&s, Some("b.wav")));
    assert!(matches!(p.finish(), Err(IngestError::EmptyStream)));

    let mut p = UploadProgress::begin(upload_target(&s, Some("c.wav")));
    p.record_chunk(3);
    p.record_io_failure();
    assert!(matches!(p.finish(), Err(IngestError::Io)));
}
