use vstd::prelude::*;

use crate::settings::Settings;
use crate::upload::IngestError;
use crate::wav::{decode_outcome, decode_wav, DecodeError};

verus! {

#[verifier::external_type_specification]
#[verifier::external_body]
pub struct ExInstant(std::time::Instant);

/// Relies on `std::time::Instant::now`: the current monotonic time.
#[verifier::external_body]
fn start_timer() -> (r: std::time::Instant) {
    std::time::Instant::now()
}

/// Relies on `std::time::Instant::elapsed` and `Duration::as_nanos`: the
/// nanoseconds since `start`.
#[verifier::external_body]
fn elapsed_nanos(start: &std::time::Instant) -> (r: u128) {
    start.elapsed().as_nanos()
}

/// Nanoseconds since `start`, saturated at `u64::MAX`.
fn elapsed_ns(start: &std::time::Instant) -> (r: u64) {
    let n = elapsed_nanos(start);
    if n > u64::MAX as u128 {
        u64::MAX
    } else {
        n as u64
    }
}

/// How the most recent load attempt went.
#[derive(Clone, Copy, PartialEq, Eq, Structural, Debug)]
pub enum LoadStatus {
    /// Nothing was ever loaded.
    Empty,
    /// The most recent attempt stored and decoded its file.
    Loaded,
    /// The most recent attempt failed.
    Failed,
}

/// Why an ingestion cycle failed: at the upload or at the decode.
#[derive(Clone, Copy, PartialEq, Eq, Structural, Debug)]
pub enum LoadError {
    Ingest(IngestError),
    Decode(DecodeError),
}

/// The session record of the most recently loaded artifact.
pub struct Songbite {
    pub settings: Settings,
    /// Path of the artifact of the last successful load.
    pub current_file_path: Option<String>,
    /// Interleaved samples of that artifact.
    pub sample_buffer: Option<Vec<i16>>,
    /// Wall-clock time of the last successful load, in nanoseconds.
    pub load_duration_ns: u64,
    pub load_status: LoadStatus,
}

/// The session record as values: path, samples, duration and status.
pub struct SessionModel {
    pub path: Option<Seq<char>>,
    pub samples: Option<Seq<i16>>,
    pub load_duration_ns: u64,
    pub status: LoadStatus,
}

pub open spec fn path_view(p: Option<String>) -> Option<Seq<char>> {
    match p {
        Some(s) => Some(s@),
        None => None,
    }
}

pub open spec fn samples_view(b: Option<Vec<i16>>) -> Option<Seq<i16>> {
    match b {
        Some(v) => Some(v@),
        None => None,
    }
}

pub open spec fn outcome_view(o: Result<Vec<i16>, LoadError>) -> Result<Seq<i16>, LoadError> {
    match o {
        Ok(v) => Ok(v@),
        Err(e) => Err(e),
    }
}

/// The session after publishing the outcome of a load of `path` that took
/// `elapsed` nanoseconds: a success replaces the artifact, a failure only
/// marks the status and keeps the previous artifact.
pub open spec fn published(
    m: SessionModel,
    path: Seq<char>,
    outcome: Result<Seq<i16>, LoadError>,
    elapsed: u64,
) -> SessionModel {
    match outcome {
        Ok(s) => SessionModel {
            path: Some(path),
            samples: Some(s),
            load_duration_ns: elapsed,
            status: LoadStatus::Loaded,
        },
        Err(_) => SessionModel { status: LoadStatus::Failed, ..m },
    }
}

/// A decode result as a load outcome.
pub open spec fn decode_as_load(d: Result<Seq<i16>, DecodeError>) -> Result<Seq<i16>, LoadError> {
    match d {
        Ok(s) => Ok(s),
        Err(e) => Err(LoadError::Decode(e)),
    }
}

impl View for Songbite {
    type V = SessionModel;

    open spec fn view(&self) -> SessionModel {
        SessionModel {
            path: path_view(self.current_file_path),
            samples: samples_view(self.sample_buffer),
            load_duration_ns: self.load_duration_ns,
            status: self.load_status,
        }
    }
}

/// A read-only summary of the session, for a status report.
pub struct SessionSnapshot {
    pub current_file_path: Option<String>,
    pub sample_count: usize,
    pub load_duration_ns: u64,
    pub load_status: LoadStatus,
}

impl Songbite {
    /// A path is held exactly when samples are, and the status says whether
    /// anything was ever loaded.
    pub open spec fn wf(&self) -> bool {
        &&& (self.current_file_path is Some <==> self.sample_buffer is Some)
        &&& self.load_status == LoadStatus::Empty ==> self.current_file_path is None
        &&& self.load_status == LoadStatus::Loaded ==> self.current_file_path is Some
    }

    /// An empty session over `settings`.
    pub fn init(settings: Settings) -> (r: Songbite)
        ensures
            r.wf(),
            r.settings == settings,
            r@ == (SessionModel {
                path: None,
                samples: None,
                load_duration_ns: 0,
                status: LoadStatus::Empty,
            }),
    {
        Songbite {
            settings,
            current_file_path: None,
            sample_buffer: None,
            load_duration_ns: 0,
            load_status: LoadStatus::Empty,
        }
    }

    /// Records the outcome of one ingestion cycle for `path`.
    pub fn publish(&mut self, path: String, outcome: Result<Vec<i16>, LoadError>, elapsed_ns: u64)
        requires
            old(self).wf(),
        ensures
            final(self).wf(),
            final(self).settings == old(self).settings,
            final(self)@ == published(old(self)@, path@, outcome_view(outcome), elapsed_ns),
    {
        match outcome {
            Ok(samples) => {
                self.current_file_path = Some(path);
                self.sample_buffer = Some(samples);
                self.load_duration_ns = elapsed_ns;
                self.load_status = LoadStatus::Loaded;
            },
            Err(_) => {
                self.load_status = LoadStatus::Failed;
            },
        }
    }

    /// Loads the stored file at `in_file`, whose contents are `bytes`:
    /// decodes it, times the decode, and publishes the outcome.
    pub fn load_new_file(&mut self, in_file: String, bytes: &[u8]) -> (r: Result<(), DecodeError>)
        requires
            old(self).wf(),
        ensures
            final(self).wf(),
            final(self).settings == old(self).settings,
            r is Ok <==> decode_outcome(bytes@) is Ok,
            r is Err ==> decode_outcome(bytes@) == Err::<Seq<i16>, DecodeError>(r->Err_0),
            exists|t: u64|
                final(self)@ == published(
                    old(self)@,
                    in_file@,
                    decode_as_load(decode_outcome(bytes@)),
                    t,
                ),
    {
        let start = start_timer();
        let decoded = decode_wav(bytes);
        let elapsed = elapsed_ns(&start);
        let ghost path = in_file@;
        let ghost before = self@;
        match decoded {
            Ok(samples) => {
                self.publish(in_file, Ok(samples), elapsed);
                assert(self@ == published(before, path, decode_as_load(decode_outcome(bytes@)), elapsed));
                Ok(())
            },
            Err(e) => {
                self.publish(in_file, Err(LoadError::Decode(e)), elapsed);
                assert(self@ == published(before, path, decode_as_load(decode_outcome(bytes@)), elapsed));
                Err(e)
            },
        }
    }

    /// A read-only summary of the session.
    pub fn get_session_snapshot(&self) -> (r: SessionSnapshot)
        ensures
            path_view(r.current_file_path) == self@.path,
            r.sample_count as int == (match self@.samples {
                Some(s) => s.len() as int,
                None => 0int,
            }),
            r.load_duration_ns == self.load_duration_ns,
            r.load_status == self.load_status,
    {
        let current_file_path = match &self.current_file_path {
            Some(p) => Some(p.clone()),
            None => None,
        };
        let sample_count = match &self.sample_buffer {
            Some(v) => v.len(),
            None => 0,
        };
        SessionSnapshot {
            current_file_path,
            sample_count,
            load_duration_ns: self.load_duration_ns,
            load_status: self.load_status,
        }
    }
}

/// A failed cycle marks the session failed and keeps the artifact that was
/// loaded before it, if any.
pub proof fn lemma_failure_keeps_artifact(
    m: SessionModel,
    path: Seq<char>,
    e: LoadError,
    elapsed: u64,
)
    ensures
        published(m, path, Err(e), elapsed).status == LoadStatus::Failed,
        published(m, path, Err(e), elapsed).path == m.path,
        published(m, path, Err(e), elapsed).samples == m.samples,
{
}

} // verus!
