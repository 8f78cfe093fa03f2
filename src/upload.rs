use vstd::prelude::*;

use crate::storage::UploadArtifact;

verus! {

/// Why an upload was not stored.
#[derive(Clone, Copy, PartialEq, Eq, Structural, Debug)]
pub enum IngestError {
    /// Creating or writing the destination file failed.
    Io,
    /// The upload carried no bytes.
    EmptyStream,
}

/// The bookkeeping of one upload while its chunks are written out.
pub struct UploadProgress {
    pub artifact: UploadArtifact,
    /// Some chunk with at least one byte was written.
    pub wrote_bytes: bool,
    /// Creating the file or writing a chunk failed.
    pub io_failed: bool,
}

impl UploadProgress {
    /// Starts an upload to `artifact`, before anything is written.
    pub fn begin(artifact: UploadArtifact) -> (r: UploadProgress)
        ensures
            r.artifact == artifact,
            !r.wrote_bytes,
            !r.io_failed,
    {
        UploadProgress { artifact, wrote_bytes: false, io_failed: false }
    }

    /// Notes that a chunk of `len` bytes was written.
    pub fn record_chunk(&mut self, len: usize)
        ensures
            final(self).artifact == old(self).artifact,
            final(self).wrote_bytes == (old(self).wrote_bytes || len > 0),
            final(self).io_failed == old(self).io_failed,
    {
        if len > 0 {
            self.wrote_bytes = true;
        }
    }

    /// Notes that creating the file or writing to it failed.
    pub fn record_io_failure(&mut self)
        ensures
            final(self).artifact == old(self).artifact,
            final(self).wrote_bytes == old(self).wrote_bytes,
            final(self).io_failed,
    {
        self.io_failed = true;
    }

    /// The upload's outcome once its stream has ended: a write failure wins,
    /// then an empty stream; otherwise the stored artifact.
    pub fn finish(self) -> (r: Result<UploadArtifact, IngestError>)
        ensures
            self.io_failed ==> r == Err::<UploadArtifact, IngestError>(IngestError::Io),
            !self.io_failed && !self.wrote_bytes ==> r == Err::<UploadArtifact, IngestError>(
                IngestError::EmptyStream,
            ),
            !self.io_failed && self.wrote_bytes ==> r == Ok::<UploadArtifact, IngestError>(
                self.artifact,
            ),
    {
        if self.io_failed {
            Err(IngestError::Io)
        } else if !self.wrote_bytes {
            Err(IngestError::EmptyStream)
        } else {
            Ok(self.artifact)
        }
    }
}

} // verus!
