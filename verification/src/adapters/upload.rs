//! Uploads to the Controller: the size cap, and what an upload reports.
//!
//! The cap is enforced twice, because the analyzed malware is an adversarial
//! user: a file over the cap is refused before any byte moves, and one that grows
//! (or lies about its size) afterwards trips the cap in the stream and aborts the
//! request.

use vstd::prelude::*;

use crate::ports::{joined_text, UploadError, UploadMeta, UploadRequest};

verus! {

/// Bytes handed to the request at a time.
pub const CHUNK_BYTES: usize = 65536;

/// Connect timeout, seconds. There is no total timeout: large files may take a
/// while, and aborting a transfer would corrupt it.
pub const CONNECT_TIMEOUT_SECS: u64 = 10;

/// What the stream says when it trips the cap.
pub const CAP_EXCEEDED: &'static str = "blob exceeds upload cap";

/// What opening the file gave.
#[derive(Debug)]
pub enum OpenOutcome {
    /// It is open, and this long.
    Opened(u64),
    /// There is no such file.
    NotFound,
    /// It could not be opened, or its length not be had.
    Failed(String),
}

/// What sending the request gave.
#[derive(Debug)]
pub enum SendOutcome {
    /// The collector took it.
    Accepted,
    /// The collector refused it with this status.
    Rejected(String),
    /// The request failed.
    Failed(String),
}

/// Cap-enforcing count of the bytes of a stream.
#[derive(Debug, Clone, Copy, PartialEq, Eq, Structural)]
pub struct CappedStream {
    /// Bytes allowed.
    pub limit: u64,
    /// Bytes read so far.
    pub total_read: u64,
    /// The cap was tripped.
    pub overflowed: bool,
}

/// Bytes read after one more chunk; a number past 64 bits counts as the largest.
pub open spec fn grown(total: int, chunk: int) -> int {
    if total + chunk > u64::MAX {
        u64::MAX as int
    } else {
        total + chunk
    }
}

/// How an upload begins: with a stream that allows the cap, unless the file is
/// larger, or cannot be read.
pub open spec fn upload_begins(
    path: String,
    max_blob_bytes: u64,
    outcome: OpenOutcome,
    begun: Result<CappedStream, UploadError>,
) -> bool {
    match outcome {
        OpenOutcome::Opened(length) => begun == if length > max_blob_bytes {
            Err::<CappedStream, UploadError>(
                UploadError::TooLarge { limit: max_blob_bytes, read: length },
            )
        } else {
            Ok(CappedStream { limit: max_blob_bytes, total_read: 0, overflowed: false })
        },
        OpenOutcome::NotFound => begun == Err::<CappedStream, UploadError>(UploadError::NotFound(path)),
        OpenOutcome::Failed(detail) => begun == Err::<CappedStream, UploadError>(
            UploadError::Io(detail),
        ),
    }
}

/// What becomes of a stream with one more chunk, and whether it is delivered.
pub open spec fn takes_chunk(
    before: CappedStream,
    chunk_len: usize,
    after: CappedStream,
    delivered: bool,
) -> bool {
    &&& delivered == (before.total_read + chunk_len <= before.limit)
    &&& after == CappedStream {
        total_read: grown(before.total_read as int, chunk_len as int) as u64,
        overflowed: before.overflowed || !delivered,
        ..before
    }
}

/// How an upload ends.
pub open spec fn upload_ends(
    stream: CappedStream,
    outcome: SendOutcome,
    result: Result<(), UploadError>,
) -> bool {
    match outcome {
        SendOutcome::Accepted => result is Ok,
        SendOutcome::Rejected(status) => result matches Err(UploadError::Transport(text)) && text@
            == "controller rejected upload: "@ + status@,
        SendOutcome::Failed(detail) => result == Err::<(), UploadError>(
            if stream.overflowed {
                UploadError::TooLarge { limit: stream.limit, read: stream.total_read }
            } else {
                UploadError::Transport(detail)
            },
        ),
    }
}

/// Begin an upload: the file must be there and within the cap.
pub fn begin_upload(path: String, max_blob_bytes: u64, outcome: OpenOutcome) -> (begun: Result<
    CappedStream,
    UploadError,
>)
    ensures
        upload_begins(path, max_blob_bytes, outcome, begun),
{
    match outcome {
        OpenOutcome::Opened(length) => {
            if length > max_blob_bytes {
                return Err(UploadError::TooLarge { limit: max_blob_bytes, read: length });
            }
            Ok(CappedStream { limit: max_blob_bytes, total_read: 0, overflowed: false })
        },
        OpenOutcome::NotFound => Err(UploadError::NotFound(path)),
        OpenOutcome::Failed(detail) => Err(UploadError::Io(detail)),
    }
}

impl CappedStream {
    /// Count a chunk; `false` = it trips the cap, and must not be delivered.
    pub fn take_chunk(&mut self, chunk_len: usize) -> (delivered: bool)
        ensures
            takes_chunk(*old(self), chunk_len, *final(self), delivered),
    {
        match self.total_read.checked_add(chunk_len as u64) {
            Some(total) => {
                self.total_read = total;
                if total > self.limit {
                    self.overflowed = true;
                    false
                } else {
                    true
                }
            },
            None => {
                self.total_read = u64::MAX;
                self.overflowed = true;
                false
            },
        }
    }

    /// What an upload reports: the precise cap error rather than that of the
    /// request it aborted.
    pub fn finish(self, outcome: SendOutcome) -> (result: Result<(), UploadError>)
        ensures
            upload_ends(self, outcome, result),
    {
        match outcome {
            SendOutcome::Accepted => Ok(()),
            SendOutcome::Rejected(status) => Err(
                UploadError::Transport(joined_text("controller rejected upload: ", status.as_str())),
            ),
            SendOutcome::Failed(detail) => if self.overflowed {
                Err(UploadError::TooLarge { limit: self.limit, read: self.total_read })
            } else {
                Err(UploadError::Transport(detail))
            },
        }
    }
}

/// The bytes read after these chunks.
pub open spec fn total_of(chunks: Seq<usize>) -> int
    decreases chunks.len(),
{
    if chunks.len() == 0 {
        0
    } else {
        grown(total_of(chunks.drop_last()), chunks.last() as int)
    }
}

/// The bytes delivered of these chunks.
pub open spec fn delivered_of(limit: u64, chunks: Seq<usize>) -> int
    decreases chunks.len(),
{
    if chunks.len() == 0 {
        0
    } else {
        let earlier = delivered_of(limit, chunks.drop_last());
        if total_of(chunks.drop_last()) + chunks.last() <= limit {
            earlier + chunks.last()
        } else {
            earlier
        }
    }
}

/// However much a file grows, no more bytes than the cap allows leave the VM.
pub proof fn law_the_cap_bounds_what_is_delivered(limit: u64, chunks: Seq<usize>)
    ensures
        0 <= delivered_of(limit, chunks) <= limit,
        delivered_of(limit, chunks) <= total_of(chunks),
    decreases chunks.len(),
{
    if chunks.len() > 0 {
        law_the_cap_bounds_what_is_delivered(limit, chunks.drop_last());
    }
}

/// One recorded upload request.
#[derive(Debug, PartialEq, Eq)]
pub struct RecordedUpload {
    /// The endpoint the request went to.
    pub endpoint: String,
    /// The wire metadata.
    pub meta: UploadMeta,
    /// Source file size (bytes) as the pre-flight saw it.
    pub size_bytes: u64,
}

/// Records every upload; can be flipped into a failing collector.
#[derive(Debug)]
pub struct FakeUploader {
    /// All recorded uploads, in order.
    pub uploads: Vec<RecordedUpload>,
    /// Uploads fail.
    pub fail: bool,
}

impl FakeUploader {
    /// All recorded uploads, in order.
    pub fn uploads(&self) -> (uploads: &Vec<RecordedUpload>)
        ensures
            *uploads == self.uploads,
    {
        &self.uploads
    }

    /// Make subsequent uploads fail, or not.
    pub fn fail(&mut self, fail: bool)
        ensures
            final(self).fail == fail,
            final(self).uploads == old(self).uploads,
    {
        self.fail = fail;
    }

    /// Record an upload of a file of this size.
    pub fn upload(&mut self, request: UploadRequest, size_bytes: u64) -> (result: Result<(), UploadError>)
        ensures
            final(self).fail == old(self).fail,
            if old(self).fail {
                &&& (result matches Err(UploadError::Transport(text)) && text@ == "forced failure"@)
                &&& final(self).uploads == old(self).uploads
            } else {
                &&& result is Ok
                &&& final(self).uploads@ == old(self).uploads@.push(
                    RecordedUpload { endpoint: request.endpoint, meta: request.meta, size_bytes },
                )
            },
    {
        if self.fail {
            return Err(UploadError::Transport("forced failure".to_owned()));
        }
        self.uploads.push(
            RecordedUpload { endpoint: request.endpoint, meta: request.meta, size_bytes },
        );
        Ok(())
    }
}

impl Default for FakeUploader {
    fn default() -> (uploader: Self)
        ensures
            uploader.uploads@.len() == 0,
            !uploader.fail,
    {
        FakeUploader { uploads: Vec::new(), fail: false }
    }
}

} // verus!
