//! The diff-download driver's bookkeeping: where a download starts (resuming
//! a matching partial file in the temporary staging folder rather than
//! restarting), how far it is, and when it is complete. The caller moves the
//! bytes; this type decides the offsets and the progress pairs.

use vstd::prelude::*;

use crate::diff::VersionDiff;

verus! {

/// The byte offset a download starts at: the bytes of the matching partial
/// file, capped at the artifact size.
pub open spec fn spec_resume_offset(existing: Option<u64>, size: u64) -> u64 {
    match existing {
        None => 0u64,
        Some(n) => if n <= size {
            n
        } else {
            size
        },
    }
}

/// One artifact download staged in the temporary folder.
#[derive(Debug)]
pub struct DownloadTask {
    /// The deterministic staging file name, from the diff.
    pub file_name: String,
    /// Bytes expected in total.
    pub total: u64,
    /// Bytes present so far, resumed ones included.
    pub downloaded: u64,
}

impl DownloadTask {
    /// The task is consistent: never more bytes than the artifact has.
    pub open spec fn wf(&self) -> bool {
        self.downloaded <= self.total
    }

    /// Begins the download an update/install diff demands.
    ///
    /// `existing` is the size of the file in the staging folder whose name
    /// equals the diff's deterministic file name, if such a file is there;
    /// the download resumes at that offset instead of restarting. Diffs
    /// without an artifact (`Latest`, `Outdated`) have nothing to download.
    pub fn begin(diff: &VersionDiff, existing: Option<u64>) -> (r: Option<DownloadTask>)
        ensures
            r is Some <==> diff@.is_downloadable(),
            match r {
                Some(t) => {
                    &&& t.wf()
                    &&& diff@.spec_file_name() == Some(t.file_name@)
                    &&& diff@.spec_download_size() == Some(t.total)
                    &&& t.downloaded == spec_resume_offset(existing, t.total)
                },
                None => true,
            },
    {
        let name = match diff.file_name() {
            Some(n) => n.clone(),
            None => {
                return None;
            },
        };
        let total = match diff.downloaded_size() {
            Some(s) => s,
            None => {
                return None;
            },
        };
        let resumed = match existing {
            None => 0,
            Some(n) => if n <= total {
                n
            } else {
                total
            },
        };
        Some(DownloadTask { file_name: name, total, downloaded: resumed })
    }

    /// The progress pair to report: bytes done, bytes expected. Right after
    /// [`DownloadTask::begin`] this already stands at the resume offset —
    /// never back at zero while a partial file was there.
    pub fn progress(&self) -> (r: (u64, u64))
        ensures
            r.0 == self.downloaded,
            r.1 == self.total,
    {
        (self.downloaded, self.total)
    }

    /// Accounts for one received chunk; bytes beyond the expected total are
    /// ignored. Progress never moves backwards.
    pub fn receive(&mut self, len: u64)
        requires
            old(self).wf(),
        ensures
            final(self).wf(),
            final(self).downloaded == if old(self).downloaded + len <= old(self).total {
                old(self).downloaded + len
            } else {
                old(self).total as int
            },
            final(self).downloaded >= old(self).downloaded,
            final(self).total == old(self).total,
            final(self).file_name == old(self).file_name,
    {
        let room = self.total - self.downloaded;
        if len <= room {
            self.downloaded = self.downloaded + len;
        } else {
            self.downloaded = self.total;
        }
    }

    /// Whether every byte is there and the artifact can be installed into
    /// place.
    pub fn is_complete(&self) -> (r: bool)
        ensures
            r == (self.downloaded == self.total),
    {
        self.downloaded == self.total
    }
}

/// Law: a download resumes, never restarts. With a partial file of `n`
/// bytes (not past the artifact size) in the staging folder, the first
/// progress pair already reports at least `n` bytes done.
pub proof fn lemma_download_resumes(existing: u64, size: u64)
    requires
        existing <= size,
    ensures
        spec_resume_offset(Some(existing), size) >= existing,
{
}

} // verus!
