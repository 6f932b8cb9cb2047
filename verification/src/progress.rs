//! Download accounting: actual bytes received versus reported progress.
//!
//! A download streams a body of declared total length (zero when the
//! server declares none) in chunks.  Every byte of every chunk is written
//! and counted; the reported progress position, shown for observability
//! only, is clamped to the declared total when the server under-reports.

use vstd::prelude::*;

verus! {

/// The accounting state of one download.
pub struct DownloadProgress {
    /// The declared content length; zero when absent or unknown.
    pub total: u64,
    /// How many bytes actually arrived and were written.
    pub received: u64,
    /// The reported progress position, never past the declared total.
    pub reported: u64,
}

impl DownloadProgress {
    /// The reported position never passes the declared total.
    pub open spec fn wf(&self) -> bool {
        self.reported <= self.total
    }

    /// Starts accounting a download with the declared content length, or
    /// zero when the server declares none.
    pub fn new(content_length: Option<u64>) -> (r: Self)
        ensures
            r.total == (match content_length {
                Some(n) => n,
                None => 0u64,
            }),
            r.received == 0,
            r.reported == 0,
            r.wf(),
    {
        let total = match content_length {
            Some(n) => n,
            None => 0,
        };
        DownloadProgress { total, received: 0, reported: 0 }
    }

    /// Accounts one received chunk.  Every byte counts toward the written
    /// file; the reported position moves by the chunk length but is clamped
    /// to the declared total.
    pub fn on_chunk(&mut self, len: u64)
        requires
            old(self).wf(),
            old(self).received + len <= u64::MAX,
        ensures
            final (self).total == old(self).total,
            final (self).received == old(self).received + len,
            final (self).reported == if old(self).reported + len <= old(self).total {
                (old(self).reported + len) as u64
            } else {
                old(self).total
            },
            final (self).wf(),
    {
        self.received = self.received + len;
        if len >= self.total - self.reported {
            self.reported = self.total;
        } else {
            self.reported = self.reported + len;
        }
    }
}

/// Law: when the declared content length is zero or absent, the reported
/// position never moves, while the received count still equals every byte
/// that arrived.
pub proof fn lemma_zero_total_stays_put(p: DownloadProgress)
    requires
        p.wf(),
        p.total == 0,
    ensures
        p.reported == 0,
{
}

} // verus!
