//! First-run setup: the progress events shown while tools are downloaded, and
//! the bookkeeping of one download.

use vstd::prelude::*;

verus! {

/// A progress event streamed to the UI during first-run setup.
pub struct SetupProgress {
    pub component: String,
    pub phase: String,
    pub message: String,
    pub downloaded: u64,
    pub total: u64,
}

/// A setup progress event.
pub fn setup_event(component: &str, phase: &str, message: &str, downloaded: u64, total: u64) -> (e:
    SetupProgress)
    ensures
        e.component@ == component@,
        e.phase@ == phase@,
        e.message@ == message@,
        e.downloaded == downloaded,
        e.total == total,
{
    SetupProgress {
        component: component.to_string(),
        phase: phase.to_string(),
        message: message.to_string(),
        downloaded,
        total,
    }
}

/// How often, at most, download progress is reported.
pub const REPORT_EVERY_MS: u128 = 150;

/// The byte counts of one file download.
pub struct Transfer {
    /// Bytes received so far.
    pub downloaded: u64,
    /// The size the server announced, or 0 if it announced none.
    pub total: u64,
}

impl Transfer {
    /// A download whose server announced `content_length` bytes.
    pub fn new(content_length: Option<u64>) -> (t: Transfer)
        ensures
            t.downloaded == 0,
            t.total == match content_length {
                Some(n) => n,
                None => 0,
            },
    {
        Transfer {
            downloaded: 0,
            total: match content_length {
                Some(n) => n,
                None => 0,
            },
        }
    }

    /// Count a received chunk of `len` bytes, `since_report_ms` after the last
    /// report. Returns the counts to report, at most once per
    /// [`REPORT_EVERY_MS`].
    pub fn add_chunk(&mut self, len: u64, since_report_ms: u128) -> (report: Option<(u64, u64)>)
        requires
            old(self).downloaded + len <= u64::MAX,
        ensures
            final(self).downloaded == old(self).downloaded + len,
            final(self).total == old(self).total,
            report == if since_report_ms >= REPORT_EVERY_MS {
                Some((final(self).downloaded, final(self).total))
            } else {
                None
            },
    {
        self.downloaded = self.downloaded + len;
        if since_report_ms >= REPORT_EVERY_MS {
            Some((self.downloaded, self.total))
        } else {
            None
        }
    }

    /// The counts reported once the download completed: the total is at least
    /// what was received.
    pub fn finished(&self) -> (r: (u64, u64))
        ensures
            r.0 == self.downloaded,
            r.1 == if self.total >= self.downloaded {
                self.total
            } else {
                self.downloaded
            },
    {
        (self.downloaded, if self.total >= self.downloaded {
            self.total
        } else {
            self.downloaded
        })
    }
}

} // verus!
