//! Download accounting: chunked progress reporting and size reverification.
//!
//! The application streams the HTTP response; after each chunk it calls
//! [`ProgressTracker::record_chunk`], which decides whether the advance is
//! worth reporting, and after persisting the payload it calls
//! [`verify_write`], which refuses any size mismatch.

use vstd::prelude::*;

use crate::error::InstallError;
use crate::text::dec_digits;
use crate::text::u64_dec;

verus! {

/// How many percentage points progress must advance before a new report is
/// emitted.
pub const PROGRESS_STEP: u64 = 5;

/// Progress accounting for one download: the advertised total byte count
/// (zero when none was advertised), the bytes received so far, and the
/// percentage at which progress was last reported.
#[derive(Debug, Clone, Copy, PartialEq, Eq, Structural)]
pub struct ProgressTracker {
    pub total: u64,
    pub downloaded: u64,
    pub last_emitted: u64,
}

/// The whole-number percentage `downloaded` is of `total`.
pub open spec fn percent(downloaded: nat, total: nat) -> nat
    recommends
        total > 0,
{
    downloaded * 100 / total
}

/// Whether reaching `pct` warrants a report when progress was last reported
/// at `last`: the percentage advanced by at least [`PROGRESS_STEP`] points,
/// or the download just reached completion.
pub open spec fn should_emit(pct: nat, last: nat) -> bool {
    pct >= last + PROGRESS_STEP || pct == 100
}

impl ProgressTracker {
    /// The tracker never reports beyond 100% and never counts more bytes
    /// than an advertised total.
    pub open spec fn wf(self) -> bool {
        &&& self.last_emitted <= 100
        &&& (self.total > 0 ==> self.downloaded <= self.total)
    }

    /// A fresh tracker for a download of `total` advertised bytes (zero when
    /// the response advertised no content length).
    pub fn new(total: u64) -> (t: ProgressTracker)
        ensures
            t.total == total,
            t.downloaded == 0,
            t.last_emitted == 0,
            t.wf(),
    {
        ProgressTracker { total, downloaded: 0, last_emitted: 0 }
    }

    /// Accounts for one received chunk of `len` bytes.  The running byte
    /// count always advances by exactly `len`; the returned percentage is
    /// present exactly when the emission policy asks for a report, and is
    /// then remembered as the last reported one.
    pub fn record_chunk(&mut self, len: u64) -> (emit: Option<u64>)
        requires
            old(self).wf(),
            old(self).downloaded + len <= u64::MAX,
            old(self).total > 0 ==> old(self).downloaded + len <= old(self).total,
        ensures
            final(self).wf(),
            final(self).total == old(self).total,
            final(self).downloaded == old(self).downloaded + len,
            ({
                let pct = percent(final(self).downloaded as nat, old(self).total as nat);
                if old(self).total > 0 && should_emit(pct, old(self).last_emitted as nat) {
                    emit == Some(pct as u64) && final(self).last_emitted == pct
                } else {
                    emit is None && final(self).last_emitted == old(self).last_emitted
                }
            }),
    {
        self.downloaded = self.downloaded + len;
        if self.total > 0 {
            let wide: u128 = (self.downloaded as u128) * 100 / (self.total as u128);
            proof {
                assert((self.downloaded as int) * 100 / (self.total as int) <= 100)
                    by (nonlinear_arith)
                    requires
                        0 <= self.downloaded as int <= self.total as int,
                        self.total as int > 0,
                ;
            }
            let pct: u64 = wide as u64;
            if pct >= self.last_emitted + PROGRESS_STEP || pct == 100 {
                self.last_emitted = pct;
                Some(pct)
            } else {
                None
            }
        } else {
            None
        }
    }
}

/// The text of one progress report.
pub open spec fn progress_message_view(pct: nat) -> Seq<char> {
    "Download progress: "@ + dec_digits(pct) + "%"@
}

/// Renders one progress report.
pub fn progress_message(pct: u64) -> (s: String)
    ensures
        s@ == progress_message_view(pct as nat),
{
    let s = String::from_str("Download progress: ").concat(u64_dec(pct).as_str()).concat("%");
    proof {
        assert(s@ =~= progress_message_view(pct as nat));
    }
    s
}

/// Size reverification after persisting the download: success exactly when
/// the byte count found on disk equals the byte count read from the
/// network; any mismatch is `IncompleteWrite`, never a silent success.
pub fn verify_write(network_bytes: u64, disk_bytes: u64) -> (r: Result<(), InstallError>)
    ensures
        r is Ok <==> network_bytes == disk_bytes,
        r matches Err(e) ==> e == InstallError::IncompleteWrite,
{
    if network_bytes == disk_bytes {
        Ok(())
    } else {
        Err(InstallError::IncompleteWrite)
    }
}

} // verus!
