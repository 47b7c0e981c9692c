//! The decisions of a binary update: which asset to fetch, where a transfer
//! resumes, which responses are accepted, and how progress is counted.
use vstd::prelude::*;
use vstd::string::*;

use crate::log_store::{logged_line, LogStore};
use crate::model::GitHubRelease;
use crate::text::{concat_str, decimal, decimal_string};

verus! {

/// The file name of the node executable, in the release and on disk.
pub const EXECUTABLE_NAME: &'static str = "openhash.exe";

/// Finds the first asset of `release` whose name is exactly `name`.
pub fn find_asset(release: &GitHubRelease, name: &str) -> (r: Option<usize>)
    ensures
        match r {
            Some(i) => {
                &&& i < release.assets@.len()
                &&& release.assets@[i as int].name@ == name@
                &&& forall|j: int| 0 <= j < i ==> (#[trigger] release.assets@[j]).name@ != name@
            },
            None => forall|j: int|
                0 <= j < release.assets@.len() ==> (#[trigger] release.assets@[j]).name@ != name@,
        },
{
    let wanted = String::from_str(name);
    let mut i: usize = 0;
    while i < release.assets.len()
        invariant
            i <= release.assets@.len(),
            wanted@ == name@,
            forall|j: int| 0 <= j < i ==> (#[trigger] release.assets@[j]).name@ != name@,
        decreases release.assets@.len() - i,
    {
        if release.assets[i].name == wanted {
            return Some(i);
        }
        i += 1;
    }
    None
}

/// What to do about the file already on disk.
#[derive(Debug, Clone, Copy, PartialEq, Eq)]
pub enum DownloadPlan {
    /// The file is complete: nothing is transferred and completion is announced.
    UpToDate,
    /// Transfer from byte `offset`, first deleting the file on disk when
    /// `discard_existing` holds.
    Fetch { offset: u64, discard_existing: bool },
}

/// The plan for a local file of length `local` (`None`: no file) and a
/// remote size `total` (0: not reported).
pub open spec fn plan_for(local: Option<u64>, total: u64) -> DownloadPlan {
    match local {
        None => DownloadPlan::Fetch { offset: 0, discard_existing: false },
        Some(len) => if total > 0 && len == total {
            DownloadPlan::UpToDate
        } else if len < total {
            DownloadPlan::Fetch { offset: len, discard_existing: false }
        } else if len > total {
            DownloadPlan::Fetch { offset: 0, discard_existing: true }
        } else {
            DownloadPlan::Fetch { offset: 0, discard_existing: false }
        },
    }
}

/// The log line that goes with a plan, if any.
pub open spec fn plan_note(local: Option<u64>, total: u64) -> Option<Seq<char>> {
    match local {
        None => None,
        Some(len) => if total > 0 && len == total {
            Some("openhash.exe is already up to date."@)
        } else if len < total {
            Some("Resuming download from "@ + decimal(len as nat) + " bytes."@)
        } else if len > total {
            Some("Existing file is larger than expected, restarting download."@)
        } else {
            None
        },
    }
}

/// `after` is `before` with `note` written under some single-line timestamp, or `before`
/// itself when there is no note.
pub open spec fn logged_note(
    before: Seq<Seq<char>>,
    after: Seq<Seq<char>>,
    note: Option<Seq<char>>,
) -> bool {
    match note {
        Some(n) => logged_line(before, after, n),
        None => after == before,
    }
}


/// Decides from the local file's length and the remote size whether to
/// transfer, and from where, and logs the decision.
pub fn plan_download(logs: &mut LogStore, local_len: Option<u64>, total: u64) -> (r: DownloadPlan)
    requires
        old(logs).wf(),
    ensures
        final(logs).wf(),
        r == plan_for(local_len, total),
        logged_note(old(logs)@, final(logs)@, plan_note(local_len, total)),
{
    match local_len {
        None => DownloadPlan::Fetch { offset: 0, discard_existing: false },
        Some(len) => {
            if total > 0 && len == total {
                let note = "openhash.exe is already up to date.";
                assert(plan_note(local_len, total) == Some(note@));
                logs.add_log_entry(note);
                DownloadPlan::UpToDate
            } else if len < total {
                let mut note = concat_str("Resuming download from ", decimal_string(len).as_str());
                note.append(" bytes.");
                assert(note@ =~= "Resuming download from "@ + decimal(len as nat) + " bytes."@);
                assert(plan_note(local_len, total) == Some(note@));
                logs.add_log_entry(note.as_str());
                DownloadPlan::Fetch { offset: len, discard_existing: false }
            } else if len > total {
                let note = "Existing file is larger than expected, restarting download.";
                assert(plan_note(local_len, total) == Some(note@));
                logs.add_log_entry(note);
                DownloadPlan::Fetch { offset: 0, discard_existing: true }
            } else {
                DownloadPlan::Fetch { offset: 0, discard_existing: false }
            }
        },
    }
}

/// The value of the `Range` header that resumes a transfer at `offset`.
pub open spec fn range_text(offset: u64) -> Seq<char> {
    "bytes="@ + decimal(offset as nat) + "-"@
}

/// The `Range` header a transfer from `offset` sends: none from the start,
/// else all bytes from `offset` to the end.
pub fn range_header_value(offset: u64) -> (r: Option<String>)
    ensures
        offset == 0 ==> r is None,
        offset > 0 ==> r is Some && r->0@ == range_text(offset),
{
    if offset == 0 {
        None
    } else {
        let mut v = concat_str("bytes=", decimal_string(offset).as_str());
        v.append("-");
        assert(v@ =~= range_text(offset));
        Some(v)
    }
}

/// Whether the transfer's HTTP status lets the body be written: any success,
/// partial content included.
pub open spec fn status_accepted(status: u16) -> bool {
    200 <= status <= 299
}

pub fn download_status_accepted(status: u16) -> (r: bool)
    ensures
        r == status_accepted(status),
{
    200 <= status && status <= 299
}

/// One progress report: bytes on disk so far, and the expected size (0: unknown).
#[derive(Debug, Clone, Copy, PartialEq, Eq)]
pub struct DownloadProgress {
    pub current: u64,
    pub total: u64,
}

/// The byte count after a chunk of `len` bytes, stopping at the largest `u64`.
pub open spec fn advanced(current: u64, len: u64) -> u64 {
    if current + len > u64::MAX {
        u64::MAX
    } else {
        (current + len) as u64
    }
}

impl DownloadProgress {
    /// The count at the start of a transfer from `offset`.
    pub fn new(offset: u64, total: u64) -> (r: DownloadProgress)
        ensures
            r.current == offset,
            r.total == total,
    {
        DownloadProgress { current: offset, total }
    }

    /// Counts a chunk of `len` bytes written to disk, and returns the report
    /// to hand to the caller.
    pub fn record_chunk(&mut self, len: u64) -> (r: DownloadProgress)
        ensures
            final(self).current == advanced(old(self).current, len),
            final(self).total == old(self).total,
            r == *final(self),
    {
        self.current = self.current.saturating_add(len);
        DownloadProgress { current: self.current, total: self.total }
    }
}

/// What the caller does once the plan is made.
#[derive(Debug, Clone, PartialEq, Eq)]
pub enum UpdateAction {
    /// Send the completion notice and report success; nothing is transferred.
    AnnounceComplete,
    /// Delete the local file first when `remove_first` holds, then request
    /// the file with the `range` header, if any, and count progress from
    /// `progress`; after the body is written, make the file executable and
    /// send the completion notice.
    Transfer { remove_first: bool, range: Option<String>, progress: DownloadProgress },
}

/// The action that carries out `plan` against a remote size `total`.
pub fn action_for_plan(plan: DownloadPlan, total: u64) -> (r: UpdateAction)
    ensures
        match plan {
            DownloadPlan::UpToDate => r == UpdateAction::AnnounceComplete,
            DownloadPlan::Fetch { offset, discard_existing } => match r {
                UpdateAction::Transfer { remove_first, range, progress } => {
                    &&& remove_first == discard_existing
                    &&& offset == 0 ==> range is None
                    &&& offset > 0 ==> range is Some && range->0@ == range_text(offset)
                    &&& progress == (DownloadProgress { current: offset, total })
                },
                _ => false,
            },
        },
{
    match plan {
        DownloadPlan::UpToDate => UpdateAction::AnnounceComplete,
        DownloadPlan::Fetch { offset, discard_existing } => UpdateAction::Transfer {
            remove_first: discard_existing,
            range: range_header_value(offset),
            progress: DownloadProgress::new(offset, total),
        },
    }
}

/// Checks the release feed's answer: anything but a success status is a
/// `FeedStatus` failure, logged.
pub fn check_feed_status(logs: &mut LogStore, success: bool) -> (r: Result<(), UpdateError>)
    requires
        old(logs).wf(),
    ensures
        final(logs).wf(),
        success ==> r is Ok && final(logs)@ == old(logs)@,
        !success ==> r == Err::<(), UpdateError>(UpdateError::FeedStatus) && logged_line(
            old(logs)@,
            final(logs)@,
            update_error_text(UpdateError::FeedStatus),
        ),
{
    if success {
        Ok(())
    } else {
        let err = UpdateError::FeedStatus;
        report_update_failure(logs, &err);
        Err(err)
    }
}

/// Why an update check or download failed.
#[derive(Debug, Clone, PartialEq, Eq)]
pub enum UpdateError {
    FetchFailed(String),
    FeedStatus,
    ParseFailed(String),
    AssetNotFound,
    SizeFailed(String),
    MetadataFailed(String),
    RemoveFailed(String),
    RequestFailed(String),
    /// A transfer answered with this status code and reason phrase.
    BadStatus(u16, String),
    OpenFailed(String),
    ChunkFailed(String),
    WriteFailed(String),
    CompleteNoticeFailed(String),
    ProgressNoticeFailed(String),
    FileMetadataFailed(String),
    PermissionsFailed(String),
}

/// The text reported for each failure.
pub open spec fn update_error_text(e: UpdateError) -> Seq<char> {
    match e {
        UpdateError::FetchFailed(d) => "Failed to fetch release info: "@ + d@,
        UpdateError::FeedStatus => "Failed to fetch release information from GitHub"@,
        UpdateError::ParseFailed(d) => "Failed to parse release info: "@ + d@,
        UpdateError::AssetNotFound => "openhash.exe not found in release assets"@,
        UpdateError::SizeFailed(d) => "Failed to get file size: "@ + d@,
        UpdateError::MetadataFailed(d) => "Failed to get metadata for existing file: "@ + d@,
        UpdateError::RemoveFailed(d) => "Failed to remove corrupted file: "@ + d@,
        UpdateError::RequestFailed(d) => "Failed to download executable: "@ + d@,
        UpdateError::BadStatus(c, reason) => "Failed to download executable: Status "@ + decimal(
            c as nat,
        ) + " "@ + reason@,
        UpdateError::FileMetadataFailed(d) => "Failed to get file metadata: "@ + d@,
        UpdateError::OpenFailed(d) => "Failed to open file for writing: "@ + d@,
        UpdateError::ChunkFailed(d) => "Error while downloading chunk: "@ + d@,
        UpdateError::WriteFailed(d) => "Error while writing to file: "@ + d@,
        UpdateError::CompleteNoticeFailed(d) => "Failed to emit download_complete event: "@ + d@,
        UpdateError::ProgressNoticeFailed(d) => "Failed to emit download_progress event: "@ + d@,
        UpdateError::PermissionsFailed(d) => "Failed to set executable permissions: "@ + d@,
    }
}

impl UpdateError {
    /// The failure as text.
    pub fn message(&self) -> (r: String)
        ensures
            r@ == update_error_text(*self),
    {
        match self {
            UpdateError::FetchFailed(d) => concat_str("Failed to fetch release info: ", d.as_str()),
            UpdateError::FeedStatus => String::from_str(
                "Failed to fetch release information from GitHub",
            ),
            UpdateError::ParseFailed(d) => concat_str("Failed to parse release info: ", d.as_str()),
            UpdateError::AssetNotFound => String::from_str("openhash.exe not found in release assets"),
            UpdateError::SizeFailed(d) => concat_str("Failed to get file size: ", d.as_str()),
            UpdateError::MetadataFailed(d) => concat_str(
                "Failed to get metadata for existing file: ",
                d.as_str(),
            ),
            UpdateError::RemoveFailed(d) => concat_str(
                "Failed to remove corrupted file: ",
                d.as_str(),
            ),
            UpdateError::RequestFailed(d) => concat_str(
                "Failed to download executable: ",
                d.as_str(),
            ),
            UpdateError::BadStatus(c, reason) => {
                let mut t = concat_str(
                    "Failed to download executable: Status ",
                    decimal_string(*c as u64).as_str(),
                );
                t.append(" ");
                t.append(reason.as_str());
                t
            },
            UpdateError::FileMetadataFailed(d) => concat_str(
                "Failed to get file metadata: ",
                d.as_str(),
            ),
            UpdateError::OpenFailed(d) => concat_str(
                "Failed to open file for writing: ",
                d.as_str(),
            ),
            UpdateError::ChunkFailed(d) => concat_str("Error while downloading chunk: ", d.as_str()),
            UpdateError::WriteFailed(d) => concat_str("Error while writing to file: ", d.as_str()),
            UpdateError::CompleteNoticeFailed(d) => concat_str(
                "Failed to emit download_complete event: ",
                d.as_str(),
            ),
            UpdateError::ProgressNoticeFailed(d) => concat_str(
                "Failed to emit download_progress event: ",
                d.as_str(),
            ),
            UpdateError::PermissionsFailed(d) => concat_str(
                "Failed to set executable permissions: ",
                d.as_str(),
            ),
        }
    }
}

/// Logs a failure of the update and returns its text, which is what the
/// caller is given.
pub fn report_update_failure(logs: &mut LogStore, err: &UpdateError) -> (r: String)
    requires
        old(logs).wf(),
    ensures
        final(logs).wf(),
        r@ == update_error_text(*err),
        logged_line(old(logs)@, final(logs)@, update_error_text(*err)),
{
    let text = err.message();
    logs.add_log_entry(text.as_str());
    text
}

/// The first step of an update: logs that the release feed is consulted.
pub fn log_update_check(logs: &mut LogStore)
    requires
        old(logs).wf(),
    ensures
        final(logs).wf(),
        logged_line(old(logs)@, final(logs)@, "Checking for updates..."@),
{
    logs.add_log_entry("Checking for updates...");
}

/// The last step of a transfer, once the file is written and executable:
/// logs the completion, after which completion is announced.
pub fn log_download_complete(logs: &mut LogStore)
    requires
        old(logs).wf(),
    ensures
        final(logs).wf(),
        logged_line(old(logs)@, final(logs)@, "Download completed successfully"@),
{
    logs.add_log_entry("Download completed successfully");
}

/// Takes the release the feed returned: logs its tag and picks the asset
/// named `EXECUTABLE_NAME`, whose download address it returns; a release
/// without it is an `AssetNotFound` failure, logged too.
pub fn select_release_asset(logs: &mut LogStore, release: &GitHubRelease) -> (r: Result<
    String,
    UpdateError,
>)
    requires
        old(logs).wf(),
    ensures
        final(logs).wf(),
        match r {
            Ok(url) => {
                &&& exists|i: int|
                    0 <= i < release.assets@.len() && release.assets@[i].name@ == EXECUTABLE_NAME@
                        && url@ == release.assets@[i].browser_download_url@ && forall|j: int|
                        0 <= j < i ==> (#[trigger] release.assets@[j]).name@ != EXECUTABLE_NAME@
                &&& logged_line(old(logs)@, final(logs)@, "Found release: "@ + release.tag_name@)
            },
            Err(e) => {
                &&& e == UpdateError::AssetNotFound
                &&& forall|j: int|
                    0 <= j < release.assets@.len() ==> (#[trigger] release.assets@[j]).name@
                        != EXECUTABLE_NAME@
                &&& exists|mid: Seq<Seq<char>>|
                    logged_line(old(logs)@, mid, "Found release: "@ + release.tag_name@)
                        && logged_line(mid, final(logs)@, update_error_text(UpdateError::AssetNotFound))
            },
        },
{
    let ghost before = logs@;
    let found = concat_str("Found release: ", release.tag_name.as_str());
    logs.add_log_entry(found.as_str());
    let ghost mid = logs@;
    match find_asset(release, EXECUTABLE_NAME) {
        Some(i) => Ok(release.assets[i].browser_download_url.clone()),
        None => {
            let err = UpdateError::AssetNotFound;
            report_update_failure(logs, &err);
            assert(logged_line(before, mid, "Found release: "@ + release.tag_name@));
            Err(err)
        },
    }
}

/// Checks the status of the transfer's response; any status but a success
/// is a `BadStatus` failure carrying the code and its reason phrase, logged.
pub fn check_download_status(logs: &mut LogStore, status: u16, reason: &str) -> (r: Result<
    (),
    UpdateError,
>)
    requires
        old(logs).wf(),
    ensures
        final(logs).wf(),
        status_accepted(status) ==> r is Ok && final(logs)@ == old(logs)@,
        !status_accepted(status) ==> match r {
            Err(UpdateError::BadStatus(c, rs)) => {
                &&& c == status
                &&& rs@ == reason@
                &&& logged_line(
                    old(logs)@,
                    final(logs)@,
                    update_error_text(UpdateError::BadStatus(c, rs)),
                )
            },
            _ => false,
        },
{
    if download_status_accepted(status) {
        Ok(())
    } else {
        let err = UpdateError::BadStatus(status, String::from_str(reason));
        report_update_failure(logs, &err);
        Err(err)
    }
}

/// The byte count after each of `chunks` in turn, starting from `start`.
pub open spec fn progress_after(start: u64, chunks: Seq<u64>) -> u64
    decreases chunks.len(),
{
    if chunks.len() == 0 {
        start
    } else {
        advanced(progress_after(start, chunks.drop_last()), chunks.last())
    }
}

/// The sum of the chunk lengths.
pub open spec fn total_len(chunks: Seq<u64>) -> nat
    decreases chunks.len(),
{
    if chunks.len() == 0 {
        0
    } else {
        total_len(chunks.drop_last()) + chunks.last() as nat
    }
}

/// While no count reaches the largest `u64`, the count is the start plus
/// the chunks' sum.
pub proof fn lemma_progress_sums(start: u64, chunks: Seq<u64>)
    requires
        start + total_len(chunks) <= u64::MAX,
    ensures
        progress_after(start, chunks) == start + total_len(chunks),
    decreases chunks.len(),
{
    if chunks.len() > 0 {
        lemma_progress_sums(start, chunks.drop_last());
    }
}

/// Resuming: with `len` bytes on disk out of a known `total`, the transfer
/// asks for the bytes from `len` to the end, keeps the file, and once the
/// server has sent the missing `total - len` bytes the count is `total`.
pub proof fn lemma_resume_from_partial_file(len: u64, total: u64, chunks: Seq<u64>)
    requires
        len < total,
        total_len(chunks) == total - len,
    ensures
        plan_for(Some(len), total) == (DownloadPlan::Fetch { offset: len, discard_existing: false }),
        len > 0 ==> range_text(len) == "bytes="@ + decimal(len as nat) + "-"@,
        progress_after(len, chunks) == total,
{
    lemma_progress_sums(len, chunks);
}

/// A local file as long as the known remote size is not fetched again: the
/// plan is `UpToDate`, under which completion is announced.
pub proof fn lemma_complete_file_not_fetched(total: u64)
    requires
        total > 0,
    ensures
        plan_for(Some(total), total) == DownloadPlan::UpToDate,
{
}

/// A local file longer than the remote size is deleted and the transfer
/// starts over from byte 0, with no `Range` header; the count then runs from
/// 0, and once the server has sent the whole file it is `total`.
pub proof fn lemma_oversized_file_restarts(len: u64, total: u64, chunks: Seq<u64>)
    requires
        len > total,
        total_len(chunks) == total,
    ensures
        plan_for(Some(len), total) == (DownloadPlan::Fetch { offset: 0, discard_existing: true }),
        progress_after(0, chunks) == total,
        forall|k: int|
            0 <= k <= chunks.len() ==> progress_after(0, #[trigger] chunks.subrange(0, k))
                == total_len(chunks.subrange(0, k)),
{
    lemma_progress_sums(0, chunks);
    assert forall|k: int| 0 <= k <= chunks.len() implies progress_after(
        0,
        #[trigger] chunks.subrange(0, k),
    ) == total_len(chunks.subrange(0, k)) by {
        lemma_prefix_len(chunks, k);
        lemma_progress_sums(0, chunks.subrange(0, k));
    }
}

proof fn lemma_prefix_len(chunks: Seq<u64>, k: int)
    requires
        0 <= k <= chunks.len(),
    ensures
        total_len(chunks.subrange(0, k)) <= total_len(chunks),
    decreases chunks.len(),
{
    if k < chunks.len() {
        lemma_prefix_len(chunks.drop_last(), k);
        assert(chunks.drop_last().subrange(0, k) =~= chunks.subrange(0, k));
    } else {
        assert(chunks.subrange(0, k) =~= chunks);
    }
}

} // verus!
