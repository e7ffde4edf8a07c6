use vstd::prelude::*;
use crate::errors::InstallError;
use crate::locate::{find_first_with_extension, first_match_spec};
use crate::mods::{DirEntry, FileInfo};
use crate::paths::{archive_path_for, archive_path_spec, backup_path_for, backup_path_spec,
    extraction_dir_for, extraction_dir_spec, staging_dir_for, staging_dir_spec};
use crate::reference::{profile_page_url, profile_page_url_spec};
use crate::text::{dec_rep_int, i32_to_decimal};

verus! {

// One install operation runs the linear pipeline
//   resolved -> downloaded -> extracted -> patch located -> backed up -> patched,
// with no branches and no retries: a failure at any stage is terminal and
// aborts the operation without rolling back stages already completed. The
// machine below decides each step; a driver performs the returned action
// (network transfer, filesystem work, an external tool run) and hands the
// outcome back as the next event. The driver is expected to canonicalize the
// relative paths it is handed before passing them to an external tool.

/// The extension of the delta-patch artifact sought inside an extracted mod.
pub open spec fn patch_extension_spec() -> Seq<char> {
    "xdelta"@
}

/// The extension of the delta-patch artifact.
pub fn patch_extension() -> (r: &'static str)
    ensures
        r@ == patch_extension_spec(),
{
    "xdelta"
}

/// One install operation: which mod, into which target file.
#[derive(Clone, Debug, PartialEq, Eq)]
pub struct InstallJob {
    /// The resolved mod's stable identifier.
    pub mod_id: i32,
    /// The user's target file, which the patch regenerates in place.
    pub target_path: String,
}

/// Where one install operation stands.
#[derive(Clone, Debug, PartialEq, Eq)]
pub enum InstallState {
    /// The mod is resolved; nothing has been done yet.
    Resolved,
    /// The file listing was asked for.
    FetchingListing,
    /// The archive named first in the listing is being downloaded.
    Downloading { filename: String },
    /// The staging directory is being created.
    PreparingStagingDir { filename: String },
    /// The downloaded bytes are being written into the staging directory.
    StoringArchive { filename: String },
    /// The extraction directory beside the archive is being created.
    PreparingExtractionDir { filename: String },
    /// The external archive tool is unpacking the archive.
    Extracting,
    /// The staging tree is being walked for the patch artifact.
    Locating,
    /// Whether a pristine backup already exists is being checked.
    CheckingBackup { patch_path: String },
    /// The target's bytes are being captured as the pristine backup.
    CapturingBackup { patch_path: String },
    /// The external patch tool is regenerating the target from the backup.
    Patching,
    /// After a failed patch run: the target is being restored from the backup.
    Restoring,
    /// The target is patched; the operation succeeded.
    Patched,
    /// The operation failed; the error is terminal.
    Failed { error: InstallError },
}

/// What the driver must do next.
#[derive(Clone, Debug, PartialEq, Eq)]
pub enum InstallAction {
    /// Request the mod's file listing from the given address.
    FetchListing { url: String },
    /// Download the bytes at the given address in one blocking transfer.
    Download { url: String },
    /// Create the directory and its parents; an existing one is no error.
    EnsureDir { path: String },
    /// Write the downloaded bytes to the path, overwriting any prior file.
    WriteArchive { path: String },
    /// Run the external archive tool: extract the archive into the directory.
    Extract { archive_path: String, dest_dir: String },
    /// List every entry under the root, recursively, in traversal order.
    WalkStaging { root: String },
    /// Report whether a file exists at the path.
    CheckBackup { path: String },
    /// Copy the target file to the backup path.
    CopyBackup { from: String, to: String },
    /// Run the external patch tool: decode, overwriting the output, with the
    /// backup as source, the artifact as patch, the target as output.
    ApplyPatch { source: String, patch: String, output: String },
    /// Copy the backup back over the target after a failed patch run.
    RestoreBackup { from: String, to: String },
    /// Surface the terminal error to the caller.
    Report { error: InstallError },
    /// The install succeeded; there is nothing more to do.
    Finish,
}

/// What came back from performing an action.
#[derive(Clone, Debug, PartialEq, Eq)]
pub enum InstallEvent {
    /// Start the operation.
    Begin,
    /// The file listing arrived and decoded.
    Listing { files: Vec<FileInfo> },
    /// The download completed; the driver holds the bytes.
    Downloaded,
    /// A remote call did not complete.
    NetworkFailed,
    /// A remote response arrived but did not match the expected shape.
    DecodeFailed,
    /// The directory exists now.
    DirReady,
    /// The archive bytes were written.
    ArchiveWritten,
    /// A filesystem create, read or write failed.
    IoFailed,
    /// The external tool ran; whether it reported success.
    ToolExited { success: bool },
    /// The external tool could not be launched.
    ToolLaunchFailed,
    /// The staging tree was walked.
    Walked { entries: Vec<DirEntry> },
    /// Whether a file exists at the checked path.
    BackupPresent { present: bool },
    /// The target was copied to the backup path.
    BackupCopied,
    /// The target was restored from the backup.
    Restored,
}

/// Which events can answer which state's pending action.
pub open spec fn event_fits(state: InstallState, event: InstallEvent) -> bool {
    match state {
        InstallState::Resolved => event is Begin,
        InstallState::FetchingListing => event is Listing || event is NetworkFailed
            || event is DecodeFailed,
        InstallState::Downloading { .. } => event is Downloaded || event is NetworkFailed,
        InstallState::PreparingStagingDir { .. } => event is DirReady || event is IoFailed,
        InstallState::StoringArchive { .. } => event is ArchiveWritten || event is IoFailed,
        InstallState::PreparingExtractionDir { .. } => event is DirReady || event is IoFailed,
        InstallState::Extracting => event is ToolExited || event is ToolLaunchFailed,
        InstallState::Locating => event is Walked,
        InstallState::CheckingBackup { .. } => event is BackupPresent || event is IoFailed,
        InstallState::CapturingBackup { .. } => event is BackupCopied || event is IoFailed,
        InstallState::Patching => event is ToolExited || event is ToolLaunchFailed,
        InstallState::Restoring => event is Restored || event is IoFailed,
        InstallState::Patched => false,
        InstallState::Failed { .. } => false,
    }
}

/// The operation ended in the given terminal error, to be surfaced verbatim.
pub open spec fn failed_with(r: (InstallState, InstallAction), e: InstallError) -> bool {
    r.0 == (InstallState::Failed { error: e }) && r.1 == (InstallAction::Report { error: e })
}

/// One decision of the install pipeline: from where the operation stands and
/// what came back, to where it stands next and what the driver must do.
pub fn install_step(job: &InstallJob, state: InstallState, event: InstallEvent) -> (r: (
    InstallState,
    InstallAction,
))
    requires
        event_fits(state, event),
    ensures
        ({
            let idt = dec_rep_int(job.mod_id as int);
            let target = job.target_path@;
            let bak = backup_path_spec(target);
            &&& (state is Resolved ==> r.0 is FetchingListing && (r.1
                matches InstallAction::FetchListing { url } && url@ == profile_page_url_spec(idt)))
            &&& (event matches InstallEvent::Listing { files } ==> ((state is FetchingListing
                && files@.len() == 0) ==> failed_with(r, InstallError::Precondition)))
            &&& (event matches InstallEvent::Listing { files } ==> ((state is FetchingListing
                && files@.len() > 0) ==> (r.0 matches InstallState::Downloading { filename }
                && filename@ == files@[0].filename@) && (r.1 matches InstallAction::Download { url }
                && url@ == files@[0].download_url@)))
            &&& (state is FetchingListing && event is NetworkFailed ==> failed_with(
                r,
                InstallError::Network,
            ))
            &&& (state is FetchingListing && event is DecodeFailed ==> failed_with(
                r,
                InstallError::Decode,
            ))
            &&& (state matches InstallState::Downloading { filename } ==> (event is Downloaded
                ==> (r.0 matches InstallState::PreparingStagingDir { filename: f2 } && f2@
                == filename@) && (r.1 matches InstallAction::EnsureDir { path } && path@
                == staging_dir_spec(idt))))
            &&& (state is Downloading && event is NetworkFailed ==> failed_with(
                r,
                InstallError::Network,
            ))
            &&& (state matches InstallState::PreparingStagingDir { filename } ==> (
            event is DirReady ==> (r.0 matches InstallState::StoringArchive { filename: f2 } && f2@
                == filename@) && (r.1 matches InstallAction::WriteArchive { path } && path@
                == archive_path_spec(idt, filename@))))
            &&& (state is PreparingStagingDir && event is IoFailed ==> failed_with(
                r,
                InstallError::Io,
            ))
            &&& (state matches InstallState::StoringArchive { filename } ==> (
            event is ArchiveWritten ==> (r.0
                matches InstallState::PreparingExtractionDir { filename: f2 } && f2@ == filename@)
                && (r.1 matches InstallAction::EnsureDir { path } && path@ == extraction_dir_spec(
                idt,
                filename@,
            ))))
            &&& (state is StoringArchive && event is IoFailed ==> failed_with(r, InstallError::Io))
            &&& (state matches InstallState::PreparingExtractionDir { filename } ==> (
            event is DirReady ==> r.0 is Extracting && (r.1
                matches InstallAction::Extract { archive_path, dest_dir } && archive_path@
                == archive_path_spec(idt, filename@) && dest_dir@ == extraction_dir_spec(
                idt,
                filename@,
            ))))
            &&& (state is PreparingExtractionDir && event is IoFailed ==> failed_with(
                r,
                InstallError::Io,
            ))
            &&& (event matches InstallEvent::ToolExited { success } ==> ((state is Extracting
                && success) ==> r.0 is Locating && (r.1 matches InstallAction::WalkStaging { root }
                && root@ == staging_dir_spec(idt))))
            &&& (event matches InstallEvent::ToolExited { success } ==> ((state is Extracting
                && !success) ==> failed_with(r, InstallError::ExternalTool)))
            &&& (state is Extracting && event is ToolLaunchFailed ==> failed_with(
                r,
                InstallError::ExternalTool,
            ))
            &&& (event matches InstallEvent::Walked { entries } ==> (state is Locating ==> (
            match first_match_spec(entries@, patch_extension_spec()) {
                Some(p) => (r.0 matches InstallState::CheckingBackup { patch_path } && patch_path@
                    == p) && (r.1 matches InstallAction::CheckBackup { path } && path@ == bak),
                None => failed_with(r, InstallError::NotFound),
            })))
            &&& (state matches InstallState::CheckingBackup { patch_path } ==> (event
                matches InstallEvent::BackupPresent { present } ==> (present ==> r.0 is Patching
                && (r.1 matches InstallAction::ApplyPatch { source, patch, output } && source@
                == bak && patch@ == patch_path@ && output@ == target))))
            &&& (state matches InstallState::CheckingBackup { patch_path } ==> (event
                matches InstallEvent::BackupPresent { present } ==> (!present ==> (r.0
                matches InstallState::CapturingBackup { patch_path: p2 } && p2@ == patch_path@) && (
            r.1 matches InstallAction::CopyBackup { from, to } && from@ == target && to@ == bak))))
            &&& (state is CheckingBackup && event is IoFailed ==> failed_with(r, InstallError::Io))
            &&& (state matches InstallState::CapturingBackup { patch_path } ==> (
            event is BackupCopied ==> r.0 is Patching && (r.1
                matches InstallAction::ApplyPatch { source, patch, output } && source@ == bak
                && patch@ == patch_path@ && output@ == target)))
            &&& (state is CapturingBackup && event is IoFailed ==> failed_with(
                r,
                InstallError::Io,
            ))
            &&& (event matches InstallEvent::ToolExited { success } ==> ((state is Patching
                && success) ==> r.0 is Patched && r.1 is Finish))
            &&& (event matches InstallEvent::ToolExited { success } ==> ((state is Patching
                && !success) ==> r.0 is Restoring && (r.1
                matches InstallAction::RestoreBackup { from, to } && from@ == bak && to@
                == target)))
            &&& (state is Patching && event is ToolLaunchFailed ==> failed_with(
                r,
                InstallError::ExternalTool,
            ))
            &&& (state is Restoring && event is Restored ==> failed_with(
                r,
                InstallError::ExternalTool,
            ))
            &&& (state is Restoring && event is IoFailed ==> failed_with(r, InstallError::Io))
        }),
{
    match (state, event) {
        (InstallState::Resolved, InstallEvent::Begin) => {
            let id_text = i32_to_decimal(job.mod_id);
            let url = profile_page_url(id_text.as_str());
            (InstallState::FetchingListing, InstallAction::FetchListing { url })
        },
        (InstallState::FetchingListing, InstallEvent::Listing { files }) => {
            if files.len() == 0 {
                fail(InstallError::Precondition)
            } else {
                let first = &files[0];
                (
                    InstallState::Downloading { filename: first.filename.clone() },
                    InstallAction::Download { url: first.download_url.clone() },
                )
            }
        },
        (InstallState::FetchingListing, InstallEvent::NetworkFailed) => fail(
            InstallError::Network,
        ),
        (InstallState::FetchingListing, InstallEvent::DecodeFailed) => fail(InstallError::Decode),
        (InstallState::Downloading { filename }, InstallEvent::Downloaded) => {
            let path = staging_dir_for(job.mod_id);
            (
                InstallState::PreparingStagingDir { filename },
                InstallAction::EnsureDir { path },
            )
        },
        (InstallState::Downloading { .. }, InstallEvent::NetworkFailed) => fail(
            InstallError::Network,
        ),
        (InstallState::PreparingStagingDir { filename }, InstallEvent::DirReady) => {
            let path = archive_path_for(job.mod_id, filename.as_str());
            (InstallState::StoringArchive { filename }, InstallAction::WriteArchive { path })
        },
        (InstallState::PreparingStagingDir { .. }, InstallEvent::IoFailed) => fail(
            InstallError::Io,
        ),
        (InstallState::StoringArchive { filename }, InstallEvent::ArchiveWritten) => {
            let path = extraction_dir_for(job.mod_id, filename.as_str());
            (
                InstallState::PreparingExtractionDir { filename },
                InstallAction::EnsureDir { path },
            )
        },
        (InstallState::StoringArchive { .. }, InstallEvent::IoFailed) => fail(InstallError::Io),
        (InstallState::PreparingExtractionDir { filename }, InstallEvent::DirReady) => {
            let archive_path = archive_path_for(job.mod_id, filename.as_str());
            let dest_dir = extraction_dir_for(job.mod_id, filename.as_str());
            (InstallState::Extracting, InstallAction::Extract { archive_path, dest_dir })
        },
        (InstallState::PreparingExtractionDir { .. }, InstallEvent::IoFailed) => fail(
            InstallError::Io,
        ),
        (InstallState::Extracting, InstallEvent::ToolExited { success }) => {
            if success {
                let root = staging_dir_for(job.mod_id);
                (InstallState::Locating, InstallAction::WalkStaging { root })
            } else {
                fail(InstallError::ExternalTool)
            }
        },
        (InstallState::Extracting, InstallEvent::ToolLaunchFailed) => fail(
            InstallError::ExternalTool,
        ),
        (InstallState::Locating, InstallEvent::Walked { entries }) => {
            match find_first_with_extension(&entries, patch_extension()) {
                Some(patch_path) => {
                    let path = backup_path_for(job.target_path.as_str());
                    (
                        InstallState::CheckingBackup { patch_path },
                        InstallAction::CheckBackup { path },
                    )
                },
                None => fail(InstallError::NotFound),
            }
        },
        (InstallState::CheckingBackup { patch_path }, InstallEvent::BackupPresent { present }) => {
            if present {
                apply_patch_step(job, patch_path)
            } else {
                let from = job.target_path.clone();
                let to = backup_path_for(job.target_path.as_str());
                (
                    InstallState::CapturingBackup { patch_path },
                    InstallAction::CopyBackup { from, to },
                )
            }
        },
        (InstallState::CheckingBackup { .. }, InstallEvent::IoFailed) => fail(InstallError::Io),
        (InstallState::CapturingBackup { patch_path }, InstallEvent::BackupCopied) => {
            apply_patch_step(job, patch_path)
        },
        (InstallState::CapturingBackup { .. }, InstallEvent::IoFailed) => fail(InstallError::Io),
        (InstallState::Patching, InstallEvent::ToolExited { success }) => {
            if success {
                (InstallState::Patched, InstallAction::Finish)
            } else {
                let from = backup_path_for(job.target_path.as_str());
                let to = job.target_path.clone();
                (InstallState::Restoring, InstallAction::RestoreBackup { from, to })
            }
        },
        (InstallState::Patching, InstallEvent::ToolLaunchFailed) => fail(
            InstallError::ExternalTool,
        ),
        (InstallState::Restoring, InstallEvent::Restored) => fail(InstallError::ExternalTool),
        (InstallState::Restoring, InstallEvent::IoFailed) => fail(InstallError::Io),
        _ => {
            proof {
                assert(false);
            }
            fail(InstallError::Precondition)
        },
    }
}

/// The terminal answer for one error.
fn fail(e: InstallError) -> (r: (InstallState, InstallAction))
    ensures
        failed_with(r, e),
{
    (InstallState::Failed { error: e }, InstallAction::Report { error: e })
}

/// The patch run: regenerate the target from the backup plus the artifact.
fn apply_patch_step(job: &InstallJob, patch_path: String) -> (r: (InstallState, InstallAction))
    ensures
        r.0 is Patching,
        r.1 matches InstallAction::ApplyPatch { source, patch, output } && source@
            == backup_path_spec(job.target_path@) && patch@ == patch_path@ && output@
            == job.target_path@,
{
    let source = backup_path_for(job.target_path.as_str());
    let output = job.target_path.clone();
    (
        InstallState::Patching,
        InstallAction::ApplyPatch { source, patch: patch_path, output },
    )
}

} // verus!
