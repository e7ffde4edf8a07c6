use brainsurf::errors::InstallError;
use brainsurf::install::{install_step, InstallAction, InstallEvent, InstallJob, InstallState};
use brainsurf::locate::find_first_with_extension;
use brainsurf::mods::{DirEntry, FileInfo};

fn job() -> InstallJob {
    InstallJob { mod_id: 615376, target_path: String::from("data.win") }
}

fn entry(path: &str, is_file: bool) -> DirEntry {
    DirEntry { path: String::from(path), is_file }
}

fn listing_one() -> InstallEvent {
    InstallEvent::Listing {
        files: vec![FileInfo {
            filename: String::from("cool-mod.zip"),
            download_url: String::from("https://files.example/cool-mod.zip"),
        }],
    }
}

fn walked_with_patch() -> InstallEvent {
    InstallEvent::Walked {
        entries: vec![
            entry("./data/download/615376", false),
            entry("./data/download/615376/cool-mod.zip", true),
            entry("./data/download/615376/cool-mod", false),
            entry("./data/download/615376/cool-mod/readme.txt", true),
            entry("./data/download/615376/cool-mod/patch.xdelta", true),
        ],
    }
}

/// Drives one full install from the beginning up to the backup check and
/// returns the state standing there.
fn run_to_backup_check() -> InstallState {
    let j = job();
    let (s, a) = install_step(&j, InstallState::Resolved, InstallEvent::Begin);
    assert_eq!(
        a,
        InstallAction::FetchListing {
            url: String::from("https://gamebanana.com/apiv11/Mod/615376/ProfilePage"),
        }
    );
    let (s, a) = install_step(&j, s, listing_one());
    assert_eq!(
        a,
        InstallAction::Download { url: String::from("https://files.example/cool-mod.zip") }
    );
    let (s, a) = install_step(&j, s, InstallEvent::Downloaded);
    assert_eq!(a, InstallAction::EnsureDir { path: String::from("./data/download/615376") });
    let (s, a) = install_step(&j, s, InstallEvent::DirReady);
    assert_eq!(
        a,
        InstallAction::WriteArchive {
            path: String::from("./data/download/615376/cool-mod.zip"),
        }
    );
    let (s, a) = install_step(&j, s, InstallEvent::ArchiveWritten);
    assert_eq!(
        a,
        InstallAction::EnsureDir { path: String::from("./data/download/615376/cool-mod") }
    );
    let (s, a) = install_step(&j, s, InstallEvent::DirReady);
    assert_eq!(
        a,
        InstallAction::Extract {
            archive_path: String::from("./data/download/615376/cool-mod.zip"),
            dest_dir: String::from("./data/download/615376/cool-mod"),
        }
    );
    let (s, a) = install_step(&j, s, InstallEvent::ToolExited { success: true });
    assert_eq!(
        a,
        InstallAction::WalkStaging { root: String::from("./data/download/615376") }
    );
    let (s, a) = install_step(&j, s, walked_with_patch());
    assert_eq!(a, InstallAction::CheckBackup { path: String::from("data.win.bak") });
    s
}

#[test]
fn first_install_captures_backup_then_patches() {
    let j = job();
    let s = run_to_backup_check();
    let (s, a) = install_step(&j, s, InstallEvent::BackupPresent { present: false });
    assert_eq!(
        a,
        InstallAction::CopyBackup {
            from: String::from("data.win"),
            to: String::from("data.win.bak"),
        }
    );
    let (s, a) = install_step(&j, s, InstallEvent::BackupCopied);
    assert_eq!(
        a,
        InstallAction::ApplyPatch {
            source: String::from("data.win.bak"),
            patch: String::from("./data/download/615376/cool-mod/patch.xdelta"),
            output: String::from("data.win"),
        }
    );
    let (s, a) = install_step(&j, s, InstallEvent::ToolExited { success: true });
    assert_eq!(s, InstallState::Patched);
    assert_eq!(a, InstallAction::Finish);
}

#[test]
fn reinstall_never_copies_a_second_backup() {
    // The second run of the pipeline finds the backup already present and
    // goes straight to patching from that pristine copy.
    let j = job();
    let s = run_to_backup_check();
    let (s, a) = install_step(&j, s, InstallEvent::BackupPresent { present: true });
    assert_eq!(
        a,
        InstallAction::ApplyPatch {
            source: String::from("data.win.bak"),
            patch: String::from("./data/download/615376/cool-mod/patch.xdelta"),
            output: String::from("data.win"),
        }
    );
    let (s, a) = install_step(&j, s, InstallEvent::ToolExited { success: true });
    assert_eq!(s, InstallState::Patched);
    assert_eq!(a, InstallAction::Finish);
}

#[test]
fn empty_listing_fails_before_any_download() {
    let j = job();
    let (s, _) = install_step(&j, InstallState::Resolved, InstallEvent::Begin);
    let (s, a) = install_step(&j, s, InstallEvent::Listing { files: vec![] });
    assert_eq!(s, InstallState::Failed { error: InstallError::Precondition });
    assert_eq!(a, InstallAction::Report { error: InstallError::Precondition });
}

#[test]
fn listing_network_failure_is_terminal() {
    let j = job();
    let (s, _) = install_step(&j, InstallState::Resolved, InstallEvent::Begin);
    let (s, a) = install_step(&j, s, InstallEvent::NetworkFailed);
    assert_eq!(s, InstallState::Failed { error: InstallError::Network });
    assert_eq!(a, InstallAction::Report { error: InstallError::Network });
}

#[test]
fn missing_patch_artifact_never_reaches_the_patch_tool() {
    let j = job();
    let (s, a) = install_step(
        &j,
        InstallState::Locating,
        InstallEvent::Walked {
            entries: vec![
                entry("./data/download/615376/cool-mod.zip", true),
                entry("./data/download/615376/cool-mod/readme.txt", true),
            ],
        },
    );
    assert_eq!(s, InstallState::Failed { error: InstallError::NotFound });
    assert_eq!(a, InstallAction::Report { error: InstallError::NotFound });
}

#[test]
fn uppercase_extension_does_not_match() {
    let j = job();
    let (s, a) = install_step(
        &j,
        InstallState::Locating,
        InstallEvent::Walked {
            entries: vec![entry("./data/download/615376/cool-mod/patch.XDELTA", true)],
        },
    );
    assert_eq!(s, InstallState::Failed { error: InstallError::NotFound });
    assert_eq!(a, InstallAction::Report { error: InstallError::NotFound });
}

#[test]
fn failed_extraction_is_reported() {
    let j = job();
    let (s, a) = install_step(
        &j,
        InstallState::Extracting,
        InstallEvent::ToolExited { success: false },
    );
    assert_eq!(s, InstallState::Failed { error: InstallError::ExternalTool });
    assert_eq!(a, InstallAction::Report { error: InstallError::ExternalTool });
}

#[test]
fn failed_patch_restores_the_target_from_the_backup() {
    let j = job();
    let (s, a) = install_step(
        &j,
        InstallState::Patching,
        InstallEvent::ToolExited { success: false },
    );
    assert_eq!(s, InstallState::Restoring);
    assert_eq!(
        a,
        InstallAction::RestoreBackup {
            from: String::from("data.win.bak"),
            to: String::from("data.win"),
        }
    );
    let (s, a) = install_step(&j, s, InstallEvent::Restored);
    assert_eq!(s, InstallState::Failed { error: InstallError::ExternalTool });
    assert_eq!(a, InstallAction::Report { error: InstallError::ExternalTool });
}

#[test]
fn first_matching_file_wins() {
    let entries = vec![
        entry("a/one.txt", true),
        entry("a/first.xdelta", true),
        entry("a/second.xdelta", true),
    ];
    assert_eq!(
        find_first_with_extension(&entries, "xdelta"),
        Some(String::from("a/first.xdelta"))
    );
}

#[test]
fn directories_never_match_even_with_the_extension() {
    let entries = vec![entry("a/dir.xdelta", false), entry("a/real.xdelta", true)];
    assert_eq!(
        find_first_with_extension(&entries, "xdelta"),
        Some(String::from("a/real.xdelta"))
    );
}

#[test]
fn no_matching_file_yields_nothing() {
    let entries = vec![entry("a/one.txt", true), entry("a/two.zip", true)];
    assert_eq!(find_first_with_extension(&entries, "xdelta"), None);
}
