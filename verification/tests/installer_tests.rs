use std::collections::HashMap;
use wab2b_helper::hash::{assess_integrity, calculate_sha256, Integrity};
use wab2b_helper::installer::{
    backup_directory, backup_file_name, failure_of, next_action, script_file_name, strategy_for,
    update_script, InstallAction, InstallError, InstallEvent, InstallStage, Installer,
    IntegrityLedger, ReplaceStrategy, EXECUTABLE_MODE,
};
use wab2b_helper::platform::Os;

const EXE: &str = "/opt/app/helper";
const BACKUP: &str = "/opt/app/backups/helper.1700000000.bak";
const UPDATE: &str = "/tmp/helper-new";

fn disk() -> HashMap<String, Vec<u8>> {
    let mut files = HashMap::new();
    files.insert(EXE.to_string(), b"old version".to_vec());
    files.insert(UPDATE.to_string(), b"new version".to_vec());
    files
}

fn copy(files: &mut HashMap<String, Vec<u8>>, from: &str, to: &str) {
    let bytes = files.get(from).unwrap().clone();
    files.insert(to.to_string(), bytes);
}

fn perform(files: &mut HashMap<String, Vec<u8>>, action: InstallAction, failing: &[InstallAction]) -> InstallEvent {
    if failing.contains(&action) {
        return failure_of(action, "disk says no");
    }
    match action {
        InstallAction::BackUp => copy(files, EXE, BACKUP),
        InstallAction::CopyArtifact => copy(files, UPDATE, EXE),
        InstallAction::RestoreBackup => copy(files, BACKUP, EXE),
        _ => {}
    }
    InstallEvent::Succeeded
}

fn install(
    strategy: ReplaceStrategy,
    files: &mut HashMap<String, Vec<u8>>,
    failing: &[InstallAction],
) -> (Result<bool, InstallError>, Vec<InstallAction>) {
    let mut installer = Installer::begin(strategy, Integrity::Verified).unwrap();
    let mut done = Vec::new();
    while let Some(action) = installer.pending() {
        done.push(action);
        let event = perform(files, action, failing);
        installer = installer.advance(event);
    }
    (installer.outcome().unwrap(), done)
}

#[test]
fn strategy_goes_by_the_system() {
    assert_eq!(strategy_for(Os::Windows), ReplaceStrategy::DeferredScript);
    assert_eq!(strategy_for(Os::MacOs), ReplaceStrategy::Direct);
    assert_eq!(strategy_for(Os::Linux), ReplaceStrategy::Direct);
    assert_eq!(strategy_for(Os::Other), ReplaceStrategy::Direct);
    assert_eq!(EXECUTABLE_MODE, 0o755);
    assert_eq!(EXECUTABLE_MODE, 493);
}

#[test]
fn backup_is_named_by_file_and_time() {
    assert_eq!(backup_file_name("helper.exe", 1700000000), "helper.exe.1700000000.bak");
    assert_eq!(backup_file_name("helper", 0), "helper.0.bak");
    assert_eq!(
        backup_file_name("a b", u64::MAX),
        format!("a b.{}.bak", u64::MAX)
    );
    assert_eq!(backup_directory(), "backups");
}

#[test]
fn helper_script_waits_copies_starts_and_deletes_itself() {
    let script = update_script("helper.exe", "C:\\Temp\\new.exe", "C:\\App\\helper.exe");
    let expected = format!(
        "@echo off\n\
         :wait\n\
         timeout /t 1 /nobreak > nul\n\
         tasklist /fi \"imagename eq {}\" | find /i \"{}\" > nul\n\
         if not errorlevel 1 goto wait\n\
         copy /y \"{}\" \"{}\"\n\
         start \"\" \"{}\"\n\
         del \"%~f0\"\n",
        "helper.exe", "helper.exe", "C:\\Temp\\new.exe", "C:\\App\\helper.exe", "C:\\App\\helper.exe"
    );
    assert_eq!(script, expected);
    assert_eq!(script.lines().count(), 8);
    assert_eq!(script_file_name(), "update.bat");
}

#[test]
fn only_a_verified_update_is_installed() {
    assert!(Installer::begin(ReplaceStrategy::Direct, Integrity::Verified).is_ok());
    assert_eq!(
        Installer::begin(ReplaceStrategy::Direct, Integrity::Mismatch).err(),
        Some(InstallError::HashMismatch)
    );
    assert_eq!(
        Installer::begin(ReplaceStrategy::DeferredScript, Integrity::Unavailable).err(),
        Some(InstallError::VerificationUnavailable)
    );
    assert_eq!(
        InstallError::HashMismatch.message(),
        "Update file does not match its declared SHA-256 hash"
    );
    assert_eq!(
        InstallError::VerificationUnavailable.message(),
        "Update file cannot be verified: the release declares no SHA-256 hash for it"
    );
}

#[test]
fn a_downloaded_update_is_admitted_by_its_digest() {
    let update = b"new version";
    let declared = calculate_sha256(update);
    let judged = assess_integrity(&calculate_sha256(update), &declared).unwrap();
    assert!(Installer::begin(ReplaceStrategy::Direct, judged).is_ok());
    let tampered = assess_integrity(&calculate_sha256(b"other bytes"), &declared).unwrap();
    assert_eq!(
        Installer::begin(ReplaceStrategy::Direct, tampered).err(),
        Some(InstallError::HashMismatch)
    );
    let undeclared = assess_integrity(&calculate_sha256(update), "").unwrap();
    assert_eq!(
        Installer::begin(ReplaceStrategy::Direct, undeclared).err(),
        Some(InstallError::VerificationUnavailable)
    );
}

#[test]
fn direct_installation_runs_its_steps_in_order() {
    let mut files = disk();
    let (outcome, done) = install(ReplaceStrategy::Direct, &mut files, &[]);
    assert_eq!(outcome, Ok(true));
    assert_eq!(
        done,
        vec![
            InstallAction::BackUp,
            InstallAction::CopyArtifact,
            InstallAction::ReadPermissions,
            InstallAction::SetPermissions,
            InstallAction::Relaunch,
            InstallAction::Exit,
        ]
    );
    assert_eq!(files[EXE], b"new version");
    assert_eq!(files[BACKUP], b"old version");
}

#[test]
fn deferred_installation_leaves_the_copy_to_the_script() {
    let mut files = disk();
    let (outcome, done) = install(ReplaceStrategy::DeferredScript, &mut files, &[]);
    assert_eq!(outcome, Ok(true));
    assert_eq!(
        done,
        vec![
            InstallAction::BackUp,
            InstallAction::WriteScript,
            InstallAction::LaunchScript,
            InstallAction::Exit,
        ]
    );
    assert_eq!(files[EXE], b"old version");
    assert_eq!(files[BACKUP], b"old version");
}

#[test]
fn stages_follow_the_steps() {
    let mut installer = Installer::begin(ReplaceStrategy::Direct, Integrity::Verified).unwrap();
    assert_eq!(installer.strategy(), ReplaceStrategy::Direct);
    let mut stages = vec![installer.stage()];
    while installer.pending().is_some() {
        assert_eq!(installer.outcome(), None);
        installer = installer.advance(InstallEvent::Succeeded);
        stages.push(installer.stage());
    }
    assert_eq!(
        stages,
        vec![
            InstallStage::Start,
            InstallStage::BackedUp,
            InstallStage::Replaced,
            InstallStage::Replaced,
            InstallStage::Restarting,
            InstallStage::Restarting,
            InstallStage::Done,
        ]
    );
    assert_eq!(installer.outcome(), Some(Ok(true)));
}

#[test]
fn a_failed_backup_changes_nothing() {
    for strategy in [ReplaceStrategy::Direct, ReplaceStrategy::DeferredScript] {
        let mut files = disk();
        let (outcome, done) = install(strategy, &mut files, &[InstallAction::BackUp]);
        assert_eq!(
            outcome,
            Err(InstallError::BackupFailed {
                reason: "Failed to create backup: disk says no".to_string()
            })
        );
        assert_eq!(done, vec![InstallAction::BackUp]);
        assert_eq!(files, disk());
    }
}

#[test]
fn a_failed_replacement_restores_the_original_bytes() {
    let mut files = disk();
    let (outcome, done) = install(ReplaceStrategy::Direct, &mut files, &[InstallAction::SetPermissions]);
    assert_eq!(
        done,
        vec![
            InstallAction::BackUp,
            InstallAction::CopyArtifact,
            InstallAction::ReadPermissions,
            InstallAction::SetPermissions,
            InstallAction::RestoreBackup,
        ]
    );
    assert_eq!(files[EXE], b"old version");
    let error = outcome.unwrap_err();
    assert_eq!(
        error,
        InstallError::InstallFailure {
            cause: "Failed to set file permissions: disk says no".to_string()
        }
    );
    assert_eq!(
        error.message(),
        "Update failed, restored from backup: Failed to set file permissions: disk says no"
    );
}

#[test]
fn each_failed_replacement_step_is_rolled_back_once() {
    let cases = [
        (ReplaceStrategy::Direct, InstallAction::CopyArtifact, "Failed to replace application: disk says no"),
        (ReplaceStrategy::Direct, InstallAction::ReadPermissions, "Failed to get file permissions: disk says no"),
        (ReplaceStrategy::Direct, InstallAction::SetPermissions, "Failed to set file permissions: disk says no"),
        (ReplaceStrategy::DeferredScript, InstallAction::WriteScript, "Failed to write update script: disk says no"),
        (ReplaceStrategy::DeferredScript, InstallAction::LaunchScript, "Failed to start update script: disk says no"),
    ];
    for (strategy, failing, cause) in cases {
        let mut files = disk();
        let (outcome, done) = install(strategy, &mut files, &[failing]);
        assert_eq!(outcome, Err(InstallError::InstallFailure { cause: cause.to_string() }));
        assert_eq!(done.iter().filter(|a| **a == InstallAction::RestoreBackup).count(), 1);
        assert_eq!(done.last(), Some(&InstallAction::RestoreBackup));
        assert_eq!(done[done.len() - 2], failing);
        assert_eq!(files[EXE], b"old version");
    }
}

#[test]
fn a_failed_restoration_is_reported_with_both_reasons() {
    let mut files = disk();
    let (outcome, done) = install(
        ReplaceStrategy::Direct,
        &mut files,
        &[InstallAction::ReadPermissions, InstallAction::RestoreBackup],
    );
    assert_eq!(done.last(), Some(&InstallAction::RestoreBackup));
    assert_eq!(done.iter().filter(|a| **a == InstallAction::RestoreBackup).count(), 1);
    let error = outcome.unwrap_err();
    assert_eq!(
        error,
        InstallError::CompoundFailure {
            cause: "Failed to get file permissions: disk says no".to_string(),
            restore_error: "disk says no".to_string(),
        }
    );
    let message = error.message();
    assert_eq!(
        message,
        "Update failed and backup restoration also failed: Failed to get file permissions: disk says no (Backup error: disk says no)"
    );
    assert!(message.contains("Failed to get file permissions: disk says no"));
    assert!(message.contains("Backup error: disk says no"));
    assert_eq!(files[EXE], b"new version");
}

#[test]
fn a_failed_restart_is_not_rolled_back() {
    let mut files = disk();
    let (outcome, done) = install(ReplaceStrategy::Direct, &mut files, &[InstallAction::Relaunch]);
    assert_eq!(
        outcome,
        Err(InstallError::RestartFailed {
            reason: "Failed to restart application: disk says no".to_string()
        })
    );
    assert_eq!(done.last(), Some(&InstallAction::Relaunch));
    assert_eq!(files[EXE], b"new version");
}

#[test]
fn an_ended_installation_stays_as_it_is() {
    let mut installer = Installer::begin(ReplaceStrategy::DeferredScript, Integrity::Verified).unwrap();
    installer = installer.advance(InstallEvent::Failed("no space".to_string()));
    assert_eq!(installer.stage(), InstallStage::Failed);
    let error = Err(InstallError::BackupFailed { reason: "no space".to_string() });
    assert_eq!(installer.outcome(), Some(error.clone()));
    installer = installer.advance(InstallEvent::Succeeded);
    installer = installer.advance(InstallEvent::Failed("again".to_string()));
    assert_eq!(installer.outcome(), Some(error));
    assert_eq!(installer.pending(), None);

    let mut finished = Installer::begin(ReplaceStrategy::DeferredScript, Integrity::Verified).unwrap();
    for _ in 0..4 {
        finished = finished.advance(InstallEvent::Succeeded);
    }
    assert_eq!(finished.stage(), InstallStage::Done);
    finished = finished.advance(InstallEvent::Failed("late".to_string()));
    assert_eq!(finished.outcome(), Some(Ok(true)));
}

#[test]
fn rolling_back_is_a_stage_of_its_own() {
    let mut installer = Installer::begin(ReplaceStrategy::Direct, Integrity::Verified).unwrap();
    installer = installer.advance(InstallEvent::Succeeded);
    installer = installer.advance(failure_of(InstallAction::CopyArtifact, "busy"));
    assert_eq!(installer.stage(), InstallStage::RolledBack);
    assert_eq!(installer.pending(), Some(InstallAction::RestoreBackup));
    assert_eq!(installer.outcome(), None);
}

#[test]
fn steps_follow_one_another_by_strategy() {
    assert_eq!(next_action(ReplaceStrategy::Direct, InstallAction::BackUp), Some(InstallAction::CopyArtifact));
    assert_eq!(next_action(ReplaceStrategy::Direct, InstallAction::Exit), None);
    assert_eq!(next_action(ReplaceStrategy::Direct, InstallAction::WriteScript), None);
    assert_eq!(next_action(ReplaceStrategy::Direct, InstallAction::RestoreBackup), None);
    assert_eq!(
        next_action(ReplaceStrategy::DeferredScript, InstallAction::BackUp),
        Some(InstallAction::WriteScript)
    );
    assert_eq!(
        next_action(ReplaceStrategy::DeferredScript, InstallAction::LaunchScript),
        Some(InstallAction::Exit)
    );
    assert_eq!(next_action(ReplaceStrategy::DeferredScript, InstallAction::CopyArtifact), None);
}

#[test]
fn failures_are_reported_by_what_the_step_was_about() {
    assert_eq!(
        failure_of(InstallAction::BackUp, "e"),
        InstallEvent::Failed("Failed to create backup: e".to_string())
    );
    assert_eq!(failure_of(InstallAction::RestoreBackup, "e"), InstallEvent::Failed("e".to_string()));
    assert_eq!(
        failure_of(InstallAction::Exit, ""),
        InstallEvent::Failed("Failed to restart application: ".to_string())
    );
}

#[test]
fn the_ledger_admits_what_was_verified_last() {
    let mut ledger = IntegrityLedger::new();
    assert_eq!(ledger.verdict("/tmp/a"), Integrity::Unavailable);
    assert_eq!(
        ledger.begin_install(ReplaceStrategy::Direct, "/tmp/a").err(),
        Some(InstallError::VerificationUnavailable)
    );
    ledger.record("/tmp/a", Integrity::Mismatch);
    ledger.record("/tmp/b", Integrity::Verified);
    assert_eq!(ledger.verdict("/tmp/a"), Integrity::Mismatch);
    assert_eq!(ledger.verdict("/tmp/b"), Integrity::Verified);
    assert_eq!(ledger.verdict("/tmp/c"), Integrity::Unavailable);
    assert_eq!(
        ledger.begin_install(ReplaceStrategy::Direct, "/tmp/a").err(),
        Some(InstallError::HashMismatch)
    );
    let installer = ledger.begin_install(ReplaceStrategy::DeferredScript, "/tmp/b").unwrap();
    assert_eq!(installer.strategy(), ReplaceStrategy::DeferredScript);
    assert_eq!(installer.pending(), Some(InstallAction::BackUp));
    ledger.record("/tmp/a", Integrity::Verified);
    ledger.record("/tmp/b", Integrity::Unavailable);
    assert!(ledger.begin_install(ReplaceStrategy::Direct, "/tmp/a").is_ok());
    assert_eq!(
        ledger.begin_install(ReplaceStrategy::Direct, "/tmp/b").err(),
        Some(InstallError::VerificationUnavailable)
    );
}
