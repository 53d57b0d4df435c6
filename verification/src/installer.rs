//! The installer and its rollback: which step comes next, what a failure
//! leads to, and the texts that the steps need. The steps themselves touch
//! the disk and the process table and are carried out by the caller, who
//! reports how each one went.

use crate::hash::Integrity;
use crate::platform::Os;
use crate::text::{
    chars_of, contains, decimal, occurs_at, push_chars, push_decimal, same_chars,
};
use vstd::prelude::*;

verus! {

/// How the running executable is replaced.
#[derive(Debug, Clone, Copy, PartialEq, Eq, Structural)]
pub enum ReplaceStrategy {
    /// The system does not let a running executable be overwritten: a helper
    /// script waits for the process to end, copies the update over the
    /// executable and starts it again.
    DeferredScript,
    /// The update is copied over the executable while it runs.
    Direct,
}

/// The strategy for the operating system: the helper script on Windows, the
/// direct copy everywhere else.
pub fn strategy_for(os: Os) -> (strategy: ReplaceStrategy)
    ensures
        strategy == (if os == Os::Windows {
            ReplaceStrategy::DeferredScript
        } else {
            ReplaceStrategy::Direct
        }),
{
    match os {
        Os::Windows => ReplaceStrategy::DeferredScript,
        _ => ReplaceStrategy::Direct,
    }
}

/// One step of an installation, for the caller to carry out.
#[derive(Debug, Clone, Copy, PartialEq, Eq, Structural)]
pub enum InstallAction {
    /// Copy the current executable to the backup path, after creating the
    /// backup directory if it is missing.
    BackUp,
    /// Copy the update over the current executable.
    CopyArtifact,
    /// Read the permissions of the replaced executable.
    ReadPermissions,
    /// Set the permissions of the replaced executable to `EXECUTABLE_MODE`.
    SetPermissions,
    /// Write the helper script beside the executable.
    WriteScript,
    /// Start the helper script as a process of its own.
    LaunchScript,
    /// Copy the backup back over the current executable.
    RestoreBackup,
    /// Start a new process from the replaced executable.
    Relaunch,
    /// End the current process with exit code 0.
    Exit,
}

/// The permission bits of an installed executable: read and execute for
/// everyone, write for the owner.
pub const EXECUTABLE_MODE: u32 = 0o755;

/// How a step went.
#[derive(Debug, PartialEq, Eq)]
pub enum InstallEvent {
    Succeeded,
    /// The step failed; the text says why.
    Failed(String),
}

/// How a step went, as a mathematical value.
pub enum EventView {
    Succeeded,
    Failed(Seq<char>),
}

impl View for InstallEvent {
    type V = EventView;

    open spec fn view(&self) -> EventView {
        match self {
            InstallEvent::Succeeded => EventView::Succeeded,
            InstallEvent::Failed(why) => EventView::Failed(why@),
        }
    }
}

/// Why an installation did not take place or did not succeed.
#[derive(Debug, PartialEq, Eq)]
pub enum InstallError {
    /// The update's digest differs from the digest that the release declares.
    HashMismatch,
    /// The release declares no digest for the update, so it cannot be
    /// verified and is not installed.
    VerificationUnavailable,
    /// The backup could not be made. Nothing on disk has changed.
    BackupFailed { reason: String },
    /// The executable could not be replaced. It was restored from the backup.
    InstallFailure { cause: String },
    /// The executable could not be replaced, and it could not be restored
    /// from the backup either.
    CompoundFailure { cause: String, restore_error: String },
    /// The executable was replaced, but the application did not start again.
    RestartFailed { reason: String },
}

/// An `InstallError` as a mathematical value.
pub enum ErrorView {
    HashMismatch,
    VerificationUnavailable,
    BackupFailed { reason: Seq<char> },
    InstallFailure { cause: Seq<char> },
    CompoundFailure { cause: Seq<char>, restore_error: Seq<char> },
    RestartFailed { reason: Seq<char> },
}

impl View for InstallError {
    type V = ErrorView;

    open spec fn view(&self) -> ErrorView {
        match self {
            InstallError::HashMismatch => ErrorView::HashMismatch,
            InstallError::VerificationUnavailable => ErrorView::VerificationUnavailable,
            InstallError::BackupFailed { reason } => ErrorView::BackupFailed { reason: reason@ },
            InstallError::InstallFailure { cause } => ErrorView::InstallFailure { cause: cause@ },
            InstallError::CompoundFailure { cause, restore_error } => ErrorView::CompoundFailure {
                cause: cause@,
                restore_error: restore_error@,
            },
            InstallError::RestartFailed { reason } => ErrorView::RestartFailed { reason: reason@ },
        }
    }
}

impl Clone for InstallError {
    fn clone(&self) -> (copy: Self)
        ensures
            copy@ == self@,
    {
        match self {
            InstallError::HashMismatch => InstallError::HashMismatch,
            InstallError::VerificationUnavailable => InstallError::VerificationUnavailable,
            InstallError::BackupFailed { reason } => InstallError::BackupFailed {
                reason: reason.clone(),
            },
            InstallError::InstallFailure { cause } => InstallError::InstallFailure {
                cause: cause.clone(),
            },
            InstallError::CompoundFailure { cause, restore_error } => {
                InstallError::CompoundFailure {
                    cause: cause.clone(),
                    restore_error: restore_error.clone(),
                }
            },
            InstallError::RestartFailed { reason } => InstallError::RestartFailed {
                reason: reason.clone(),
            },
        }
    }
}

impl ErrorView {
    /// The text that the user is shown for the error.
    pub open spec fn text(self) -> Seq<char> {
        match self {
            ErrorView::HashMismatch => "Update file does not match its declared SHA-256 hash"@,
            ErrorView::VerificationUnavailable =>
                "Update file cannot be verified: the release declares no SHA-256 hash for it"@,
            ErrorView::BackupFailed { reason } => reason,
            ErrorView::InstallFailure { cause } => "Update failed, restored from backup: "@ + cause,
            ErrorView::CompoundFailure { cause, restore_error } =>
                "Update failed and backup restoration also failed: "@ + cause
                + " (Backup error: "@ + restore_error + ")"@,
            ErrorView::RestartFailed { reason } => reason,
        }
    }
}

impl InstallError {
    /// The text that the user is shown for the error. For a failure of both
    /// the replacement and the restoration it holds both reasons.
    pub fn message(&self) -> (message: String)
        ensures
            message@ == self@.text(),
    {
        let mut message = String::new();
        match self {
            InstallError::HashMismatch => {
                push_chars(
                    &mut message,
                    &chars_of("Update file does not match its declared SHA-256 hash"),
                );
            },
            InstallError::VerificationUnavailable => {
                push_chars(
                    &mut message,
                    &chars_of(
                        "Update file cannot be verified: the release declares no SHA-256 hash for it",
                    ),
                );
            },
            InstallError::BackupFailed { reason } => {
                push_chars(&mut message, &chars_of(reason.as_str()));
            },
            InstallError::InstallFailure { cause } => {
                push_chars(&mut message, &chars_of("Update failed, restored from backup: "));
                push_chars(&mut message, &chars_of(cause.as_str()));
            },
            InstallError::CompoundFailure { cause, restore_error } => {
                push_chars(
                    &mut message,
                    &chars_of("Update failed and backup restoration also failed: "),
                );
                push_chars(&mut message, &chars_of(cause.as_str()));
                push_chars(&mut message, &chars_of(" (Backup error: "));
                push_chars(&mut message, &chars_of(restore_error.as_str()));
                push_chars(&mut message, &chars_of(")"));
            },
            InstallError::RestartFailed { reason } => {
                push_chars(&mut message, &chars_of(reason.as_str()));
            },
        }
        message
    }
}

/// Where an installation stands.
#[derive(Debug, PartialEq, Eq)]
pub enum InstallState {
    /// The caller carries out `action`; its outcome is awaited.
    Awaiting { action: InstallAction },
    /// The replacement failed for the reason `cause`; the caller restores the
    /// backup, and the outcome of that is awaited.
    RollingBack { cause: String },
    /// The update is installed and the process is ending.
    Done,
    /// The installation has failed.
    Failed { error: InstallError },
}

/// An `InstallState` as a mathematical value.
pub enum StateView {
    Awaiting { action: InstallAction },
    RollingBack { cause: Seq<char> },
    Done,
    Failed { error: ErrorView },
}

impl View for InstallState {
    type V = StateView;

    open spec fn view(&self) -> StateView {
        match self {
            InstallState::Awaiting { action } => StateView::Awaiting { action: *action },
            InstallState::RollingBack { cause } => StateView::RollingBack { cause: cause@ },
            InstallState::Done => StateView::Done,
            InstallState::Failed { error } => StateView::Failed { error: error@ },
        }
    }
}

/// The stages that an installation passes through.
#[derive(Debug, Clone, Copy, PartialEq, Eq, Structural)]
pub enum InstallStage {
    /// Nothing has been done; the backup is being made.
    Start,
    /// The backup exists; the executable has not been touched.
    BackedUp,
    /// The update stands in the executable's place and is being made
    /// executable. With the helper script the update takes that place only
    /// after the process has ended, so such an installation is never seen
    /// in this stage.
    Replaced,
    /// The replacement is complete; the application is starting again.
    Restarting,
    Done,
    /// The replacement failed; the backup is being restored.
    RolledBack,
    Failed,
}

/// The step that follows `action` when it has succeeded, if any.
pub open spec fn following(strategy: ReplaceStrategy, action: InstallAction) -> Option<
    InstallAction,
> {
    match strategy {
        ReplaceStrategy::Direct => match action {
            InstallAction::BackUp => Some(InstallAction::CopyArtifact),
            InstallAction::CopyArtifact => Some(InstallAction::ReadPermissions),
            InstallAction::ReadPermissions => Some(InstallAction::SetPermissions),
            InstallAction::SetPermissions => Some(InstallAction::Relaunch),
            InstallAction::Relaunch => Some(InstallAction::Exit),
            _ => None,
        },
        ReplaceStrategy::DeferredScript => match action {
            InstallAction::BackUp => Some(InstallAction::WriteScript),
            InstallAction::WriteScript => Some(InstallAction::LaunchScript),
            InstallAction::LaunchScript => Some(InstallAction::Exit),
            _ => None,
        },
    }
}

/// The step belongs to the replacement of the executable.
pub open spec fn is_replace_step(action: InstallAction) -> bool {
    action == InstallAction::CopyArtifact || action == InstallAction::ReadPermissions || action
        == InstallAction::SetPermissions || action == InstallAction::WriteScript || action
        == InstallAction::LaunchScript
}

/// The step writes to the live executable, or sets going what will.
pub open spec fn touches_executable(action: InstallAction) -> bool {
    is_replace_step(action) || action == InstallAction::RestoreBackup
}

/// The state in which an installation begins.
pub open spec fn initial_state() -> StateView {
    StateView::Awaiting { action: InstallAction::BackUp }
}

/// The state that follows `state` when the awaited step went as `event` says.
///
/// A failed backup ends the installation. A failed step of the replacement
/// leads to one restoration of the backup, whose outcome ends the
/// installation either way. A failed restart ends it too. The states `Done`
/// and `Failed` are final.
pub open spec fn next_state(strategy: ReplaceStrategy, state: StateView, event: EventView) -> StateView {
    match state {
        StateView::Awaiting { action } => match event {
            EventView::Succeeded => match following(strategy, action) {
                Some(next) => StateView::Awaiting { action: next },
                None => StateView::Done,
            },
            EventView::Failed(why) => if action == InstallAction::BackUp {
                StateView::Failed { error: ErrorView::BackupFailed { reason: why } }
            } else if is_replace_step(action) {
                StateView::RollingBack { cause: why }
            } else {
                StateView::Failed { error: ErrorView::RestartFailed { reason: why } }
            },
        },
        StateView::RollingBack { cause } => match event {
            EventView::Succeeded => StateView::Failed {
                error: ErrorView::InstallFailure { cause },
            },
            EventView::Failed(why) => StateView::Failed {
                error: ErrorView::CompoundFailure { cause, restore_error: why },
            },
        },
        StateView::Done => StateView::Done,
        StateView::Failed { error } => StateView::Failed { error },
    }
}

/// The step whose outcome is awaited in `state`, if any.
pub open spec fn pending_action(state: StateView) -> Option<InstallAction> {
    match state {
        StateView::Awaiting { action } => Some(action),
        StateView::RollingBack { .. } => Some(InstallAction::RestoreBackup),
        _ => None,
    }
}

/// The installation has ended.
pub open spec fn is_final(state: StateView) -> bool {
    state is Done || state is Failed
}

/// The stage that `state` belongs to.
pub open spec fn stage_of(state: StateView) -> InstallStage {
    match state {
        StateView::Awaiting { action } => match action {
            InstallAction::BackUp => InstallStage::Start,
            InstallAction::CopyArtifact => InstallStage::BackedUp,
            InstallAction::WriteScript => InstallStage::BackedUp,
            InstallAction::LaunchScript => InstallStage::BackedUp,
            InstallAction::ReadPermissions => InstallStage::Replaced,
            InstallAction::SetPermissions => InstallStage::Replaced,
            InstallAction::RestoreBackup => InstallStage::RolledBack,
            InstallAction::Relaunch => InstallStage::Restarting,
            InstallAction::Exit => InstallStage::Restarting,
        },
        StateView::RollingBack { .. } => InstallStage::RolledBack,
        StateView::Done => InstallStage::Done,
        StateView::Failed { .. } => InstallStage::Failed,
    }
}

/// The state after the steps went as `events` say, one after the other.
pub open spec fn run(strategy: ReplaceStrategy, events: Seq<EventView>) -> StateView
    decreases events.len(),
{
    if events.len() == 0 {
        initial_state()
    } else {
        next_state(strategy, run(strategy, events.drop_last()), events.last())
    }
}

/// What an installation has come to, once it has ended.
pub open spec fn outcome_of(state: StateView) -> Option<Result<bool, ErrorView>> {
    match state {
        StateView::Done => Some(Ok(true)),
        StateView::Failed { error } => Some(Err(error)),
        _ => None,
    }
}

/// The verdict that the integrity check passes on an installation.
pub open spec fn admission(integrity: Integrity) -> Option<ErrorView> {
    match integrity {
        Integrity::Verified => None,
        Integrity::Mismatch => Some(ErrorView::HashMismatch),
        Integrity::Unavailable => Some(ErrorView::VerificationUnavailable),
    }
}

/// An installation in progress: its strategy, its state, and the events
/// that have led to the state.
pub struct Installer {
    strategy: ReplaceStrategy,
    state: InstallState,
    events: Ghost<Seq<EventView>>,
}

impl Installer {
    /// The state is the one that the events so far lead to.
    #[verifier::type_invariant]
    spec fn follows_its_events(self) -> bool {
        self.state@ == run(self.strategy, self.events@)
    }

    /// The strategy of the installation.
    pub closed spec fn strategy_view(self) -> ReplaceStrategy {
        self.strategy
    }

    /// How the steps so far went, in order.
    pub closed spec fn events_view(self) -> Seq<EventView> {
        self.events@
    }

    /// The state of the installation.
    pub closed spec fn state_view(self) -> StateView {
        self.state@
    }

    /// Begins an installation of an update whose integrity has been judged.
    /// Only a verified update is admitted; then the first step is the backup.
    pub fn begin(strategy: ReplaceStrategy, integrity: Integrity) -> (begun: Result<
        Installer,
        InstallError,
    >)
        ensures
            match admission(integrity) {
                Some(error) => begun is Err && begun->Err_0@ == error,
                None => begun is Ok && begun->Ok_0.strategy_view() == strategy
                    && begun->Ok_0.state_view() == initial_state()
                    && begun->Ok_0.events_view() == Seq::<EventView>::empty(),
            },
    {
        match integrity {
            Integrity::Verified => Ok(
                Installer {
                    strategy,
                    state: InstallState::Awaiting { action: InstallAction::BackUp },
                    events: Ghost(Seq::empty()),
                },
            ),
            Integrity::Mismatch => Err(InstallError::HashMismatch),
            Integrity::Unavailable => Err(InstallError::VerificationUnavailable),
        }
    }

    /// The strategy of the installation.
    pub fn strategy(&self) -> (strategy: ReplaceStrategy)
        ensures
            strategy == self.strategy_view(),
    {
        self.strategy
    }

    /// The step that the caller is to carry out now; none once the
    /// installation has ended.
    ///
    /// The state is the one that the events so far lead to; so a step that
    /// touches the executable is only ever handed out after the backup, the
    /// first step, has succeeded.
    pub fn pending(&self) -> (action: Option<InstallAction>)
        ensures
            action == pending_action(self.state_view()),
            self.state_view() == run(self.strategy_view(), self.events_view()),
            action is Some && touches_executable(action->0) ==> self.events_view().len() > 0
                && self.events_view()[0] is Succeeded,
    {
        proof {
            use_type_invariant(self);
            if pending_action(self.state@) is Some && touches_executable(
                pending_action(self.state@)->0,
            ) {
                lemma_backup_precedes_mutation(self.strategy, self.events@);
            }
        }
        match &self.state {
            InstallState::Awaiting { action } => Some(*action),
            InstallState::RollingBack { .. } => Some(InstallAction::RestoreBackup),
            _ => None,
        }
    }

    /// The stage of the installation.
    pub fn stage(&self) -> (stage: InstallStage)
        ensures
            stage == stage_of(self.state_view()),
    {
        match &self.state {
            InstallState::Awaiting { action } => match action {
                InstallAction::BackUp => InstallStage::Start,
                InstallAction::CopyArtifact => InstallStage::BackedUp,
                InstallAction::WriteScript => InstallStage::BackedUp,
                InstallAction::LaunchScript => InstallStage::BackedUp,
                InstallAction::ReadPermissions => InstallStage::Replaced,
                InstallAction::SetPermissions => InstallStage::Replaced,
                InstallAction::RestoreBackup => InstallStage::RolledBack,
                InstallAction::Relaunch => InstallStage::Restarting,
                InstallAction::Exit => InstallStage::Restarting,
            },
            InstallState::RollingBack { .. } => InstallStage::RolledBack,
            InstallState::Done => InstallStage::Done,
            InstallState::Failed { .. } => InstallStage::Failed,
        }
    }

    /// What the installation has come to: `Ok(true)` when the update is
    /// installed, the error when it has failed, nothing while it goes on.
    pub fn outcome(&self) -> (outcome: Option<Result<bool, InstallError>>)
        ensures
            match outcome_of(self.state_view()) {
                Some(Ok(done)) => outcome == Some(Ok::<bool, InstallError>(done)),
                Some(Err(error)) => outcome is Some && outcome->0 is Err
                    && outcome->0->Err_0@ == error,
                None => outcome is None,
            },
    {
        match &self.state {
            InstallState::Done => Some(Ok(true)),
            InstallState::Failed { error } => Some(Err(error.clone())),
            _ => None,
        }
    }

    /// Takes note of how the pending step went and moves on.
    pub fn advance(self, event: InstallEvent) -> (next: Installer)
        ensures
            next.strategy_view() == self.strategy_view(),
            next.state_view() == next_state(self.strategy_view(), self.state_view(), event@),
            next.events_view() == self.events_view().push(event@),
    {
        let ghost before = self.events@;
        let ghost seen = before.push(event@);
        proof {
            use_type_invariant(&self);
            assert(seen.drop_last() =~= before);
        }
        let strategy = self.strategy;
        let state = match self.state {
            InstallState::Awaiting { action } => match event {
                InstallEvent::Succeeded => match next_action(strategy, action) {
                    Some(next) => InstallState::Awaiting { action: next },
                    None => InstallState::Done,
                },
                InstallEvent::Failed(why) => match action {
                    InstallAction::BackUp => InstallState::Failed {
                        error: InstallError::BackupFailed { reason: why },
                    },
                    InstallAction::CopyArtifact
                    | InstallAction::ReadPermissions
                    | InstallAction::SetPermissions
                    | InstallAction::WriteScript
                    | InstallAction::LaunchScript => InstallState::RollingBack { cause: why },
                    _ => InstallState::Failed {
                        error: InstallError::RestartFailed { reason: why },
                    },
                },
            },
            InstallState::RollingBack { cause } => match event {
                InstallEvent::Succeeded => InstallState::Failed {
                    error: InstallError::InstallFailure { cause },
                },
                InstallEvent::Failed(why) => InstallState::Failed {
                    error: InstallError::CompoundFailure { cause, restore_error: why },
                },
            },
            InstallState::Done => InstallState::Done,
            InstallState::Failed { error } => InstallState::Failed { error },
        };
        Installer { strategy, state, events: Ghost(seen) }
    }
}

/// The step that follows `action` when it has succeeded.
pub fn next_action(strategy: ReplaceStrategy, action: InstallAction) -> (next: Option<
    InstallAction,
>)
    ensures
        next == following(strategy, action),
{
    match strategy {
        ReplaceStrategy::Direct => match action {
            InstallAction::BackUp => Some(InstallAction::CopyArtifact),
            InstallAction::CopyArtifact => Some(InstallAction::ReadPermissions),
            InstallAction::ReadPermissions => Some(InstallAction::SetPermissions),
            InstallAction::SetPermissions => Some(InstallAction::Relaunch),
            InstallAction::Relaunch => Some(InstallAction::Exit),
            _ => None,
        },
        ReplaceStrategy::DeferredScript => match action {
            InstallAction::BackUp => Some(InstallAction::WriteScript),
            InstallAction::WriteScript => Some(InstallAction::LaunchScript),
            InstallAction::LaunchScript => Some(InstallAction::Exit),
            _ => None,
        },
    }
}

/// The name of the backup of the executable `file_name`, made at
/// `unix_seconds`: the name, the time and `bak`, with dots between them.
pub open spec fn backup_name(file_name: Seq<char>, unix_seconds: nat) -> Seq<char> {
    file_name + seq!['.'] + decimal(unix_seconds) + ".bak"@
}

/// The name of the directory, beside the executable, that holds the backups.
pub open spec fn backup_dir_name() -> Seq<char> {
    "backups"@
}

/// The name of the directory, beside the executable, that holds the backups.
pub fn backup_directory() -> (name: String)
    ensures
        name@ == backup_dir_name(),
{
    "backups".to_owned()
}

/// The name of the backup of the executable `file_name`, made at `unix_seconds`.
pub fn backup_file_name(file_name: &str, unix_seconds: u64) -> (name: String)
    ensures
        name@ == backup_name(file_name@, unix_seconds as nat),
{
    let mut name = String::new();
    push_chars(&mut name, &chars_of(file_name));
    name.push('.');
    push_decimal(&mut name, unix_seconds as u128);
    push_chars(&mut name, &chars_of(".bak"));
    name
}

/// The name of the helper script, which stands beside the executable.
pub open spec fn script_name() -> Seq<char> {
    "update.bat"@
}

/// The name of the helper script.
pub fn script_file_name() -> (name: String)
    ensures
        name@ == script_name(),
{
    "update.bat".to_owned()
}

/// The helper script that replaces the executable `app_path`, whose file
/// name is `exe_name`, by `update_path`: once a second it looks for a
/// process of that name; when there is none left it copies the update over
/// the executable, starts it, and deletes itself.
pub open spec fn script_text(exe_name: Seq<char>, update_path: Seq<char>, app_path: Seq<char>) -> Seq<
    char,
> {
    "@echo off\n:wait\ntimeout /t 1 /nobreak > nul\ntasklist /fi \"imagename eq "@ + exe_name
        + "\" | find /i \""@ + exe_name + "\" > nul\nif not errorlevel 1 goto wait\ncopy /y \""@
        + update_path + "\" \""@ + app_path + "\"\nstart \"\" \""@ + app_path
        + "\"\ndel \"%~f0\"\n"@
}

/// The text of the helper script for the deferred replacement.
pub fn update_script(exe_name: &str, update_path: &str, app_path: &str) -> (script: String)
    ensures
        script@ == script_text(exe_name@, update_path@, app_path@),
{
    let name = chars_of(exe_name);
    let app = chars_of(app_path);
    let mut script = String::new();
    push_chars(
        &mut script,
        &chars_of(
            "@echo off\n:wait\ntimeout /t 1 /nobreak > nul\ntasklist /fi \"imagename eq ",
        ),
    );
    push_chars(&mut script, &name);
    push_chars(&mut script, &chars_of("\" | find /i \""));
    push_chars(&mut script, &name);
    push_chars(&mut script, &chars_of("\" > nul\nif not errorlevel 1 goto wait\ncopy /y \""));
    push_chars(&mut script, &chars_of(update_path));
    push_chars(&mut script, &chars_of("\" \""));
    push_chars(&mut script, &app);
    push_chars(&mut script, &chars_of("\"\nstart \"\" \""));
    push_chars(&mut script, &app);
    push_chars(&mut script, &chars_of("\"\ndel \"%~f0\"\n"));
    script
}

/// What a failed step is reported with: what the step was about, and the
/// reason that the system gave. The restoration is reported by its reason alone.
pub open spec fn failure_text(action: InstallAction, reason: Seq<char>) -> Seq<char> {
    match action {
        InstallAction::BackUp => "Failed to create backup: "@ + reason,
        InstallAction::CopyArtifact => "Failed to replace application: "@ + reason,
        InstallAction::ReadPermissions => "Failed to get file permissions: "@ + reason,
        InstallAction::SetPermissions => "Failed to set file permissions: "@ + reason,
        InstallAction::WriteScript => "Failed to write update script: "@ + reason,
        InstallAction::LaunchScript => "Failed to start update script: "@ + reason,
        InstallAction::RestoreBackup => reason,
        InstallAction::Relaunch => "Failed to restart application: "@ + reason,
        InstallAction::Exit => "Failed to restart application: "@ + reason,
    }
}

/// The event that reports the failure of `action` for the reason `reason`.
pub fn failure_of(action: InstallAction, reason: &str) -> (event: InstallEvent)
    ensures
        event@ == EventView::Failed(failure_text(action, reason@)),
{
    let prefix = match action {
        InstallAction::BackUp => "Failed to create backup: ",
        InstallAction::CopyArtifact => "Failed to replace application: ",
        InstallAction::ReadPermissions => "Failed to get file permissions: ",
        InstallAction::SetPermissions => "Failed to set file permissions: ",
        InstallAction::WriteScript => "Failed to write update script: ",
        InstallAction::LaunchScript => "Failed to start update script: ",
        InstallAction::RestoreBackup => "",
        InstallAction::Relaunch => "Failed to restart application: ",
        InstallAction::Exit => "Failed to restart application: ",
    };
    let mut text = String::new();
    if action != InstallAction::RestoreBackup {
        push_chars(&mut text, &chars_of(prefix));
    }
    push_chars(&mut text, &chars_of(reason));
    InstallEvent::Failed(text)
}


/// How many steps an installation in `state` can still take at most.
pub open spec fn steps_left(state: StateView) -> nat {
    match state {
        StateView::Awaiting { action } => match action {
            InstallAction::BackUp => 6,
            InstallAction::CopyArtifact => 5,
            InstallAction::WriteScript => 5,
            InstallAction::ReadPermissions => 4,
            InstallAction::LaunchScript => 4,
            InstallAction::SetPermissions => 3,
            InstallAction::Relaunch => 2,
            InstallAction::Exit => 1,
            InstallAction::RestoreBackup => 1,
        },
        StateView::RollingBack { .. } => 1,
        StateView::Done => 0,
        StateView::Failed { .. } => 0,
    }
}

/// An installation that has ended stays as it is, whatever is reported.
pub proof fn lemma_final_state_stays(strategy: ReplaceStrategy, state: StateView, event: EventView)
    requires
        is_final(state),
    ensures
        next_state(strategy, state, event) == state,
{
}

/// Every step brings an installation closer to its end.
pub proof fn lemma_step_makes_progress(
    strategy: ReplaceStrategy,
    state: StateView,
    event: EventView,
)
    requires
        !is_final(state),
    ensures
        steps_left(next_state(strategy, state, event)) < steps_left(state),
        is_final(state) <==> steps_left(state) == 0,
{
}

/// The restoration of the backup is attempted once and never again: whatever
/// its outcome, the installation has failed and has ended. When the
/// restoration failed too, the error holds both reasons.
pub proof fn lemma_rollback_ends_installation(
    strategy: ReplaceStrategy,
    cause: Seq<char>,
    event: EventView,
)
    ensures
        ({
            let after = next_state(strategy, StateView::RollingBack { cause }, event);
            &&& after is Failed
            &&& pending_action(after) is None
            &&& event is Succeeded ==> after->error == ErrorView::InstallFailure { cause }
            &&& event matches EventView::Failed(why) ==> after->error
                == ErrorView::CompoundFailure { cause, restore_error: why }
        }),
{
}

/// A step of the replacement that fails leads to the restoration of the
/// backup, and to nothing else; the reason is kept.
pub proof fn lemma_failed_replacement_rolls_back(
    strategy: ReplaceStrategy,
    action: InstallAction,
    why: Seq<char>,
)
    requires
        is_replace_step(action),
    ensures
        next_state(strategy, StateView::Awaiting { action }, EventView::Failed(why))
            == (StateView::RollingBack { cause: why }),
        pending_action(StateView::RollingBack { cause: why }) == Some(
            InstallAction::RestoreBackup,
        ),
{
}

/// When the backup fails, the installation has failed, for good.
proof fn lemma_failed_backup_ends_run(strategy: ReplaceStrategy, events: Seq<EventView>)
    requires
        events.len() > 0,
        events[0] is Failed,
    ensures
        run(strategy, events) == (StateView::Failed {
            error: ErrorView::BackupFailed { reason: events[0]->Failed_0 },
        }),
    decreases events.len(),
{
    let before = events.drop_last();
    if events.len() > 1 {
        lemma_failed_backup_ends_run(strategy, before);
    } else {
        assert(run(strategy, before) == initial_state());
    }
}

/// Nothing touches the live executable before the backup is confirmed: in
/// every course of an installation, a step that writes to the executable is
/// only asked for after the first step, the backup, has succeeded.
pub proof fn lemma_backup_precedes_mutation(strategy: ReplaceStrategy, events: Seq<EventView>)
    requires
        pending_action(run(strategy, events)) is Some,
        touches_executable(pending_action(run(strategy, events))->0),
    ensures
        events.len() > 0,
        events[0] is Succeeded,
{
    if events.len() > 0 && events[0] is Failed {
        lemma_failed_backup_ends_run(strategy, events);
    }
}

/// The state after the first `n` of `events`.
pub open spec fn state_after(strategy: ReplaceStrategy, events: Seq<EventView>, n: int) -> StateView {
    run(strategy, events.take(n))
}

/// The steps left shrink with every event until the installation has ended.
proof fn lemma_run_progress(strategy: ReplaceStrategy, events: Seq<EventView>)
    ensures
        steps_left(run(strategy, events)) + events.len() <= 6 || is_final(run(strategy, events)),
    decreases events.len(),
{
    if events.len() > 0 {
        let before = run(strategy, events.drop_last());
        lemma_run_progress(strategy, events.drop_last());
        if !is_final(before) {
            lemma_step_makes_progress(strategy, before, events.last());
        }
    }
}

/// No installation goes on for ever: after six reported steps it has ended.
pub proof fn lemma_installation_ends(strategy: ReplaceStrategy, events: Seq<EventView>)
    requires
        events.len() >= 6,
    ensures
        is_final(run(strategy, events)),
{
    lemma_run_progress(strategy, events);
}

/// Once an installation has ended, further events change nothing.
proof fn lemma_final_run_stays(strategy: ReplaceStrategy, events: Seq<EventView>, n: int)
    requires
        0 <= n <= events.len(),
        is_final(state_after(strategy, events, n)),
    ensures
        run(strategy, events) == state_after(strategy, events, n),
    decreases events.len() - n,
{
    if n < events.len() {
        assert(events.take(n + 1).drop_last() == events.take(n));
        lemma_final_run_stays(strategy, events, n + 1);
    } else {
        assert(events.take(n) == events);
    }
}

/// In every course of an installation the backup is restored at most once:
/// if it is being restored after `i` events, the installation has ended
/// after every longer course, so it is not being restored again.
pub proof fn lemma_at_most_one_rollback(
    strategy: ReplaceStrategy,
    events: Seq<EventView>,
    i: int,
    j: int,
)
    requires
        0 <= i < j <= events.len(),
        state_after(strategy, events, i) is RollingBack,
    ensures
        is_final(state_after(strategy, events, j)),
        !(state_after(strategy, events, j) is RollingBack),
{
    let upto = events.take(j);
    assert(upto.take(i + 1).drop_last() == events.take(i));
    lemma_final_run_stays(strategy, upto, i + 1);
}

/// The text of a failure of both the replacement and the restoration names
/// both reasons.
pub proof fn lemma_compound_failure_names_both(cause: Seq<char>, restore_error: Seq<char>)
    ensures
        contains(ErrorView::CompoundFailure { cause, restore_error }.text(), cause),
        contains(ErrorView::CompoundFailure { cause, restore_error }.text(), restore_error),
{
    let head = "Update failed and backup restoration also failed: "@;
    let middle = " (Backup error: "@;
    let text = ErrorView::CompoundFailure { cause, restore_error }.text();
    let at_cause = head.len() as int;
    let at_restore = (head.len() + cause.len() + middle.len()) as int;
    assert(text.subrange(at_cause, at_cause + cause.len()) =~= cause);
    assert(text.subrange(at_restore, at_restore + restore_error.len()) =~= restore_error);
    assert(occurs_at(text, cause, at_cause));
    assert(occurs_at(text, restore_error, at_restore));
}


/// The verdicts that `entries` hold, by path. Of two entries for one path
/// the later one counts.
pub open spec fn verdicts_by_path(entries: Seq<(Vec<char>, Integrity)>) -> Map<Seq<char>, Integrity>
    decreases entries.len(),
{
    if entries.len() == 0 {
        Map::empty()
    } else {
        verdicts_by_path(entries.drop_last()).insert(entries.last().0@, entries.last().1)
    }
}

/// The verdict that `verdicts` hold for `path`; without one, nothing is
/// known of the file, which is as if its release declared no digest.
pub open spec fn verdict_of(verdicts: Map<Seq<char>, Integrity>, path: Seq<char>) -> Integrity {
    if verdicts.contains_key(path) {
        verdicts[path]
    } else {
        Integrity::Unavailable
    }
}

/// What the integrity checks of a session have come to, by the path of the
/// file that was checked. The installer is begun with the verdict on the
/// file that it is to install, so a file that was never checked, or did not
/// pass, is not installed.
#[derive(Debug)]
pub struct IntegrityLedger {
    entries: Vec<(Vec<char>, Integrity)>,
}

impl View for IntegrityLedger {
    type V = Map<Seq<char>, Integrity>;

    closed spec fn view(&self) -> Map<Seq<char>, Integrity> {
        verdicts_by_path(self.entries@)
    }
}

impl IntegrityLedger {
    /// A ledger without verdicts.
    pub fn new() -> (ledger: IntegrityLedger)
        ensures
            ledger@ == Map::<Seq<char>, Integrity>::empty(),
    {
        IntegrityLedger { entries: Vec::new() }
    }

    /// Notes the verdict on the file at `path`, in place of an earlier one.
    pub fn record(&mut self, path: &str, integrity: Integrity)
        ensures
            final(self)@ == old(self)@.insert(path@, integrity),
    {
        let key = chars_of(path);
        proof {
            assert(self.entries@.push((key, integrity)).drop_last() == self.entries@);
        }
        self.entries.push((key, integrity));
    }

    /// The verdict on the file at `path`.
    pub fn verdict(&self, path: &str) -> (integrity: Integrity)
        ensures
            integrity == verdict_of(self@, path@),
    {
        let key = chars_of(path);
        let mut i: usize = self.entries.len();
        assert(self.entries@.take(i as int) == self.entries@);
        while i > 0
            invariant
                i <= self.entries.len(),
                key@ == path@,
                verdict_of(self@, path@) == verdict_of(
                    verdicts_by_path(self.entries@.take(i as int)),
                    path@,
                ),
            decreases i,
        {
            proof {
                let upto = self.entries@.take(i as int);
                assert(upto.drop_last() == self.entries@.take(i - 1));
            }
            if same_chars(&self.entries[i - 1].0, &key) {
                return self.entries[i - 1].1;
            }
            i -= 1;
        }
        Integrity::Unavailable
    }

    /// Begins the installation of the file at `path`, which is admitted
    /// only if the verdict on it is that it is verified.
    pub fn begin_install(&self, strategy: ReplaceStrategy, path: &str) -> (begun: Result<
        Installer,
        InstallError,
    >)
        ensures
            match admission(verdict_of(self@, path@)) {
                Some(error) => begun is Err && begun->Err_0@ == error,
                None => begun is Ok && begun->Ok_0.strategy_view() == strategy
                    && begun->Ok_0.state_view() == initial_state()
                    && begun->Ok_0.events_view() == Seq::<EventView>::empty(),
            },
    {
        Installer::begin(strategy, self.verdict(path))
    }
}

/// Only a file with the verdict that it is verified is admitted to
/// installation: a file without verdict, with a mismatch, or without a
/// declared digest is refused before anything is touched.
pub proof fn lemma_only_verified_is_admitted(verdicts: Map<Seq<char>, Integrity>, path: Seq<char>)
    ensures
        admission(verdict_of(verdicts, path)) is None <==> (verdicts.contains_key(path)
            && verdicts[path] == Integrity::Verified),
{
}

} // verus!
