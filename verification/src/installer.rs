//! The run of an unpacked artifact's installer, as a machine that the
//! caller drives.

use crate::config::Config;
use crate::decimal::{render_i32, signed_decimal_text};
use crate::error::{ErrorKind, UpdateError};
use crate::paths::{path_debug, quoted_path};
use crate::text::prefixed;
use vstd::prelude::*;
use vstd::string::*;

verus! {

/// The bits by which owner, group and others may execute a file. They are
/// added to the installer's mode before it runs.
pub const EXECUTE_BITS: u32 = 0o111;

/// The mode of a file after the execute bits were added to `mode`.
pub open spec fn executable_mode_of(mode: u32) -> u32 {
    mode | EXECUTE_BITS
}

/// The mode to give the installer whose mode is `mode`: owner, group and
/// others may execute it, and nothing else changes. No bit of `mode` is
/// lost, no bit but the three is gained, and a mode that has the three
/// already stays as it is.
pub fn executable_mode(mode: u32) -> (new_mode: u32)
    ensures
        new_mode == executable_mode_of(mode),
        new_mode & EXECUTE_BITS == EXECUTE_BITS,
        new_mode & mode == mode,
        new_mode & !(mode | EXECUTE_BITS) == 0,
        mode & EXECUTE_BITS == EXECUTE_BITS ==> new_mode == mode,
        executable_mode_of(new_mode) == new_mode,
{
    let new_mode = mode | EXECUTE_BITS;
    assert((mode | 0o111u32) & 0o111u32 == 0o111u32) by (bit_vector);
    assert((mode | 0o111u32) & mode == mode) by (bit_vector);
    assert((mode | 0o111u32) & !(mode | 0o111u32) == 0) by (bit_vector);
    assert(mode & 0o111u32 == 0o111u32 ==> (mode | 0o111u32) == mode) by (bit_vector);
    assert(((mode | 0o111u32) | 0o111u32) == (mode | 0o111u32)) by (bit_vector);
    new_mode
}

/// Where the run of the installer stands.
#[derive(Clone, Copy, Debug, PartialEq, Eq, Structural)]
pub enum InstallStage {
    Locating,
    ReadingMode,
    SettingMode,
    Running,
    Finished,
}

/// What came of the last action.
#[derive(Clone, Debug, PartialEq, Eq)]
pub enum InstallEvent {
    /// Whether a file is at the script's path.
    Located(bool),
    /// The script's permission bits.
    Mode(u32),
    ModeFailed(String),
    ModeSet,
    ModeSetFailed(String),
    /// The script could not be started.
    SpawnFailed(String),
    /// The script ran and ended: its exit code, where it ended by itself,
    /// and all that it wrote.
    Exited { code: Option<i32>, stdout: String, stderr: String },
}

/// What the caller is to do next.
#[derive(Debug, PartialEq, Eq)]
pub enum InstallAction {
    /// See whether the script is there.
    Locate,
    /// Read the script's permission bits.
    ReadMode,
    /// Set the script's permission bits.
    SetMode(u32),
    /// Run the script in `working_dir`, with the variable `env_name` set to
    /// `env_value` in its environment, and capture what it writes.
    Run { script: String, working_dir: String, env_name: String, env_value: String },
    Finish(Result<(), UpdateError>),
}

/// An exit code as it is written in messages.
pub open spec fn exit_code_text(code: Option<i32>) -> Seq<char> {
    match code {
        Some(c) => "Some("@ + signed_decimal_text(c as int) + ")"@,
        None => "None"@,
    }
}

/// The message of a script that ran and failed.
pub open spec fn script_failure_text(code: Option<i32>, stdout: Seq<char>, stderr: Seq<char>) -> Seq<
    char,
> {
    "Update script failed with status: "@ + exit_code_text(code) + ".\nSTDOUT:\n"@ + stdout
        + "\nSTDERR:\n"@ + stderr
}

/// The run ends in an error of `kind` that carries `text`.
pub open spec fn install_fails(
    next: InstallStage,
    action: InstallAction,
    kind: ErrorKind,
    text: Seq<char>,
) -> bool {
    &&& next == InstallStage::Finished
    &&& action matches InstallAction::Finish(Err(e))
    &&& e.has(kind, text)
}

/// An event that the stage does not wait for ends the run.
pub open spec fn install_out_of_order(next: InstallStage, action: InstallAction) -> bool {
    install_fails(next, action, ErrorKind::Script, "Installer event out of order"@)
}

/// The machine: from `stage`, on `event`, the run goes to `next` and the
/// caller is told `action`.
pub open spec fn install_step(
    cfg: Config,
    script_path: Seq<char>,
    working_dir: Seq<char>,
    stage: InstallStage,
    event: InstallEvent,
    next: InstallStage,
    action: InstallAction,
) -> bool {
    match stage {
        InstallStage::Locating => match event {
            InstallEvent::Located(found) => if found {
                next == InstallStage::ReadingMode && action == InstallAction::ReadMode
            } else {
                install_fails(
                    next,
                    action,
                    ErrorKind::Script,
                    "Update script not found at "@ + path_debug(script_path),
                )
            },
            _ => install_out_of_order(next, action),
        },
        InstallStage::ReadingMode => match event {
            InstallEvent::Mode(mode) => next == InstallStage::SettingMode && action
                == InstallAction::SetMode(executable_mode_of(mode)),
            InstallEvent::ModeFailed(reason) => install_fails(
                next,
                action,
                ErrorKind::FileSystem,
                "Failed to get metadata for script "@ + path_debug(script_path) + ": "@ + reason@,
            ),
            _ => install_out_of_order(next, action),
        },
        InstallStage::SettingMode => match event {
            InstallEvent::ModeSet => {
                &&& next == InstallStage::Running
                &&& action matches InstallAction::Run { script, working_dir: dir, env_name, env_value }
                &&& script@ == script_path
                &&& dir@ == working_dir
                &&& env_name@ == "DB_PASSWORD"@
                &&& env_value@ == cfg.db_password@
            },
            InstallEvent::ModeSetFailed(reason) => install_fails(
                next,
                action,
                ErrorKind::FileSystem,
                "Failed to set executable permission on script "@ + path_debug(script_path) + ": "@
                    + reason@,
            ),
            _ => install_out_of_order(next, action),
        },
        InstallStage::Running => match event {
            InstallEvent::SpawnFailed(reason) => install_fails(
                next,
                action,
                ErrorKind::Script,
                "Failed to execute update script "@ + path_debug(script_path) + ": "@ + reason@,
            ),
            InstallEvent::Exited { code, stdout, stderr } => if code == Some(0i32) {
                next == InstallStage::Finished && action == InstallAction::Finish(Ok(()))
            } else {
                install_fails(
                    next,
                    action,
                    ErrorKind::Script,
                    script_failure_text(code, stdout@, stderr@),
                )
            },
            _ => install_out_of_order(next, action),
        },
        InstallStage::Finished => install_out_of_order(next, action),
    }
}

fn fail(error: UpdateError) -> (r: (InstallStage, InstallAction))
    ensures
        r.0 == InstallStage::Finished,
        r.1 == InstallAction::Finish(Err(error)),
{
    (InstallStage::Finished, InstallAction::Finish(Err(error)))
}

fn reject() -> (r: (InstallStage, InstallAction))
    ensures
        install_out_of_order(r.0, r.1),
{
    fail(UpdateError::ScriptError(String::from_str("Installer event out of order")))
}

/// `lead`, the script's path in quotes, `": "` and `reason`.
fn about_script(lead: &str, script_path: &str, reason: &str) -> (text: String)
    ensures
        text@ == lead@ + path_debug(script_path@) + ": "@ + reason@,
{
    let quoted = quoted_path(script_path);
    let mut text = prefixed(lead, quoted.as_str());
    text.append(": ");
    text.append(reason);
    text
}

/// Writes an exit code as `exit_code_text` has it.
pub fn describe_exit_code(code: Option<i32>) -> (text: String)
    ensures
        text@ == exit_code_text(code),
{
    match code {
        Some(c) => {
            let digits = render_i32(c);
            let mut text = prefixed("Some(", digits.as_str());
            text.append(")");
            text
        },
        None => String::from_str("None"),
    }
}

impl InstallStage {
    /// The stage and the action that every run starts with.
    pub fn start() -> (r: (InstallStage, InstallAction))
        ensures
            r.0 == InstallStage::Locating,
            r.1 == InstallAction::Locate,
    {
        (InstallStage::Locating, InstallAction::Locate)
    }
}

/// One step of the run of the installer at `script_path` in `working_dir`:
/// takes the stage that the run is in and the event that the last action
/// led to, and gives the next stage and the next action.
pub fn run_update_script(
    cfg: &Config,
    script_path: &str,
    working_dir: &str,
    stage: InstallStage,
    event: InstallEvent,
) -> (next: (InstallStage, InstallAction))
    ensures
        install_step(*cfg, script_path@, working_dir@, stage, event, next.0, next.1),
{
    match stage {
        InstallStage::Locating => match event {
            InstallEvent::Located(found) => {
                if found {
                    (InstallStage::ReadingMode, InstallAction::ReadMode)
                } else {
                    let quoted = quoted_path(script_path);
                    fail(
                        UpdateError::ScriptError(
                            prefixed("Update script not found at ", quoted.as_str()),
                        ),
                    )
                }
            },
            _ => reject(),
        },
        InstallStage::ReadingMode => match event {
            InstallEvent::Mode(mode) => (
                InstallStage::SettingMode,
                InstallAction::SetMode(executable_mode(mode)),
            ),
            InstallEvent::ModeFailed(reason) => fail(
                UpdateError::FileSystemError(
                    about_script(
                        "Failed to get metadata for script ",
                        script_path,
                        reason.as_str(),
                    ),
                ),
            ),
            _ => reject(),
        },
        InstallStage::SettingMode => match event {
            InstallEvent::ModeSet => (
                InstallStage::Running,
                InstallAction::Run {
                    script: String::from_str(script_path),
                    working_dir: String::from_str(working_dir),
                    env_name: String::from_str("DB_PASSWORD"),
                    env_value: cfg.db_password.clone(),
                },
            ),
            InstallEvent::ModeSetFailed(reason) => fail(
                UpdateError::FileSystemError(
                    about_script(
                        "Failed to set executable permission on script ",
                        script_path,
                        reason.as_str(),
                    ),
                ),
            ),
            _ => reject(),
        },
        InstallStage::Running => match event {
            InstallEvent::SpawnFailed(reason) => fail(
                UpdateError::ScriptError(
                    about_script("Failed to execute update script ", script_path, reason.as_str()),
                ),
            ),
            InstallEvent::Exited { code, stdout, stderr } => {
                let clean = match code {
                    Some(c) => c == 0,
                    None => false,
                };
                if clean {
                    (InstallStage::Finished, InstallAction::Finish(Ok(())))
                } else {
                    let status = describe_exit_code(code);
                    let mut text = prefixed("Update script failed with status: ", status.as_str());
                    text.append(".\nSTDOUT:\n");
                    text.append(stdout.as_str());
                    text.append("\nSTDERR:\n");
                    text.append(stderr.as_str());
                    fail(UpdateError::ScriptError(text))
                }
            },
            _ => reject(),
        },
        InstallStage::Finished => reject(),
    }
}

/// The order of a run: the installer is started only after its mode was
/// set, the mode is set only after it was read, and it is read only of a
/// script that is there.
pub proof fn lemma_install_order(
    cfg: Config,
    script_path: Seq<char>,
    working_dir: Seq<char>,
    stage: InstallStage,
    event: InstallEvent,
    next: InstallStage,
    action: InstallAction,
)
    requires
        install_step(cfg, script_path, working_dir, stage, event, next, action),
    ensures
        action is ReadMode ==> stage == InstallStage::Locating && event == InstallEvent::Located(
            true,
        ),
        action is SetMode ==> stage == InstallStage::ReadingMode,
        action is Run ==> stage == InstallStage::SettingMode && event == InstallEvent::ModeSet,
        action == InstallAction::Finish(Ok(())) ==> stage == InstallStage::Running,
{
}

} // verus!
