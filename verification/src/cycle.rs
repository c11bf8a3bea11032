//! One update cycle, as a machine that the caller drives: check, fetch,
//! unpack, install, with a report after each stage that went through, and
//! the delay before the next cycle.

use crate::api_client::UpdateInfo;
use crate::config::Config;
use crate::decimal::{render_i32, signed_decimal_text};
use crate::error::{ErrorKind, UpdateError};
use crate::paths::{join_path, join_path_text, last_segment, last_segment_text};
use crate::text::prefixed;
use vstd::prelude::*;
use vstd::string::*;

verus! {

/// The delay, in seconds, after a cycle that tried an update and did not
/// stall.
pub const DEFAULT_POLL_INTERVAL_SECONDS: u64 = 300;

/// The delay, in seconds, after a cycle whose transfer stalled.
pub const FAST_RETRY_INTERVAL_SECONDS: u64 = 1;

/// The update that a cycle works on, and where its files go.
#[derive(Clone, Debug, PartialEq, Eq)]
pub struct UpdateJob {
    /// The version that is installed while the cycle runs.
    pub current_version: i32,
    /// The version that the cycle installs.
    pub version_code: i32,
    pub file_url: String,
    /// Where the artifact is fetched to.
    pub archive_path: String,
    /// Where the artifact is unpacked.
    pub extract_dir: String,
    /// The installer inside the unpacked artifact.
    pub script_path: String,
}

/// Where a cycle stands.
#[derive(Clone, Debug, PartialEq, Eq)]
pub enum CycleState {
    Checking { current_version: i32 },
    Downloading { job: UpdateJob },
    ReportingDownload { job: UpdateJob },
    Extracting { job: UpdateJob },
    CleaningUp,
    ReportingExtraction { job: UpdateJob },
    Installing { job: UpdateJob },
    /// The last report of the cycle is on its way.
    ReportingOutcome { outcome: CycleOutcome },
    Idle,
}

/// What came of the last action.
#[derive(Debug, PartialEq, Eq)]
pub enum CycleEvent {
    Checked(Result<UpdateInfo, UpdateError>),
    Downloaded(Result<(), UpdateError>),
    /// A report was handed to the control plane, or could not be: the cycle
    /// goes on either way.
    Reported,
    Extracted(Result<(), UpdateError>),
    /// The leftovers of a failed unpacking were removed as far as possible.
    CleanedUp,
    Installed(Result<(), UpdateError>),
}

/// How a cycle ended.
#[derive(Clone, Copy, Debug, PartialEq, Eq, Structural)]
pub enum CycleOutcome {
    /// The control plane could not be asked.
    CheckFailed,
    /// The control plane offers nothing newer than what is installed.
    UpToDate,
    /// The transfer stalled.
    DownloadTimedOut,
    /// The transfer failed otherwise.
    DownloadFailed,
    ExtractionFailed,
    InstallFailed,
    Installed,
    /// The caller reported an event that the state did not wait for.
    OutOfOrder,
}

/// What the caller is to do next.
#[derive(Clone, Debug, PartialEq, Eq)]
pub enum CycleAction {
    /// Ask the control plane for the newest version.
    Check,
    /// Fetch the artifact at `url` to `destination`.
    Download { url: String, destination: String },
    /// Send a status report; what comes of it does not matter.
    Report { version_code: i32, message: String },
    /// Unpack `archive` into `destination`.
    Extract { archive: String, destination: String },
    /// Remove `archive` and the tree at `directory`, each as far as possible.
    CleanUp { archive: String, directory: String },
    /// Run `script` in `working_dir`.
    Install { script: String, working_dir: String },
    /// The cycle is over: sleep for the poll interval.
    Finish(CycleOutcome),
}

/// The poll interval that a cycle leaves behind.
pub open spec fn next_poll_interval(outcome: CycleOutcome, previous: u64) -> u64 {
    match outcome {
        CycleOutcome::CheckFailed | CycleOutcome::UpToDate | CycleOutcome::OutOfOrder => previous,
        CycleOutcome::DownloadTimedOut => FAST_RETRY_INTERVAL_SECONDS,
        _ => DEFAULT_POLL_INTERVAL_SECONDS,
    }
}

pub open spec fn downloaded_message(version_code: i32) -> Seq<char> {
    "version "@ + signed_decimal_text(version_code as int) + " downloaded successfully"@
}

pub open spec fn extracted_message(version_code: i32) -> Seq<char> {
    "file "@ + signed_decimal_text(version_code as int) + " is extracted successfully"@
}

pub open spec fn failed_message(version_code: i32, detail: Seq<char>) -> Seq<char> {
    "update "@ + signed_decimal_text(version_code as int) + " failed: "@ + detail
}

pub open spec fn updated_message(current_version: i32, version_code: i32) -> Seq<char> {
    "updated successfully from "@ + signed_decimal_text(current_version as int) + " to "@
        + signed_decimal_text(version_code as int)
}

/// `job` is the work that `info` asks for under `cfg`: the artifact is
/// named after the last segment of its address.
pub open spec fn job_for(cfg: Config, current_version: i32, info: UpdateInfo, job: UpdateJob) -> bool {
    let name = last_segment_text(info.file_url@);
    &&& job.current_version == current_version
    &&& job.version_code == info.version_code
    &&& job.file_url@ == info.file_url@
    &&& job.archive_path@ == join_path_text(cfg.download_base_dir@, name + ".zip"@)
    &&& job.extract_dir@ == join_path_text(cfg.download_base_dir@, name)
    &&& job.script_path@ == join_path_text(job.extract_dir@, cfg.update_script_name@)
}

/// The caller is told to send `text` as a report on the installed version.
pub open spec fn reports(action: CycleAction, job: UpdateJob, text: Seq<char>) -> bool {
    &&& action matches CycleAction::Report { version_code, message }
    &&& version_code == job.current_version
    &&& message@ == text
}

/// `after` is `before` with the poll interval set to `seconds`.
pub open spec fn with_interval(before: Config, seconds: u64, after: Config) -> bool {
    after == (Config { poll_interval_seconds: seconds, ..before })
}

/// The cycle ends with `outcome`, and the poll interval is what that
/// outcome calls for.
pub open spec fn ends(
    before: Config,
    after: Config,
    next: CycleState,
    action: CycleAction,
    outcome: CycleOutcome,
) -> bool {
    &&& next == CycleState::Idle
    &&& action == CycleAction::Finish(outcome)
    &&& with_interval(before, next_poll_interval(outcome, before.poll_interval_seconds), after)
}

/// The machine: in `state`, on `event`, under the settings `before`, the
/// cycle goes to `next`, the caller is told `action`, and the settings
/// become `after`.
pub open spec fn cycle_step(
    before: Config,
    state: CycleState,
    event: CycleEvent,
    after: Config,
    next: CycleState,
    action: CycleAction,
) -> bool {
    match state {
        CycleState::Checking { current_version } => match event {
            CycleEvent::Checked(Ok(info)) => if info.version_code > current_version {
                &&& after == before
                &&& next matches CycleState::Downloading { job }
                &&& job_for(before, current_version, info, job)
                &&& action matches CycleAction::Download { url, destination }
                &&& url@ == job.file_url@
                &&& destination@ == job.archive_path@
            } else {
                ends(before, after, next, action, CycleOutcome::UpToDate)
            },
            CycleEvent::Checked(Err(_)) => ends(
                before,
                after,
                next,
                action,
                CycleOutcome::CheckFailed,
            ),
            _ => ends(before, after, next, action, CycleOutcome::OutOfOrder),
        },
        CycleState::Downloading { job } => match event {
            CycleEvent::Downloaded(Ok(_)) => {
                &&& with_interval(before, DEFAULT_POLL_INTERVAL_SECONDS, after)
                &&& next == CycleState::ReportingDownload { job }
                &&& reports(action, job, downloaded_message(job.version_code))
            },
            CycleEvent::Downloaded(Err(e)) => if e.kind() == ErrorKind::Timeout {
                ends(before, after, next, action, CycleOutcome::DownloadTimedOut)
            } else {
                ends(before, after, next, action, CycleOutcome::DownloadFailed)
            },
            _ => ends(before, after, next, action, CycleOutcome::OutOfOrder),
        },
        CycleState::ReportingDownload { job } => match event {
            CycleEvent::Reported => {
                &&& with_interval(before, DEFAULT_POLL_INTERVAL_SECONDS, after)
                &&& next == CycleState::Extracting { job }
                &&& action matches CycleAction::Extract { archive, destination }
                &&& archive@ == job.archive_path@
                &&& destination@ == job.extract_dir@
            },
            _ => ends(before, after, next, action, CycleOutcome::OutOfOrder),
        },
        CycleState::Extracting { job } => match event {
            CycleEvent::Extracted(Ok(_)) => {
                &&& with_interval(before, DEFAULT_POLL_INTERVAL_SECONDS, after)
                &&& next == CycleState::ReportingExtraction { job }
                &&& reports(action, job, extracted_message(job.version_code))
            },
            CycleEvent::Extracted(Err(_)) => {
                &&& with_interval(before, DEFAULT_POLL_INTERVAL_SECONDS, after)
                &&& next == CycleState::CleaningUp
                &&& action matches CycleAction::CleanUp { archive, directory }
                &&& archive@ == job.archive_path@
                &&& directory@ == job.extract_dir@
            },
            _ => ends(before, after, next, action, CycleOutcome::OutOfOrder),
        },
        CycleState::CleaningUp => match event {
            CycleEvent::CleanedUp => ends(
                before,
                after,
                next,
                action,
                CycleOutcome::ExtractionFailed,
            ),
            _ => ends(before, after, next, action, CycleOutcome::OutOfOrder),
        },
        CycleState::ReportingExtraction { job } => match event {
            CycleEvent::Reported => {
                &&& with_interval(before, DEFAULT_POLL_INTERVAL_SECONDS, after)
                &&& next == CycleState::Installing { job }
                &&& action matches CycleAction::Install { script, working_dir }
                &&& script@ == job.script_path@
                &&& working_dir@ == job.extract_dir@
            },
            _ => ends(before, after, next, action, CycleOutcome::OutOfOrder),
        },
        CycleState::Installing { job } => match event {
            CycleEvent::Installed(Ok(_)) => {
                &&& with_interval(before, DEFAULT_POLL_INTERVAL_SECONDS, after)
                &&& next == CycleState::ReportingOutcome { outcome: CycleOutcome::Installed }
                &&& reports(action, job, updated_message(job.current_version, job.version_code))
            },
            CycleEvent::Installed(Err(e)) => {
                &&& with_interval(before, DEFAULT_POLL_INTERVAL_SECONDS, after)
                &&& next == CycleState::ReportingOutcome { outcome: CycleOutcome::InstallFailed }
                &&& reports(action, job, failed_message(job.version_code, e.detail()))
            },
            _ => ends(before, after, next, action, CycleOutcome::OutOfOrder),
        },
        CycleState::ReportingOutcome { outcome } => match event {
            CycleEvent::Reported => if outcome == CycleOutcome::Installed || outcome
                == CycleOutcome::InstallFailed {
                ends(before, after, next, action, outcome)
            } else {
                ends(before, after, next, action, CycleOutcome::OutOfOrder)
            },
            _ => ends(before, after, next, action, CycleOutcome::OutOfOrder),
        },
        CycleState::Idle => ends(before, after, next, action, CycleOutcome::OutOfOrder),
    }
}

impl CycleState {
    /// The state and the action that every cycle starts with.
    pub fn start(current_version: i32) -> (r: (CycleState, CycleAction))
        ensures
            r.0 == (CycleState::Checking { current_version }),
            r.1 == CycleAction::Check,
    {
        (CycleState::Checking { current_version }, CycleAction::Check)
    }
}

/// The work that `info` asks for under `cfg`.
pub fn plan_update(cfg: &Config, current_version: i32, info: UpdateInfo) -> (job: UpdateJob)
    ensures
        job_for(*cfg, current_version, info, job),
{
    let name = last_segment(info.file_url.as_str());
    let archive_name = prefixed(name.as_str(), ".zip");
    let archive_path = join_path(cfg.download_base_dir.as_str(), archive_name.as_str());
    let extract_dir = join_path(cfg.download_base_dir.as_str(), name.as_str());
    let script_path = join_path(extract_dir.as_str(), cfg.update_script_name.as_str());
    UpdateJob {
        current_version,
        version_code: info.version_code,
        file_url: info.file_url,
        archive_path,
        extract_dir,
        script_path,
    }
}

fn finish(cfg: &mut Config, outcome: CycleOutcome) -> (r: (CycleState, CycleAction))
    ensures
        ends(*old(cfg), *final(cfg), r.0, r.1, outcome),
{
    match outcome {
        CycleOutcome::CheckFailed | CycleOutcome::UpToDate | CycleOutcome::OutOfOrder => {},
        CycleOutcome::DownloadTimedOut => {
            cfg.poll_interval_seconds = FAST_RETRY_INTERVAL_SECONDS;
        },
        _ => {
            cfg.poll_interval_seconds = DEFAULT_POLL_INTERVAL_SECONDS;
        },
    }
    (CycleState::Idle, CycleAction::Finish(outcome))
}

fn report(job: &UpdateJob, message: String) -> (action: CycleAction)
    ensures
        reports(action, *job, message@),
{
    CycleAction::Report { version_code: job.current_version, message }
}

pub fn downloaded_report(version_code: i32) -> (message: String)
    ensures
        message@ == downloaded_message(version_code),
{
    let digits = render_i32(version_code);
    let mut message = prefixed("version ", digits.as_str());
    message.append(" downloaded successfully");
    message
}

pub fn extracted_report(version_code: i32) -> (message: String)
    ensures
        message@ == extracted_message(version_code),
{
    let digits = render_i32(version_code);
    let mut message = prefixed("file ", digits.as_str());
    message.append(" is extracted successfully");
    message
}

pub fn failed_report(version_code: i32, detail: &str) -> (message: String)
    ensures
        message@ == failed_message(version_code, detail@),
{
    let digits = render_i32(version_code);
    let mut message = prefixed("update ", digits.as_str());
    message.append(" failed: ");
    message.append(detail);
    message
}

pub fn updated_report(current_version: i32, version_code: i32) -> (message: String)
    ensures
        message@ == updated_message(current_version, version_code),
{
    let from = render_i32(current_version);
    let to = render_i32(version_code);
    let mut message = prefixed("updated successfully from ", from.as_str());
    message.append(" to ");
    message.append(to.as_str());
    message
}

/// One step of an update cycle: takes the state that the cycle is in and
/// the event that the last action led to, gives the next state and the next
/// action, and sets the poll interval of `cfg`.
pub fn run_update_cycle(cfg: &mut Config, state: CycleState, event: CycleEvent) -> (next: (
    CycleState,
    CycleAction,
))
    ensures
        cycle_step(*old(cfg), state, event, *final(cfg), next.0, next.1),
{
    match state {
        CycleState::Checking { current_version } => match event {
            CycleEvent::Checked(Ok(info)) => {
                if info.version_code > current_version {
                    let job = plan_update(cfg, current_version, info);
                    let action = CycleAction::Download {
                        url: job.file_url.clone(),
                        destination: job.archive_path.clone(),
                    };
                    (CycleState::Downloading { job }, action)
                } else {
                    finish(cfg, CycleOutcome::UpToDate)
                }
            },
            CycleEvent::Checked(Err(_)) => finish(cfg, CycleOutcome::CheckFailed),
            _ => finish(cfg, CycleOutcome::OutOfOrder),
        },
        CycleState::Downloading { job } => match event {
            CycleEvent::Downloaded(Ok(_)) => {
                cfg.poll_interval_seconds = DEFAULT_POLL_INTERVAL_SECONDS;
                let action = report(&job, downloaded_report(job.version_code));
                (CycleState::ReportingDownload { job }, action)
            },
            CycleEvent::Downloaded(Err(e)) => {
                if e.is_timeout() {
                    finish(cfg, CycleOutcome::DownloadTimedOut)
                } else {
                    finish(cfg, CycleOutcome::DownloadFailed)
                }
            },
            _ => finish(cfg, CycleOutcome::OutOfOrder),
        },
        CycleState::ReportingDownload { job } => match event {
            CycleEvent::Reported => {
                cfg.poll_interval_seconds = DEFAULT_POLL_INTERVAL_SECONDS;
                let action = CycleAction::Extract {
                    archive: job.archive_path.clone(),
                    destination: job.extract_dir.clone(),
                };
                (CycleState::Extracting { job }, action)
            },
            _ => finish(cfg, CycleOutcome::OutOfOrder),
        },
        CycleState::Extracting { job } => match event {
            CycleEvent::Extracted(Ok(_)) => {
                cfg.poll_interval_seconds = DEFAULT_POLL_INTERVAL_SECONDS;
                let action = report(&job, extracted_report(job.version_code));
                (CycleState::ReportingExtraction { job }, action)
            },
            CycleEvent::Extracted(Err(_)) => {
                cfg.poll_interval_seconds = DEFAULT_POLL_INTERVAL_SECONDS;
                (
                    CycleState::CleaningUp,
                    CycleAction::CleanUp { archive: job.archive_path, directory: job.extract_dir },
                )
            },
            _ => finish(cfg, CycleOutcome::OutOfOrder),
        },
        CycleState::CleaningUp => match event {
            CycleEvent::CleanedUp => finish(cfg, CycleOutcome::ExtractionFailed),
            _ => finish(cfg, CycleOutcome::OutOfOrder),
        },
        CycleState::ReportingExtraction { job } => match event {
            CycleEvent::Reported => {
                cfg.poll_interval_seconds = DEFAULT_POLL_INTERVAL_SECONDS;
                let action = CycleAction::Install {
                    script: job.script_path.clone(),
                    working_dir: job.extract_dir.clone(),
                };
                (CycleState::Installing { job }, action)
            },
            _ => finish(cfg, CycleOutcome::OutOfOrder),
        },
        CycleState::Installing { job } => match event {
            CycleEvent::Installed(Ok(_)) => {
                cfg.poll_interval_seconds = DEFAULT_POLL_INTERVAL_SECONDS;
                let action = report(&job, updated_report(job.current_version, job.version_code));
                (CycleState::ReportingOutcome { outcome: CycleOutcome::Installed }, action)
            },
            CycleEvent::Installed(Err(e)) => {
                cfg.poll_interval_seconds = DEFAULT_POLL_INTERVAL_SECONDS;
                let detail = e.detail_text();
                let action = report(&job, failed_report(job.version_code, detail.as_str()));
                (CycleState::ReportingOutcome { outcome: CycleOutcome::InstallFailed }, action)
            },
            _ => finish(cfg, CycleOutcome::OutOfOrder),
        },
        CycleState::ReportingOutcome { outcome } => match event {
            CycleEvent::Reported => match outcome {
                CycleOutcome::Installed => finish(cfg, CycleOutcome::Installed),
                CycleOutcome::InstallFailed => finish(cfg, CycleOutcome::InstallFailed),
                _ => finish(cfg, CycleOutcome::OutOfOrder),
            },
            _ => finish(cfg, CycleOutcome::OutOfOrder),
        },
        CycleState::Idle => finish(cfg, CycleOutcome::OutOfOrder),
    }
}

/// An update is tried exactly where the control plane offers a version
/// above the installed one; otherwise the cycle ends at once and leaves the
/// settings as they were.
pub proof fn lemma_update_iff_newer(
    before: Config,
    current_version: i32,
    info: UpdateInfo,
    after: Config,
    next: CycleState,
    action: CycleAction,
)
    requires
        cycle_step(
            before,
            CycleState::Checking { current_version },
            CycleEvent::Checked(Ok(info)),
            after,
            next,
            action,
        ),
    ensures
        action is Download <==> info.version_code > current_version,
        after == before,
        info.version_code <= current_version ==> next == CycleState::Idle && action
            == CycleAction::Finish(CycleOutcome::UpToDate),
{
}

/// After a transfer that failed, the poll interval is the fast retry value
/// exactly where the failure is a timeout, and the default otherwise.
pub proof fn lemma_retry_after_failed_download(
    before: Config,
    job: UpdateJob,
    error: UpdateError,
    after: Config,
    next: CycleState,
    action: CycleAction,
)
    requires
        cycle_step(
            before,
            CycleState::Downloading { job },
            CycleEvent::Downloaded(Err(error)),
            after,
            next,
            action,
        ),
    ensures
        after.poll_interval_seconds == FAST_RETRY_INTERVAL_SECONDS <==> error.kind()
            == ErrorKind::Timeout,
        error.kind() != ErrorKind::Timeout ==> after.poll_interval_seconds
            == DEFAULT_POLL_INTERVAL_SECONDS,
        next == CycleState::Idle,
{
}

/// The state is one that a cycle is in only after its transfer went
/// through.
pub open spec fn past_download(state: CycleState) -> bool {
    match state {
        CycleState::Checking { .. } | CycleState::Downloading { .. } | CycleState::Idle => false,
        _ => true,
    }
}

/// Every step out of a state past the transfer leaves the default poll
/// interval behind, whatever was reported.
pub proof fn lemma_default_after_download(
    before: Config,
    state: CycleState,
    event: CycleEvent,
    after: Config,
    next: CycleState,
    action: CycleAction,
)
    requires
        past_download(state),
        before.poll_interval_seconds == DEFAULT_POLL_INTERVAL_SECONDS,
        cycle_step(before, state, event, after, next, action),
    ensures
        after.poll_interval_seconds == DEFAULT_POLL_INTERVAL_SECONDS,
        past_download(next) || next == CycleState::Idle,
{
}

/// The paths that are there after `action` was carried out.
pub open spec fn present_after(present: Set<Seq<char>>, action: CycleAction) -> Set<Seq<char>> {
    match action {
        CycleAction::CleanUp { archive, directory } => present.remove(archive@).remove(directory@),
        _ => present,
    }
}

/// After an unpacking that failed, the artifact and the directory that it
/// was unpacked into are both removed, and the installer is not run.
pub proof fn lemma_failed_extraction_is_cleaned_up(
    before: Config,
    job: UpdateJob,
    error: UpdateError,
    after: Config,
    next: CycleState,
    action: CycleAction,
    present: Set<Seq<char>>,
)
    requires
        cycle_step(
            before,
            CycleState::Extracting { job },
            CycleEvent::Extracted(Err(error)),
            after,
            next,
            action,
        ),
    ensures
        action is CleanUp,
        !present_after(present, action).contains(job.archive_path@),
        !present_after(present, action).contains(job.extract_dir@),
        next == CycleState::CleaningUp,
        after.poll_interval_seconds == DEFAULT_POLL_INTERVAL_SECONDS,
        forall|event: CycleEvent, later: Config, then: CycleState, then_action: CycleAction|
            cycle_step(after, next, event, later, then, then_action) ==> then == CycleState::Idle
                && then_action is Finish,
{
}

/// How far a cycle has come.
pub open spec fn progress(state: CycleState) -> nat {
    match state {
        CycleState::Checking { .. } => 0,
        CycleState::Downloading { .. } => 1,
        CycleState::ReportingDownload { .. } => 2,
        CycleState::Extracting { .. } => 3,
        CycleState::CleaningUp => 4,
        CycleState::ReportingExtraction { .. } => 4,
        CycleState::Installing { .. } => 5,
        CycleState::ReportingOutcome { .. } => 6,
        CycleState::Idle => 7,
    }
}

/// A cycle only moves forward: every step of a cycle that is not over
/// leads to a state further on. So no state is entered twice, and a cycle
/// has at most one transfer, one unpacking and one run of the installer,
/// each begun only after the one before it has ended.
pub proof fn lemma_cycle_moves_forward(
    before: Config,
    state: CycleState,
    event: CycleEvent,
    after: Config,
    next: CycleState,
    action: CycleAction,
)
    requires
        cycle_step(before, state, event, after, next, action),
    ensures
        state != CycleState::Idle ==> progress(next) > progress(state),
        state == CycleState::Idle ==> next == CycleState::Idle,
        action is Download ==> state is Checking,
        action is Extract ==> state is ReportingDownload,
        action is Install ==> state is ReportingExtraction,
{
}

/// The `i`-th event of a run leads from the `i`-th state and settings to
/// the next.
pub open spec fn step_holds(
    cfgs: Seq<Config>,
    states: Seq<CycleState>,
    events: Seq<CycleEvent>,
    actions: Seq<CycleAction>,
    i: int,
) -> bool {
    cycle_step(cfgs[i], states[i], events[i], cfgs[i + 1], states[i + 1], actions[i])
}

/// What a sequence of events leads a cycle through: `cfgs` and `states`
/// before and after each event, `actions` after each.
pub open spec fn is_run(
    cfgs: Seq<Config>,
    states: Seq<CycleState>,
    events: Seq<CycleEvent>,
    actions: Seq<CycleAction>,
) -> bool {
    &&& cfgs.len() == events.len() + 1
    &&& states.len() == events.len() + 1
    &&& actions.len() == events.len()
    &&& forall|i: int| 0 <= i < events.len() ==> #[trigger] step_holds(cfgs, states, events, actions, i)
}

/// What holds of the settings at each point of a run that starts with a
/// check.
pub open spec fn on_course(cfgs: Seq<Config>, states: Seq<CycleState>, actions: Seq<CycleAction>, i: int) -> bool {
    match states[i] {
        CycleState::Checking { .. } | CycleState::Downloading { .. } => cfgs[i] == cfgs[0],
        CycleState::Idle => i > 0 && actions[i - 1] is Finish,
        _ => cfgs[i] == (Config {
            poll_interval_seconds: DEFAULT_POLL_INTERVAL_SECONDS,
            ..cfgs[0]
        }),
    }
}

proof fn lemma_run_on_course(
    cfgs: Seq<Config>,
    states: Seq<CycleState>,
    events: Seq<CycleEvent>,
    actions: Seq<CycleAction>,
    i: int,
)
    requires
        is_run(cfgs, states, events, actions),
        states[0] is Checking,
        0 <= i <= events.len(),
        forall|j: int| 0 <= j < i - 1 ==> !(#[trigger] actions[j] is Finish),
    ensures
        on_course(cfgs, states, actions, i),
    decreases i,
{
    if i > 0 {
        lemma_run_on_course(cfgs, states, events, actions, i - 1);
        assert(step_holds(cfgs, states, events, actions, i - 1));
        if i > 1 {
            assert(!(actions[i - 2] is Finish));
        }
    }
}

/// The poll interval after a whole cycle. A cycle that starts with a check
/// and is driven until it finishes leaves the settings as they were but for
/// the poll interval, and that is: unchanged where no update was tried (the
/// check failed or offered nothing newer); the fast retry value where the
/// transfer timed out; the default after every other attempt, whether it
/// went through or not.
pub proof fn lemma_poll_interval_after_cycle(
    cfgs: Seq<Config>,
    states: Seq<CycleState>,
    events: Seq<CycleEvent>,
    actions: Seq<CycleAction>,
    outcome: CycleOutcome,
)
    requires
        is_run(cfgs, states, events, actions),
        states[0] is Checking,
        events.len() > 0,
        actions.last() == CycleAction::Finish(outcome),
        forall|j: int| 0 <= j < actions.len() - 1 ==> !(#[trigger] actions[j] is Finish),
        outcome != CycleOutcome::OutOfOrder,
    ensures
        cfgs.last() == (Config {
            poll_interval_seconds: next_poll_interval(outcome, cfgs[0].poll_interval_seconds),
            ..cfgs[0]
        }),
        cfgs.last().poll_interval_seconds == FAST_RETRY_INTERVAL_SECONDS <==> outcome
            == CycleOutcome::DownloadTimedOut || (cfgs[0].poll_interval_seconds
            == FAST_RETRY_INTERVAL_SECONDS && (outcome == CycleOutcome::UpToDate || outcome
            == CycleOutcome::CheckFailed)),
{
    let n = events.len() as int;
    lemma_run_on_course(cfgs, states, events, actions, n - 1);
    assert(step_holds(cfgs, states, events, actions, n - 1));
    if n - 1 > 0 {
        assert(!(actions[n - 2] is Finish));
    }
}

} // verus!
