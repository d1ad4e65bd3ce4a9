use vstd::prelude::*;

use crate::log_entries::{
    extends_after, extends_with, lemma_extends_empty, lemma_extends_last, lemma_extends_trans, line, LogEntries, LogLevel, LogType,
};
use crate::log_widget::{lemma_extends_line, LogWidget};
use crate::operator_tool::{
    fus_decision, fus_decision_of, fus_error_text, operator_error_string, FusDecision, OperatorResult,
    OperatorVersionResult,
};
use crate::process::ProcessResult;
use crate::serial_ports::{ports_sorted, sort_ports, stable_perm, SerialPortInfo};
use crate::stackfile_config::{fus_config, fus_file_name, stack_file_name, wireless_stack_config, FusFile, WirelessStackFile};
use crate::text::{decimal, decimal_string, join3};

verus! {

/// Helper image flashed first; it answers the serial commands.
pub const OPERATOR_IMAGE: &'static str = "wb55_operator.hex";

/// The helper image without its end record, to be followed by a payload image.
pub const OPERATOR_HEAD_IMAGE: &'static str = "wb55_operator_no_end.hex";

/// Scratch file that receives a combined image.
pub const MERGED_IMAGE: &'static str = "merge.hex";

/// Attempts of a command before giving up.
pub const MAX_ATTEMPTS: u8 = 3;

/// Rounds of the status confirmation.
pub const STATUS_ROUNDS: u8 = 2;

/// FUS images installed in one job at most; the legacy path needs two.
pub const MAX_FUS_INSTALLS: u8 = 3;

/// Pause before opening the port to query the FUS, in milliseconds.
pub const FUS_SETTLE_MS: u64 = 1000;

/// Pause before each delete attempt, in milliseconds.
pub const DELETE_PACING_MS: u64 = 1000;

/// Pause for the device to reboot before the upgrade command, in milliseconds.
pub const UPGRADE_SETTLE_MS: u64 = 5000;

/// Read timeout of one progress line, in milliseconds.
pub const PROGRESS_TIMEOUT_MS: u64 = 10000;

/// Steps of the wireless-stack upgrade.
#[derive(Clone, Copy, Debug, PartialEq, Eq, Structural)]
pub enum FwStep {
    Ready,
    StartProcess,
    StepFlashOperator,
    StepUpgradeFUS,
    StepFlashFUS(FusFile),
    StepDeleteFW,
    StepFlashFW,
}

/// Where a step stands while it waits for the outcome of an action.
#[derive(Clone, Copy, Debug, PartialEq, Eq, Structural)]
pub enum WsPhase {
    Idle,
    ProbingPort,
    Merging,
    Flashing,
    OpeningPort,
    /// `failed`: an earlier round ended without a success.
    Status { round: u8, attempt: u8, failed: bool },
    QueryingVersion,
    Deleting { attempt: u8 },
    StartingUpgrade,
    ReadingProgress,
}

/// Commands of the serial protocol that are answered by one line.
#[derive(Clone, Copy, Debug, PartialEq, Eq, Structural)]
pub enum SerialCommand {
    Status,
    Delete,
}

impl SerialCommand {
    pub open spec fn spec_text(self) -> Seq<char> {
        match self {
            SerialCommand::Status => "STATUS\n"@,
            SerialCommand::Delete => "DELETE\n"@,
        }
    }

    /// The command as sent on the line.
    pub fn text(&self) -> (r: &'static str)
        ensures
            r@ == self.spec_text(),
    {
        match self {
            SerialCommand::Status => "STATUS\n",
            SerialCommand::Delete => "DELETE\n",
        }
    }
}

/// Text of the version query.
pub const VERSION_COMMAND: &'static str = "VERSION\n";

/// Text of the upgrade command.
pub const UPGRADE_COMMAND: &'static str = "UPGRADE\n";

/// Work the tab asks its surroundings to do; its outcome comes back as a message.
#[derive(Debug, Clone)]
pub enum WsAction {
    Nothing,
    /// Open the port and close it again.
    ProbePort { port: String },
    /// Run the flashing tool on an image of the wireless-stack directory
    /// (or on the scratch combined image).
    Flash { image: String },
    /// Write into the scratch file `result` the bytes of `first`, then those of `second`.
    Merge { first: String, second: String, result: String },
    /// Wait `settle_ms`, then open the port, kept for the commands that follow.
    OpenPort { port: String, settle_ms: u64 },
    /// Wait `settle_ms`, send the command, wait a second, read one line.
    SendCommand { command: SerialCommand, settle_ms: u64 },
    /// Send the version query and decode its reply.
    QueryVersion,
    /// Open the port, wait `settle_ms`, send the upgrade command.
    StartUpgrade { port: String, settle_ms: u64 },
    /// Read and decode one progress line.
    ReadProgress { timeout_ms: u64 },
}

/// Events of the wireless-stack tab: user input, and the outcome of each action.
#[derive(Debug)]
pub enum TabWsMessage {
    StackSelected(WirelessStackFile),
    SerialSelected(SerialPortInfo),
    /// The serial devices found, or `None` when they could not be listed.
    SerialRefresh(Option<Vec<SerialPortInfo>>),
    StepChange(FwStep),
    LogMessage(LogType),
    LogMessages(LogEntries),
    PortProbed(Result<(), String>),
    MergeDone(Result<(), String>),
    FlashDone(Result<ProcessResult, String>),
    PortOpened(Result<(), String>),
    CommandDone(Result<String, String>),
    VersionRead(Result<OperatorVersionResult, String>),
    UpgradeStarted(Result<(), String>),
    ProgressRead(Result<OperatorResult, String>),
}

/// State of the wireless-stack tab and of its upgrade job.
#[derive(Debug)]
pub struct TabWirelessStack {
    pub fw_selected: WirelessStackFile,
    pub serial_available_port: Vec<SerialPortInfo>,
    pub serial_selected: Option<SerialPortInfo>,
    pub log: LogWidget,
    pub is_readonly: bool,
    pub step: FwStep,
    pub phase: WsPhase,
    /// The port the running job talks to, fixed when it starts.
    pub job_port: String,
    /// Error texts reported during the current upgrade, one per line.
    pub upgrade_errors: String,
    /// FUS images installed by the current job.
    pub fus_installs: u8,
}

impl TabWirelessStack {
    /// A job runs exactly when the tab is not `Ready`; it then waits on some
    /// phase, within that phase's bounds, with input disabled.
    pub open spec fn wf(&self) -> bool {
        &&& (self.step is Ready) == (self.phase is Idle)
        &&& !(self.step is Ready) ==> self.is_readonly
        &&& phase_in_bounds(self.phase)
    }
}

/// The choices of `b` and the job's port are those of `a`.
pub open spec fn ws_kept(a: TabWirelessStack, b: TabWirelessStack) -> bool {
    &&& b.fw_selected == a.fw_selected
    &&& b.serial_available_port == a.serial_available_port
    &&& b.serial_selected == a.serial_selected
    &&& b.job_port == a.job_port
}

/// The line logged when a step begins.
pub open spec fn ws_step_title(s: FwStep) -> Seq<char> {
    match s {
        FwStep::StartProcess => "Start flashing..."@,
        FwStep::StepFlashOperator => "Flash operator"@,
        FwStep::StepUpgradeFUS => "FUS update"@,
        FwStep::StepFlashFUS(_) => "Flash FUS"@,
        FwStep::StepDeleteFW => "Delete current wireless stack"@,
        _ => "Flash wireless stack"@,
    }
}

/// A step that the job runs (every step but `Ready` and the start request).
pub open spec fn is_job_step(s: FwStep) -> bool {
    !(s is Ready || s is StartProcess)
}

/// The first phase of step `s` and the action that begins it.
pub open spec fn ws_begins(a: TabWirelessStack, s: FwStep, phase: WsPhase, r: WsAction) -> bool {
    match s {
        FwStep::StepFlashOperator => phase is Flashing && (r matches WsAction::Flash { image } && image@
            == "wb55_operator.hex"@),
        FwStep::StepUpgradeFUS => phase is OpeningPort && (r matches WsAction::OpenPort { port, settle_ms }
            && port == a.job_port && settle_ms == FUS_SETTLE_MS),
        FwStep::StepFlashFUS(f) => phase is Merging && (r matches WsAction::Merge { first, second, result }
            && first@ == "wb55_operator_no_end.hex"@ && second@ == fus_file_name(f) && result@ == "merge.hex"@),
        FwStep::StepDeleteFW => phase is OpeningPort && (r matches WsAction::OpenPort { port, settle_ms }
            && port == a.job_port && settle_ms == 0),
        FwStep::StepFlashFW => phase is Merging && (r matches WsAction::Merge { first, second, result }
            && first@ == "wb55_operator_no_end.hex"@ && second@ == stack_file_name(a.fw_selected) && result@
            == "merge.hex"@),
        _ => false,
    }
}

/// From `a` the job has entered step `s`, after `mid` and `lines` were logged.
pub open spec fn ws_enters(
    a: TabWirelessStack,
    b: TabWirelessStack,
    mid: Seq<LogType>,
    lines: Seq<(LogLevel, Seq<char>)>,
    s: FwStep,
    r: WsAction,
) -> bool {
    &&& ws_kept(a, b)
    &&& b.step == s
    &&& b.is_readonly
    &&& extends_after(a.log@, mid, b.log@, lines + line(LogLevel::Info, ws_step_title(s)))
    &&& ws_begins(a, s, b.phase, r)
}

/// From `a` the job has stopped: `mid` and `lines` logged, back to `Ready`,
/// input enabled again.
pub open spec fn ws_stops(
    a: TabWirelessStack,
    b: TabWirelessStack,
    mid: Seq<LogType>,
    lines: Seq<(LogLevel, Seq<char>)>,
    r: WsAction,
) -> bool {
    &&& ws_kept(a, b)
    &&& b.step == FwStep::Ready
    &&& b.phase == WsPhase::Idle
    &&& !b.is_readonly
    &&& extends_after(a.log@, mid, b.log@, lines)
    &&& r is Nothing
}

/// From `a` the job stays in its step and goes on with phase `phase`, after
/// `mid` and `lines` were logged.
pub open spec fn ws_continues(
    a: TabWirelessStack,
    b: TabWirelessStack,
    mid: Seq<LogType>,
    lines: Seq<(LogLevel, Seq<char>)>,
    phase: WsPhase,
) -> bool {
    &&& ws_kept(a, b)
    &&& b.step == a.step
    &&& b.is_readonly
    &&& b.phase == phase
    &&& extends_after(a.log@, mid, b.log@, lines)
}

/// The counters of a phase are within their bounds.
pub open spec fn phase_in_bounds(p: WsPhase) -> bool {
    match p {
        WsPhase::Status { round, attempt, .. } => round < STATUS_ROUNDS && attempt < MAX_ATTEMPTS,
        WsPhase::Deleting { attempt } => attempt < MAX_ATTEMPTS,
        _ => true,
    }
}

/// `r` sends `command` after `settle_ms`.
pub open spec fn sends(r: WsAction, command: SerialCommand, settle: u64) -> bool {
    r matches WsAction::SendCommand { command: c, settle_ms } && c == command && settle_ms == settle
}

pub open spec fn status_warning_text(round: u8, attempt: u8, e: Seq<char>) -> Seq<char> {
    "STATUS #"@ + decimal(round as nat + 1) + ", attempt #"@ + decimal(attempt as nat + 1) + " failed (Error: "@ + e
        + "."@
}

pub open spec fn delete_warning_text(attempt: u8, e: Seq<char>) -> Seq<char> {
    "Delete attempt #"@ + decimal(attempt as nat + 1) + " failed. Error: "@ + e
}

pub open spec fn open_failed_text(e: Seq<char>) -> Seq<char> {
    "Failed to open serial port. Error: "@ + e
}

/// What a reply, or its failure, to a `STATUS` or `DELETE` command does.
/// A `STATUS` round ends at its first success or after three failed
/// attempts; both rounds run, and the job fails after the second round when
/// either round had no success. `DELETE` is tried up to three times.
pub open spec fn command_post(a: TabWirelessStack, b: TabWirelessStack, res: Result<String, String>, r: WsAction) -> bool {
    b.fus_installs == a.fus_installs && match a.phase {
        WsPhase::Status { round, attempt, failed } => match res {
            Ok(_) => if round + 1 < STATUS_ROUNDS {
                ws_continues(
                    a,
                    b,
                    seq![],
                    seq![],
                    WsPhase::Status { round: (round + 1) as u8, attempt: 0, failed },
                ) && sends(r, SerialCommand::Status, 0)
            } else if failed {
                ws_stops(a, b, seq![], line(LogLevel::Error, "Unable to unlock FUS."@), r)
            } else if a.step is StepUpgradeFUS {
                ws_continues(a, b, seq![], seq![], WsPhase::QueryingVersion) && r is QueryVersion
            } else {
                ws_enters(a, b, seq![], seq![], FwStep::StepFlashFW, r)
            },
            Err(e) => if attempt + 1 < MAX_ATTEMPTS {
                ws_continues(
                    a,
                    b,
                    seq![],
                    line(LogLevel::Warning, status_warning_text(round, attempt, e@)),
                    WsPhase::Status { round, attempt: (attempt + 1) as u8, failed },
                ) && sends(r, SerialCommand::Status, 0)
            } else if round + 1 < STATUS_ROUNDS {
                ws_continues(
                    a,
                    b,
                    seq![],
                    line(LogLevel::Warning, status_warning_text(round, attempt, e@)),
                    WsPhase::Status { round: (round + 1) as u8, attempt: 0, failed: true },
                ) && sends(r, SerialCommand::Status, 0)
            } else {
                ws_stops(
                    a,
                    b,
                    seq![],
                    seq![
                        (LogLevel::Warning, status_warning_text(round, attempt, e@)),
                        (LogLevel::Error, "Unable to unlock FUS."@),
                    ],
                    r,
                )
            },
        },
        WsPhase::Deleting { attempt } => match res {
            Ok(_) => ws_continues(a, b, seq![], seq![], WsPhase::Status { round: 0, attempt: 0, failed: false }) && sends(
                r,
                SerialCommand::Status,
                0,
            ),
            Err(e) => if attempt + 1 < MAX_ATTEMPTS {
                ws_continues(
                    a,
                    b,
                    seq![],
                    line(LogLevel::Warning, delete_warning_text(attempt, e@)),
                    WsPhase::Deleting { attempt: (attempt + 1) as u8 },
                ) && sends(r, SerialCommand::Delete, DELETE_PACING_MS)
            } else {
                ws_stops(
                    a,
                    b,
                    seq![],
                    seq![
                        (LogLevel::Warning, delete_warning_text(attempt, e@)),
                        (LogLevel::Error, "Unable to send delete command."@),
                    ],
                    r,
                )
            },
        },
        _ => false,
    }
}

/// What the outcome of a run of the flashing tool does: exit code 0 goes on
/// (to the FUS query after the helper image, to the upgrade command after a
/// combined image); any other outcome stops the job with an error.
pub open spec fn flash_post(a: TabWirelessStack, b: TabWirelessStack, res: Result<ProcessResult, String>, r: WsAction) -> bool {
    b.fus_installs == a.fus_installs && match res {
        Err(e) => ws_stops(a, b, seq![], line(LogLevel::Error, e@), r),
        Ok(p) => if p.code == Some(0i32) {
            if a.step is StepFlashOperator {
                ws_enters(a, b, p.log@, seq![], FwStep::StepUpgradeFUS, r)
            } else {
                &&& ws_continues(
                    a,
                    b,
                    p.log@,
                    line(LogLevel::Info, "Send UPGRADE command"@),
                    WsPhase::StartingUpgrade,
                )
                &&& r matches WsAction::StartUpgrade { port, settle_ms }
                &&& port == a.job_port
                &&& settle_ms == UPGRADE_SETTLE_MS
            }
        } else {
            ws_stops(a, b, seq![], line(LogLevel::Error, "Flash failed"@), r)
        },
    }
}

pub open spec fn ahead_text() -> Seq<char> {
    "FUS is ahead ! Let's give it a try. But it could fail..."@
}

/// What the reply to the version query does, by the FUS version it reports.
pub open spec fn version_post(
    a: TabWirelessStack,
    b: TabWirelessStack,
    res: Result<OperatorVersionResult, String>,
    r: WsAction,
) -> bool {
    match res {
        Err(e) => ws_stops(a, b, seq![], line(LogLevel::Error, e@), r) && b.fus_installs == a.fus_installs,
        Ok(v) => match fus_decision_of(v.fus_version) {
            FusDecision::Flash(f) => if a.fus_installs < MAX_FUS_INSTALLS {
                ws_enters(a, b, seq![], seq![], FwStep::StepFlashFUS(f), r) && b.fus_installs == a.fus_installs + 1
            } else {
                ws_stops(a, b, seq![], line(LogLevel::Error, "FUS is still out of date after upgrading it. Abort."@), r)
                    && b.fus_installs == a.fus_installs
            },
            FusDecision::UpToDate => ws_enters(
                a,
                b,
                seq![],
                line(LogLevel::Info, "FUS is up to date"@),
                FwStep::StepDeleteFW,
                r,
            ) && b.fus_installs == a.fus_installs,
            FusDecision::Ahead => ws_enters(
                a,
                b,
                seq![],
                line(LogLevel::Warning, ahead_text()),
                FwStep::StepDeleteFW,
                r,
            ) && b.fus_installs == a.fus_installs,
            FusDecision::Unknown => ws_stops(
                a,
                b,
                seq![],
                line(LogLevel::Error, "Unknown FUS version. Abort."@),
                r,
            ) && b.fus_installs == a.fus_installs,
        },
    }
}

/// The error text a progress line adds: the text of its error code and a
/// line break, or nothing when it reports no error.
pub open spec fn progress_error_text(p: OperatorResult) -> Seq<char> {
    match p.error {
        Some(c) => if c != 0 {
            fus_error_text(c) + "\r\n"@
        } else {
            Seq::empty()
        },
        None => Seq::empty(),
    }
}

/// What one progress line of an upgrade does: its error, if any, is
/// collected; reading goes on until the status is 0; then the upgrade
/// succeeded if no error was collected. After a FUS image the version is
/// queried again (the job moves on only once the FUS is current); after
/// the stack image the job is done.
pub open spec fn progress_post(a: TabWirelessStack, b: TabWirelessStack, res: Result<OperatorResult, String>, r: WsAction) -> bool {
    b.fus_installs == a.fus_installs && match res {
        Err(e) => ws_stops(a, b, seq![], line(LogLevel::Error, e@), r),
        Ok(p) => {
            let errors = a.upgrade_errors@ + progress_error_text(p);
            if p.status != 0 {
                &&& ws_continues(a, b, seq![], seq![], WsPhase::ReadingProgress)
                &&& b.upgrade_errors@ == errors
                &&& r matches WsAction::ReadProgress { timeout_ms }
                &&& timeout_ms == PROGRESS_TIMEOUT_MS
            } else if errors.len() > 0 {
                ws_stops(a, b, seq![], line(LogLevel::Error, errors), r)
            } else if a.step is StepFlashFUS {
                ws_enters(a, b, seq![], seq![], FwStep::StepUpgradeFUS, r)
            } else {
                ws_stops(a, b, seq![], line(LogLevel::Info, "Wireless stack is now flashed !"@), r)
            }
        },
    }
}

/// The port list of `b` is what a refresh found, sorted, and no port is
/// selected; everything else is that of `a`.
pub open spec fn refresh_post(a: TabWirelessStack, b: TabWirelessStack, found: Option<Vec<SerialPortInfo>>) -> bool {
    &&& found is None ==> b.serial_available_port@.len() == 0
    &&& found matches Some(ports) ==> ports_sorted(b.serial_available_port@)
        && b.serial_available_port@.to_multiset() == ports@.to_multiset()
        && exists|perm: Seq<int>| stable_perm(ports@, b.serial_available_port@, perm)
    &&& b.serial_selected is None
    &&& b == TabWirelessStack {
        serial_available_port: b.serial_available_port,
        serial_selected: b.serial_selected,
        ..a
    }
}

/// What a start request does: nothing while a job runs; an error when no
/// port is selected; otherwise the job starts on the selected port by
/// probing it.
pub open spec fn ws_start_post(a: TabWirelessStack, b: TabWirelessStack, r: WsAction) -> bool {
    if !(a.step is Ready) {
        b == a && r is Nothing
    } else {
        match a.serial_selected {
            None => {
                &&& b == TabWirelessStack { log: b.log, ..a }
                &&& extends_with(a.log@, b.log@, line(LogLevel::Error, "Please select a serial port"@))
                &&& r is Nothing
            },
            Some(p) => {
                &&& b.fw_selected == a.fw_selected
                &&& b.serial_available_port == a.serial_available_port
                &&& b.serial_selected == a.serial_selected
                &&& b.job_port == p.port
                &&& b.step == FwStep::StartProcess
                &&& b.phase == WsPhase::ProbingPort
                &&& b.is_readonly
                &&& b.fus_installs == 0
                &&& extends_with(a.log@, b.log@, line(LogLevel::Info, "Start flashing..."@))
                &&& r matches WsAction::ProbePort { port }
                &&& port == p.port
            },
        }
    }
}

/// An outcome that arrives while its phase is not current changes nothing.
pub open spec fn ws_outcome(a: TabWirelessStack, b: TabWirelessStack, r: WsAction, current: bool, post: bool) -> bool {
    if current {
        post
    } else {
        b == a && r is Nothing
    }
}

/// What each message does to the tab, and the action it asks for. Choices
/// made while a job runs are ignored.
pub open spec fn ws_update_post(a: TabWirelessStack, b: TabWirelessStack, m: TabWsMessage, r: WsAction) -> bool {
    let idle = a.step is Ready;
    match m {
        TabWsMessage::StackSelected(f) => r is Nothing && if idle {
            b == TabWirelessStack { fw_selected: f, ..a }
        } else {
            b == a
        },
        TabWsMessage::SerialSelected(p) => r is Nothing && if idle {
            b == TabWirelessStack { serial_selected: Some(p), ..a }
        } else {
            b == a
        },
        TabWsMessage::SerialRefresh(found) => r is Nothing && if idle {
            refresh_post(a, b, found)
        } else {
            b == a
        },
        TabWsMessage::StepChange(s) => if s is StartProcess {
            ws_start_post(a, b, r)
        } else {
            b == a && r is Nothing
        },
        TabWsMessage::LogMessage(l) => r is Nothing && b == TabWirelessStack { log: b.log, ..a } && b.log@
            == a.log@.push(l),
        TabWsMessage::LogMessages(entries) => r is Nothing && b == TabWirelessStack { log: b.log, ..a } && b.log@
            == a.log@ + entries@,
        TabWsMessage::PortProbed(res) => ws_outcome(
            a,
            b,
            r,
            a.phase is ProbingPort,
            match res {
                Ok(_) => ws_enters(a, b, seq![], seq![], FwStep::StepFlashOperator, r),
                Err(e) => ws_stops(a, b, seq![], line(LogLevel::Error, e@), r),
            },
        ),
        TabWsMessage::MergeDone(res) => ws_outcome(
            a,
            b,
            r,
            a.phase is Merging,
            match res {
                Ok(_) => ws_continues(a, b, seq![], seq![], WsPhase::Flashing) && (r matches WsAction::Flash {
                    image,
                } && image@ == "merge.hex"@),
                Err(e) => ws_stops(a, b, seq![], line(LogLevel::Error, e@), r),
            },
        ),
        TabWsMessage::FlashDone(res) => ws_outcome(a, b, r, a.phase is Flashing, flash_post(a, b, res, r)),
        TabWsMessage::PortOpened(res) => ws_outcome(
            a,
            b,
            r,
            a.phase is OpeningPort,
            match res {
                Ok(_) => if a.step is StepDeleteFW {
                    ws_continues(a, b, seq![], seq![], WsPhase::Deleting { attempt: 0 }) && sends(
                        r,
                        SerialCommand::Delete,
                        DELETE_PACING_MS,
                    )
                } else {
                    ws_continues(a, b, seq![], seq![], WsPhase::Status { round: 0, attempt: 0, failed: false }) && sends(
                        r,
                        SerialCommand::Status,
                        0,
                    )
                },
                Err(e) => ws_stops(a, b, seq![], line(LogLevel::Error, open_failed_text(e@)), r),
            },
        ),
        TabWsMessage::CommandDone(res) => ws_outcome(
            a,
            b,
            r,
            (a.phase is Status || a.phase is Deleting) && phase_in_bounds(a.phase),
            command_post(a, b, res, r),
        ),
        TabWsMessage::VersionRead(res) => ws_outcome(
            a,
            b,
            r,
            a.phase is QueryingVersion,
            version_post(a, b, res, r),
        ),
        TabWsMessage::UpgradeStarted(res) => ws_outcome(
            a,
            b,
            r,
            a.phase is StartingUpgrade,
            match res {
                Ok(_) => ws_continues(a, b, seq![], seq![], WsPhase::ReadingProgress) && b.upgrade_errors@
                    == Seq::<char>::empty() && (r matches WsAction::ReadProgress { timeout_ms } && timeout_ms
                    == PROGRESS_TIMEOUT_MS),
                Err(e) => ws_stops(a, b, seq![], line(LogLevel::Error, e@), r),
            },
        ),
        TabWsMessage::ProgressRead(res) => ws_outcome(
            a,
            b,
            r,
            a.phase is ReadingProgress,
            progress_post(a, b, res, r),
        ),
    }
}

impl TabWirelessStack {
    /// A tab with no job, offering the given ports (sorted, none selected).
    pub fn new(ports: Vec<SerialPortInfo>) -> (r: TabWirelessStack)
        ensures
            r.fw_selected == WirelessStackFile::BleHciExt,
            ports_sorted(r.serial_available_port@),
            r.serial_available_port@.to_multiset() == ports@.to_multiset(),
            exists|perm: Seq<int>| stable_perm(ports@, r.serial_available_port@, perm),
            r.serial_selected is None,
            r.log@ == Seq::<LogType>::empty(),
            !r.is_readonly,
            r.step == FwStep::Ready,
            r.phase == WsPhase::Idle,
            r.wf(),
    {
        let mut tab = TabWirelessStack {
            fw_selected: WirelessStackFile::BleHciExt,
            serial_available_port: Vec::new(),
            serial_selected: None,
            log: LogWidget::new(),
            is_readonly: false,
            step: FwStep::Ready,
            phase: WsPhase::Idle,
            job_port: String::new(),
            upgrade_errors: String::new(),
            fus_installs: 0,
        };
        tab.refresh_serial_ports(Some(ports));
        tab
    }

    /// Replaces the port list by the devices found, sorted; when they could
    /// not be listed the list is left empty. Either way the selection is
    /// cleared.
    pub fn refresh_serial_ports(&mut self, found: Option<Vec<SerialPortInfo>>)
        ensures
            refresh_post(*old(self), *final(self), found),
    {
        self.serial_selected = None;
        match found {
            Some(ports) => {
                self.serial_available_port = sort_ports(ports);
            },
            None => {
                self.serial_available_port = Vec::new();
            },
        }
    }

    /// Begins step `s` of the job: logs its title and returns its first action.
    fn enter(&mut self, s: FwStep) -> (r: WsAction)
        requires
            is_job_step(s),
        ensures
            ws_enters(*old(self), *final(self), seq![], seq![], s, r),
            final(self).fus_installs == old(self).fus_installs,
    {
        let ghost l0 = self.log@;
        let title = match s {
            FwStep::StepFlashOperator => "Flash operator",
            FwStep::StepUpgradeFUS => "FUS update",
            FwStep::StepFlashFUS(_) => "Flash FUS",
            FwStep::StepDeleteFW => "Delete current wireless stack",
            _ => "Flash wireless stack",
        };
        self.log.push_line(LogLevel::Info, String::from_str(title));
        proof {
            lemma_extends_empty(l0);
            lemma_extends_line(l0, l0, self.log@, seq![], LogLevel::Info, ws_step_title(s));
            assert(seq![] + line(LogLevel::Info, ws_step_title(s)) =~= seq![(LogLevel::Info, ws_step_title(s))]);
        }
        self.step = s;
        self.is_readonly = true;
        match s {
            FwStep::StepFlashOperator => {
                self.phase = WsPhase::Flashing;
                WsAction::Flash { image: String::from_str(OPERATOR_IMAGE) }
            },
            FwStep::StepUpgradeFUS => {
                self.phase = WsPhase::OpeningPort;
                WsAction::OpenPort { port: self.job_port.clone(), settle_ms: FUS_SETTLE_MS }
            },
            FwStep::StepFlashFUS(f) => {
                self.phase = WsPhase::Merging;
                WsAction::Merge {
                    first: String::from_str(OPERATOR_HEAD_IMAGE),
                    second: String::from_str(fus_config(f)),
                    result: String::from_str(MERGED_IMAGE),
                }
            },
            FwStep::StepDeleteFW => {
                self.phase = WsPhase::OpeningPort;
                WsAction::OpenPort { port: self.job_port.clone(), settle_ms: 0 }
            },
            _ => {
                self.phase = WsPhase::Merging;
                WsAction::Merge {
                    first: String::from_str(OPERATOR_HEAD_IMAGE),
                    second: String::from_str(wireless_stack_config(self.fw_selected)),
                    result: String::from_str(MERGED_IMAGE),
                }
            },
        }
    }

    /// Logs one line, then begins step `s`.
    fn enter_after(&mut self, level: LogLevel, text: String, s: FwStep) -> (r: WsAction)
        requires
            is_job_step(s),
        ensures
            ws_enters(*old(self), *final(self), seq![], line(level, text@), s, r),
            final(self).fus_installs == old(self).fus_installs,
    {
        let ghost l0 = self.log@;
        let ghost t = text@;
        self.log.push_line(level, text);
        let ghost l1 = self.log@;
        proof {
            lemma_extends_empty(l0);
            lemma_extends_line(l0, l0, l1, seq![], level, t);
            assert(seq![].push((level, t)) =~= line(level, t));
        }
        let r = self.enter(s);
        proof {
            lemma_extends_empty(l1);
            lemma_extends_empty(l0);
            assert(seq![] + line(LogLevel::Info, ws_step_title(s)) =~= line(LogLevel::Info, ws_step_title(s)));
            lemma_extends_trans(l0, l1, self.log@, line(level, t), line(LogLevel::Info, ws_step_title(s)));
        }
        r
    }

    /// The single way a job fails: an error line, back to `Ready`, input
    /// enabled again.
    fn fail(&mut self, text: String) -> (r: WsAction)
        ensures
            ws_stops(*old(self), *final(self), seq![], line(LogLevel::Error, text@), r),
            final(self).fus_installs == old(self).fus_installs,
    {
        let ghost l0 = self.log@;
        let ghost t = text@;
        self.log.push_line(LogLevel::Error, text);
        proof {
            lemma_extends_empty(l0);
            lemma_extends_line(l0, l0, self.log@, seq![], LogLevel::Error, t);
        }
        self.step = FwStep::Ready;
        self.phase = WsPhase::Idle;
        self.is_readonly = false;
        WsAction::Nothing
    }

    /// Stays in the current step with phase `phase`, nothing logged.
    fn proceed(&mut self, phase: WsPhase)
        ensures
            ws_continues(*old(self), *final(self), seq![], seq![], phase),
            final(self).fus_installs == old(self).fus_installs,
            final(self).upgrade_errors == old(self).upgrade_errors,
    {
        proof {
            lemma_extends_empty(self.log@);
        }
        self.is_readonly = true;
        self.phase = phase;
    }

    /// Logs a warning, then stays in the current step with phase `phase`.
    fn warn_and_proceed(&mut self, text: String, phase: WsPhase)
        ensures
            ws_continues(*old(self), *final(self), seq![], line(LogLevel::Warning, text@), phase),
            final(self).fus_installs == old(self).fus_installs,
    {
        let ghost l0 = self.log@;
        let ghost t = text@;
        self.log.push_line(LogLevel::Warning, text);
        proof {
            lemma_extends_empty(l0);
            lemma_extends_line(l0, l0, self.log@, seq![], LogLevel::Warning, t);
            assert(seq![].push((LogLevel::Warning, t)) =~= line(LogLevel::Warning, t));
        }
        self.is_readonly = true;
        self.phase = phase;
    }

    /// Logs a warning, then fails with `error`.
    fn warn_and_fail(&mut self, warning: String, error: &str) -> (r: WsAction)
        ensures
            ws_stops(*old(self), *final(self), seq![], seq![(LogLevel::Warning, warning@), (LogLevel::Error, error@)], r),
            final(self).fus_installs == old(self).fus_installs,
    {
        let ghost l0 = self.log@;
        let ghost w = warning@;
        self.log.push_line(LogLevel::Warning, warning);
        let ghost l1 = self.log@;
        proof {
            lemma_extends_empty(l0);
            lemma_extends_line(l0, l0, l1, seq![], LogLevel::Warning, w);
            assert(seq![].push((LogLevel::Warning, w)) =~= line(LogLevel::Warning, w));
        }
        let r = self.fail(String::from_str(error));
        proof {
            lemma_extends_empty(l1);
            lemma_extends_empty(l0);
            lemma_extends_trans(l0, l1, self.log@, line(LogLevel::Warning, w), line(LogLevel::Error, error@));
            assert(line(LogLevel::Warning, w) + line(LogLevel::Error, error@) =~= seq![
                (LogLevel::Warning, w),
                (LogLevel::Error, error@),
            ]);
        }
        r
    }

    /// Handles the probe of the port: the helper image is flashed next.
    pub fn on_port_probed(&mut self, res: Result<(), String>) -> (r: WsAction)
        ensures
            res is Ok ==> ws_enters(*old(self), *final(self), seq![], seq![], FwStep::StepFlashOperator, r),
            res matches Err(e) ==> ws_stops(*old(self), *final(self), seq![], line(LogLevel::Error, e@), r),
    {
        match res {
            Ok(_) => self.enter(FwStep::StepFlashOperator),
            Err(e) => self.fail(e),
        }
    }

    /// Handles the end of a merge: the combined image is flashed next.
    pub fn on_merge_done(&mut self, res: Result<(), String>) -> (r: WsAction)
        ensures
            res is Ok ==> ws_continues(*old(self), *final(self), seq![], seq![], WsPhase::Flashing) && (r matches WsAction::Flash {
                image,
            } && image@ == "merge.hex"@),
            res matches Err(e) ==> ws_stops(*old(self), *final(self), seq![], line(LogLevel::Error, e@), r),
    {
        match res {
            Ok(_) => {
                self.proceed(WsPhase::Flashing);
                WsAction::Flash { image: String::from_str(MERGED_IMAGE) }
            },
            Err(e) => self.fail(e),
        }
    }

    /// Handles the outcome of a run of the flashing tool.
    pub fn on_flash_done(&mut self, res: Result<ProcessResult, String>) -> (r: WsAction)
        ensures
            flash_post(*old(self), *final(self), res, r),
    {
        match res {
            Err(e) => self.fail(e),
            Ok(p) => {
                if p.succeeded() {
                    let ProcessResult { code: _, log } = p;
                    let mut log = log;
                    self.log.from_log_entries(&mut log);
                    let ghost l1 = self.log@;
                    if matches!(self.step, FwStep::StepFlashOperator) {
                        let r = self.enter(FwStep::StepUpgradeFUS);
                        proof {
                            lemma_extends_empty(l1);
                        }
                        r
                    } else {
                        self.log.push_line(LogLevel::Info, String::from_str("Send UPGRADE command"));
                        proof {
                            lemma_extends_empty(l1);
                            lemma_extends_line(l1, l1, self.log@, seq![], LogLevel::Info, "Send UPGRADE command"@);
                            assert(seq![].push((LogLevel::Info, "Send UPGRADE command"@)) =~= line(
                                LogLevel::Info,
                                "Send UPGRADE command"@,
                            ));
                        }
                        self.is_readonly = true;
                        self.phase = WsPhase::StartingUpgrade;
                        WsAction::StartUpgrade { port: self.job_port.clone(), settle_ms: UPGRADE_SETTLE_MS }
                    }
                } else {
                    self.fail(String::from_str("Flash failed"))
                }
            },
        }
    }

    /// Handles the opening of the port: the status confirmation follows in
    /// the FUS query, the first delete attempt in the delete step.
    pub fn on_port_opened(&mut self, res: Result<(), String>) -> (r: WsAction)
        ensures
            final(self).fus_installs == old(self).fus_installs,
            res is Ok && old(self).step is StepDeleteFW ==> ws_continues(
                *old(self),
                *final(self),
                seq![],
                seq![],
                WsPhase::Deleting { attempt: 0 },
            ) && sends(r, SerialCommand::Delete, DELETE_PACING_MS),
            res is Ok && !(old(self).step is StepDeleteFW) ==> ws_continues(
                *old(self),
                *final(self),
                seq![],
                seq![],
                WsPhase::Status { round: 0, attempt: 0, failed: false },
            ) && sends(r, SerialCommand::Status, 0),
            res matches Err(e) ==> ws_stops(*old(self), *final(self), seq![], line(LogLevel::Error, open_failed_text(e@)), r),
    {
        match res {
            Ok(_) => {
                if matches!(self.step, FwStep::StepDeleteFW) {
                    self.proceed(WsPhase::Deleting { attempt: 0 });
                    WsAction::SendCommand { command: SerialCommand::Delete, settle_ms: DELETE_PACING_MS }
                } else {
                    self.proceed(WsPhase::Status { round: 0, attempt: 0, failed: false });
                    WsAction::SendCommand { command: SerialCommand::Status, settle_ms: 0 }
                }
            },
            Err(e) => self.fail(String::from_str("Failed to open serial port. Error: ").concat(e.as_str())),
        }
    }

    /// Handles the reply, or its failure, to a `STATUS` or `DELETE` command.
    pub fn on_command_done(&mut self, res: Result<String, String>) -> (r: WsAction)
        requires
            old(self).phase is Status || old(self).phase is Deleting,
            phase_in_bounds(old(self).phase),
        ensures
            command_post(*old(self), *final(self), res, r),
    {
        match self.phase {
            WsPhase::Status { round, attempt, failed } => match res {
                Ok(_) => {
                    if round + 1 < STATUS_ROUNDS {
                        self.proceed(WsPhase::Status { round: round + 1, attempt: 0, failed });
                        WsAction::SendCommand { command: SerialCommand::Status, settle_ms: 0 }
                    } else if failed {
                        self.fail(String::from_str("Unable to unlock FUS."))
                    } else if matches!(self.step, FwStep::StepUpgradeFUS) {
                        self.proceed(WsPhase::QueryingVersion);
                        WsAction::QueryVersion
                    } else {
                        self.enter(FwStep::StepFlashFW)
                    }
                },
                Err(e) => {
                    let w = String::from_str("STATUS #").concat(decimal_string(round as u32 + 1).as_str()).concat(
                        ", attempt #",
                    ).concat(decimal_string(attempt as u32 + 1).as_str()).concat(" failed (Error: ").concat(
                        e.as_str(),
                    ).concat(".");
                    if attempt + 1 < MAX_ATTEMPTS {
                        self.warn_and_proceed(w, WsPhase::Status { round, attempt: attempt + 1, failed });
                        WsAction::SendCommand { command: SerialCommand::Status, settle_ms: 0 }
                    } else if round + 1 < STATUS_ROUNDS {
                        self.warn_and_proceed(w, WsPhase::Status { round: round + 1, attempt: 0, failed: true });
                        WsAction::SendCommand { command: SerialCommand::Status, settle_ms: 0 }
                    } else {
                        self.warn_and_fail(w, "Unable to unlock FUS.")
                    }
                },
            },
            _ => {
                let attempt = match self.phase {
                    WsPhase::Deleting { attempt } => attempt,
                    _ => 0,
                };
                match res {
                    Ok(_) => {
                        self.proceed(WsPhase::Status { round: 0, attempt: 0, failed: false });
                        WsAction::SendCommand { command: SerialCommand::Status, settle_ms: 0 }
                    },
                    Err(e) => {
                        let w = join3("Delete attempt #", decimal_string(attempt as u32 + 1).as_str(), " failed. Error: ").concat(
                            e.as_str(),
                        );
                        if attempt + 1 < MAX_ATTEMPTS {
                            self.warn_and_proceed(w, WsPhase::Deleting { attempt: attempt + 1 });
                            WsAction::SendCommand { command: SerialCommand::Delete, settle_ms: DELETE_PACING_MS }
                        } else {
                            self.warn_and_fail(w, "Unable to send delete command.")
                        }
                    },
                }
            },
        }
    }

    /// Handles the reply to the version query.
    pub fn on_version_read(&mut self, res: Result<OperatorVersionResult, String>) -> (r: WsAction)
        ensures
            version_post(*old(self), *final(self), res, r),
    {
        match res {
            Err(e) => self.fail(e),
            Ok(v) => match fus_decision(v.fus_version) {
                FusDecision::Flash(f) => {
                    if self.fus_installs < MAX_FUS_INSTALLS {
                        let r = self.enter(FwStep::StepFlashFUS(f));
                        self.fus_installs = self.fus_installs + 1;
                        r
                    } else {
                        self.fail(String::from_str("FUS is still out of date after upgrading it. Abort."))
                    }
                },
                FusDecision::UpToDate => self.enter_after(
                    LogLevel::Info,
                    String::from_str("FUS is up to date"),
                    FwStep::StepDeleteFW,
                ),
                FusDecision::Ahead => self.enter_after(
                    LogLevel::Warning,
                    String::from_str("FUS is ahead ! Let's give it a try. But it could fail..."),
                    FwStep::StepDeleteFW,
                ),
                FusDecision::Unknown => self.fail(String::from_str("Unknown FUS version. Abort.")),
            },
        }
    }

    /// Handles the sending of the upgrade command: progress lines are read next.
    pub fn on_upgrade_started(&mut self, res: Result<(), String>) -> (r: WsAction)
        ensures
            final(self).fus_installs == old(self).fus_installs,
            res is Ok ==> ws_continues(*old(self), *final(self), seq![], seq![], WsPhase::ReadingProgress)
                && final(self).upgrade_errors@ == Seq::<char>::empty() && (r matches WsAction::ReadProgress {
                timeout_ms,
            } && timeout_ms == PROGRESS_TIMEOUT_MS),
            res matches Err(e) ==> ws_stops(*old(self), *final(self), seq![], line(LogLevel::Error, e@), r),
    {
        match res {
            Ok(_) => {
                self.proceed(WsPhase::ReadingProgress);
                self.upgrade_errors = String::new();
                WsAction::ReadProgress { timeout_ms: PROGRESS_TIMEOUT_MS }
            },
            Err(e) => self.fail(e),
        }
    }

    /// Handles one progress line of an upgrade.
    pub fn on_progress_read(&mut self, res: Result<OperatorResult, String>) -> (r: WsAction)
        ensures
            progress_post(*old(self), *final(self), res, r),
    {
        match res {
            Err(e) => self.fail(e),
            Ok(p) => {
                let ghost before = self.upgrade_errors@;
                if let Some(c) = p.error {
                    if c != 0 {
                        let mut errors = String::new();
                        std::mem::swap(&mut errors, &mut self.upgrade_errors);
                        self.upgrade_errors = errors.concat(operator_error_string(c)).concat("\r\n");
                    }
                }
                assert(self.upgrade_errors@ =~= before + progress_error_text(p));
                if p.status != 0 {
                    self.proceed(WsPhase::ReadingProgress);
                    WsAction::ReadProgress { timeout_ms: PROGRESS_TIMEOUT_MS }
                } else if self.upgrade_errors.as_str().unicode_len() > 0 {
                    let mut errors = String::new();
                    std::mem::swap(&mut errors, &mut self.upgrade_errors);
                    self.fail(errors)
                } else if matches!(self.step, FwStep::StepFlashFUS(_)) {
                    self.enter(FwStep::StepUpgradeFUS)
                } else {
                    let ghost l0 = self.log@;
                    self.log.push_line(LogLevel::Info, String::from_str("Wireless stack is now flashed !"));
                    proof {
                        lemma_extends_empty(l0);
                        lemma_extends_line(l0, l0, self.log@, seq![], LogLevel::Info, "Wireless stack is now flashed !"@);
                    }
                    self.step = FwStep::Ready;
                    self.phase = WsPhase::Idle;
                    self.is_readonly = false;
                    WsAction::Nothing
                }
            },
        }
    }

    /// Starts an upgrade job on the selected port.
    pub fn start(&mut self) -> (r: WsAction)
        ensures
            ws_start_post(*old(self), *final(self), r),
    {
        if !matches!(self.step, FwStep::Ready) {
            return WsAction::Nothing;
        }
        let ghost l0 = self.log@;
        proof {
            lemma_extends_empty(l0);
        }
        match &self.serial_selected {
            None => {
                self.log.push_line(LogLevel::Error, String::from_str("Please select a serial port"));
                proof {
                    lemma_extends_line(l0, l0, self.log@, seq![], LogLevel::Error, "Please select a serial port"@);
                    assert(seq![].push((LogLevel::Error, "Please select a serial port"@)) =~= line(
                        LogLevel::Error,
                        "Please select a serial port"@,
                    ));
                }
                WsAction::Nothing
            },
            Some(p) => {
                let port = p.port.clone();
                self.job_port = port.clone();
                self.log.push_line(LogLevel::Info, String::from_str("Start flashing..."));
                proof {
                    lemma_extends_line(l0, l0, self.log@, seq![], LogLevel::Info, "Start flashing..."@);
                    assert(seq![].push((LogLevel::Info, "Start flashing..."@)) =~= line(
                        LogLevel::Info,
                        "Start flashing..."@,
                    ));
                }
                self.step = FwStep::StartProcess;
                self.phase = WsPhase::ProbingPort;
                self.is_readonly = true;
                self.fus_installs = 0;
                WsAction::ProbePort { port }
            },
        }
    }

    /// Applies one message to the tab and returns the action it asks for.
    pub fn update(&mut self, message: TabWsMessage) -> (r: WsAction)
        ensures
            ws_update_post(*old(self), *final(self), message, r),
            old(self).wf() ==> final(self).wf(),
    {
        let idle = matches!(self.step, FwStep::Ready);
        match message {
            TabWsMessage::StackSelected(f) => {
                if idle {
                    self.fw_selected = f;
                }
                WsAction::Nothing
            },
            TabWsMessage::SerialSelected(p) => {
                if idle {
                    self.serial_selected = Some(p);
                }
                WsAction::Nothing
            },
            TabWsMessage::SerialRefresh(found) => {
                if idle {
                    self.refresh_serial_ports(found);
                }
                WsAction::Nothing
            },
            TabWsMessage::StepChange(s) => {
                if matches!(s, FwStep::StartProcess) {
                    self.start()
                } else {
                    WsAction::Nothing
                }
            },
            TabWsMessage::LogMessage(l) => {
                self.log.push(l);
                WsAction::Nothing
            },
            TabWsMessage::LogMessages(entries) => {
                let mut entries = entries;
                self.log.from_log_entries(&mut entries);
                WsAction::Nothing
            },
            TabWsMessage::PortProbed(res) => {
                if matches!(self.phase, WsPhase::ProbingPort) {
                    self.on_port_probed(res)
                } else {
                    WsAction::Nothing
                }
            },
            TabWsMessage::MergeDone(res) => {
                if matches!(self.phase, WsPhase::Merging) {
                    self.on_merge_done(res)
                } else {
                    WsAction::Nothing
                }
            },
            TabWsMessage::FlashDone(res) => {
                if matches!(self.phase, WsPhase::Flashing) {
                    self.on_flash_done(res)
                } else {
                    WsAction::Nothing
                }
            },
            TabWsMessage::PortOpened(res) => {
                if matches!(self.phase, WsPhase::OpeningPort) {
                    self.on_port_opened(res)
                } else {
                    WsAction::Nothing
                }
            },
            TabWsMessage::CommandDone(res) => {
                let current = match self.phase {
                    WsPhase::Status { round, attempt, .. } => round < STATUS_ROUNDS && attempt < MAX_ATTEMPTS,
                    WsPhase::Deleting { attempt } => attempt < MAX_ATTEMPTS,
                    _ => false,
                };
                if current {
                    self.on_command_done(res)
                } else {
                    WsAction::Nothing
                }
            },
            TabWsMessage::VersionRead(res) => {
                if matches!(self.phase, WsPhase::QueryingVersion) {
                    self.on_version_read(res)
                } else {
                    WsAction::Nothing
                }
            },
            TabWsMessage::UpgradeStarted(res) => {
                if matches!(self.phase, WsPhase::StartingUpgrade) {
                    self.on_upgrade_started(res)
                } else {
                    WsAction::Nothing
                }
            },
            TabWsMessage::ProgressRead(res) => {
                if matches!(self.phase, WsPhase::ReadingProgress) {
                    self.on_progress_read(res)
                } else {
                    WsAction::Nothing
                }
            },
        }
    }
}

/// A run of the flashing tool that exits with code 0 lets the upgrade go on;
/// any other outcome (another code, a signal, a tool that did not start)
/// ends the job in `Ready` with an error as its last line.
pub proof fn lemma_flash_outcome_decides(
    a: TabWirelessStack,
    b: TabWirelessStack,
    res: Result<ProcessResult, String>,
    r: WsAction,
)
    requires
        a.step is StepFlashOperator || a.step is StepFlashFUS || a.step is StepFlashFW,
        flash_post(a, b, res, r),
    ensures
        res matches Ok(p) && p.code == Some(0i32) ==> b.is_readonly && !(b.step is Ready) && !(r is Nothing),
        !(res matches Ok(p) && p.code == Some(0i32)) ==> b.step == FwStep::Ready && !b.is_readonly && r is Nothing
            && b.log@.last().level() == LogLevel::Error,
{
    match res {
        Ok(p) => {
            if p.code != Some(0i32) {
                lemma_extends_last(a.log@ + seq![], b.log@, line(LogLevel::Error, "Flash failed"@));
            }
        },
        Err(e) => {
            lemma_extends_last(a.log@ + seq![], b.log@, line(LogLevel::Error, e@));
        },
    }
}

/// Three failed delete attempts in a row end the job with the error
/// "Unable to send delete command.", back in `Ready`: the stack is never
/// flashed.
pub proof fn lemma_three_failed_deletes_abort(
    s0: TabWirelessStack,
    s1: TabWirelessStack,
    s2: TabWirelessStack,
    s3: TabWirelessStack,
    e0: String,
    e1: String,
    e2: String,
    r0: WsAction,
    r1: WsAction,
    r2: WsAction,
)
    requires
        s0.step == FwStep::StepDeleteFW,
        s0.phase == (WsPhase::Deleting { attempt: 0 }),
        command_post(s0, s1, Err(e0), r0),
        command_post(s1, s2, Err(e1), r1),
        command_post(s2, s3, Err(e2), r2),
    ensures
        s1.step == FwStep::StepDeleteFW && s1.phase == (WsPhase::Deleting { attempt: 1 }),
        s2.step == FwStep::StepDeleteFW && s2.phase == (WsPhase::Deleting { attempt: 2 }),
        sends(r0, SerialCommand::Delete, DELETE_PACING_MS),
        sends(r1, SerialCommand::Delete, DELETE_PACING_MS),
        s3.step == FwStep::Ready,
        !s3.is_readonly,
        r2 is Nothing,
        s3.log@.last().is(LogLevel::Error, "Unable to send delete command."@),
{
    let warning = delete_warning_text(2, e2@);
    lemma_extends_last(
        s2.log@ + seq![],
        s3.log@,
        seq![(LogLevel::Warning, warning), (LogLevel::Error, "Unable to send delete command."@)],
    );
}

/// Through `update`, the outcome of a run of the flashing tool decides as
/// `lemma_flash_outcome_decides` says: exit code 0 lets the upgrade go on
/// (after the helper image, to the FUS query), anything else ends the job.
pub proof fn lemma_update_flash_outcome_decides(
    a: TabWirelessStack,
    b: TabWirelessStack,
    res: Result<ProcessResult, String>,
    r: WsAction,
)
    requires
        a.wf(),
        a.phase is Flashing,
        a.step is StepFlashOperator || a.step is StepFlashFUS || a.step is StepFlashFW,
        ws_update_post(a, b, TabWsMessage::FlashDone(res), r),
    ensures
        res matches Ok(p) && p.code == Some(0i32) && a.step is StepFlashOperator ==> b.step
            == FwStep::StepUpgradeFUS,
        res matches Ok(p) && p.code == Some(0i32) ==> b.is_readonly && !(b.step is Ready) && !(r is Nothing),
        !(res matches Ok(p) && p.code == Some(0i32)) ==> b.step == FwStep::Ready && !b.is_readonly && r is Nothing
            && b.log@.last().level() == LogLevel::Error,
{
    lemma_flash_outcome_decides(a, b, res, r);
}

} // verus!
