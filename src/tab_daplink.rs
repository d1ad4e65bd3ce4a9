use vstd::prelude::*;

use crate::log_entries::{
    extends_after, extends_with, lemma_extends_empty, lemma_extends_trans, line, LogLevel, LogType,
};
use crate::log_widget::{lemma_extends_line, LogWidget};
use crate::process::ProcessResult;
use crate::text::{join3, signed_decimal, signed_decimal_string};

verus! {

/// Volume label of the target while it runs its update mode.
pub const MAINTENANCE_DISK_NAME: &'static str = "MAINTENANCE";

/// Accepted range, in seconds, of the wait for a volume.
pub const TIMEOUT_MIN: u64 = 1;
pub const TIMEOUT_MAX: u64 = 30;

pub fn default_target_waiting_time() -> (r: u64)
    ensures
        r == 10,
{
    10
}

/// A wait time brought into `[TIMEOUT_MIN, TIMEOUT_MAX]`.
pub open spec fn clamped(v: u64) -> u64 {
    if v < TIMEOUT_MIN {
        TIMEOUT_MIN
    } else if v > TIMEOUT_MAX {
        TIMEOUT_MAX
    } else {
        v
    }
}

pub fn clamp_timeout(v: u64) -> (r: u64)
    ensures
        r == clamped(v),
{
    if v < TIMEOUT_MIN {
        TIMEOUT_MIN
    } else if v > TIMEOUT_MAX {
        TIMEOUT_MAX
    } else {
        v
    }
}

/// Where the bootloader flash job stands.
#[derive(Clone, Copy, Debug, PartialEq, Eq, Structural)]
pub enum BootStep {
    Idle,
    Unlocking,
    Erasing,
    FlashingBootloader,
    WaitingMaintenanceVolume,
    CopyingFirmware,
    WaitingDeviceVolume,
    CopyingUserFile,
    Done,
    Aborted,
}

impl BootStep {
    /// A job is running: a step of it is waiting for its outcome.
    pub open spec fn in_flight(self) -> bool {
        !(self is Idle || self is Done || self is Aborted)
    }

    pub fn is_in_flight(&self) -> (r: bool)
        ensures
            r == self.in_flight(),
    {
        !matches!(self, BootStep::Idle | BootStep::Done | BootStep::Aborted)
    }
}

/// What the surroundings found out before a start: which input files exist,
/// and whether the flashing tool is installed.
#[derive(Debug)]
pub struct StartChecks {
    pub bootloader_exists: bool,
    pub firmware_exists: bool,
    pub user_file_exists: bool,
    pub tool_installed: Result<bool, String>,
}

/// Events of the bootloader tab: user input, and the outcome of each action.
#[derive(Debug)]
pub enum TabDaplinkMessage {
    LogMessage(LogType),
    BrowseBootloader,
    BrowseFirmware,
    BrowseUserFile,
    SelectBootloader(Option<String>),
    SelectFirmware(Option<String>),
    SelectUserFile(Option<String>),
    InputBootloaderPath(String),
    InputFirmwarePath(String),
    InputUserFilePath(String),
    TimeoutChanged(u64),
    TargetNameChanged(String),
    StartProcess(StartChecks),
    DoneProcess,
    DoneEraseProcess(Result<ProcessResult, String>),
    DoneFlashProcess(Result<ProcessResult, String>),
    DoneUnlockProcess(Result<ProcessResult, String>),
    DoneWaitMaintenanceDisk(bool),
    /// The firmware copy ended; the flag tells whether the user file exists.
    DoneCopyFirmware(Result<(), String>, bool),
    DoneWaitingDeviceDisk(bool),
    DoneCopyUserfile(Result<(), String>),
}

/// Work the tab asks its surroundings to do; its outcome comes back as a message.
#[derive(Debug, Clone)]
pub enum DaplinkAction {
    Nothing,
    SelectFile { current: String, title: &'static str, allow_hex: bool },
    Unlock,
    Erase,
    FlashBootloader { bootloader: String },
    WaitForDrive { name: String, timeout_secs: u64 },
    CopyToDrive { drive: String, file: String },
}

/// State of the bootloader tab and of its flash job.
#[derive(Debug)]
pub struct TabDaplink {
    pub is_readonly: bool,
    pub bootloader_path: String,
    pub firmware_path: String,
    pub user_file_path: String,
    pub target_waiting_time: u64,
    pub target_name: String,
    pub log_widget: LogWidget,
    pub step: BootStep,
}

impl TabDaplink {
    /// Input stays disabled while a job runs, and the wait time is in range.
    pub open spec fn wf(&self) -> bool {
        &&& self.step.in_flight() ==> self.is_readonly
        &&& TIMEOUT_MIN <= self.target_waiting_time <= TIMEOUT_MAX
    }
}

/// The settings of `b` are those of `a`.
pub open spec fn settings_kept(a: TabDaplink, b: TabDaplink) -> bool {
    &&& b.bootloader_path == a.bootloader_path
    &&& b.firmware_path == a.firmware_path
    &&& b.user_file_path == a.user_file_path
    &&& b.target_waiting_time == a.target_waiting_time
    &&& b.target_name == a.target_name
}

/// The job has ended in `outcome` and input is enabled again.
pub open spec fn ends_in(b: TabDaplink, outcome: BootStep) -> bool {
    b.step == outcome && !b.is_readonly
}

/// The job has moved on to `step`, input still disabled.
pub open spec fn moves_to(b: TabDaplink, step: BootStep) -> bool {
    b.step == step && b.is_readonly
}

pub open spec fn is_process_step(s: BootStep) -> bool {
    s is Unlocking || s is Erasing || s is FlashingBootloader
}

/// The name of the tool run of a step, as the error line gives it.
pub open spec fn process_name(s: BootStep) -> Seq<char> {
    match s {
        BootStep::Unlocking => "unlock"@,
        BootStep::Erasing => "erase"@,
        _ => "flash"@,
    }
}

/// The step that follows a successful run of the tool.
pub open spec fn step_after(s: BootStep) -> BootStep {
    match s {
        BootStep::Unlocking => BootStep::Erasing,
        BootStep::Erasing => BootStep::FlashingBootloader,
        _ => BootStep::WaitingMaintenanceVolume,
    }
}

pub open spec fn wait_for_text(name: Seq<char>) -> Seq<char> {
    "Wait for '"@ + name + "' drive"@
}

pub open spec fn copy_to_text(name: Seq<char>) -> Seq<char> {
    "Copy firmware to "@ + name
}

pub open spec fn timeout_text(name: Seq<char>) -> Seq<char> {
    "TIMEOUT : The device '"@ + name + "' was not found."@
}

pub open spec fn copy_failed_text(e: Seq<char>) -> Seq<char> {
    "Copy failed ("@ + e + ")"@
}

/// The title line logged when a step begins.
pub open spec fn step_title(a: TabDaplink, s: BootStep) -> Seq<char> {
    match s {
        BootStep::Unlocking => "Unlock target"@,
        BootStep::Erasing => "Erase target"@,
        BootStep::FlashingBootloader => "Flash bootloader"@,
        BootStep::WaitingMaintenanceVolume => wait_for_text("MAINTENANCE"@),
        BootStep::CopyingFirmware => copy_to_text("MAINTENANCE"@),
        BootStep::WaitingDeviceVolume => wait_for_text(a.target_name@),
        _ => copy_to_text(a.target_name@),
    }
}

/// The two lines logged when a step begins: a blank separator, then its title.
pub open spec fn step_lines(a: TabDaplink, s: BootStep) -> Seq<(LogLevel, Seq<char>)> {
    seq![(LogLevel::InfoNoPrefix, "\n\n"@), (LogLevel::Info, step_title(a, s))]
}

/// `r` is the action that starts step `s`.
pub open spec fn starts_step(a: TabDaplink, s: BootStep, r: DaplinkAction) -> bool {
    match s {
        BootStep::Unlocking => r is Unlock,
        BootStep::Erasing => r is Erase,
        BootStep::FlashingBootloader => r matches DaplinkAction::FlashBootloader { bootloader } && bootloader
            == a.bootloader_path,
        BootStep::WaitingMaintenanceVolume => r matches DaplinkAction::WaitForDrive { name, timeout_secs } && name@
            == "MAINTENANCE"@ && timeout_secs == a.target_waiting_time,
        BootStep::CopyingFirmware => r matches DaplinkAction::CopyToDrive { drive, file } && drive@ == "MAINTENANCE"@
            && file == a.firmware_path,
        BootStep::WaitingDeviceVolume => r matches DaplinkAction::WaitForDrive { name, timeout_secs } && name
            == a.target_name && timeout_secs == a.target_waiting_time,
        BootStep::CopyingUserFile => r matches DaplinkAction::CopyToDrive { drive, file } && drive == a.target_name
            && file == a.user_file_path,
        _ => false,
    }
}

/// From `a` the job has gone on to step `s`: title lines logged after `mid`,
/// the action of `s` asked for.
pub open spec fn advanced(a: TabDaplink, b: TabDaplink, mid: Seq<LogType>, s: BootStep, r: DaplinkAction) -> bool {
    &&& moves_to(b, s)
    &&& extends_after(a.log_widget@, mid, b.log_widget@, step_lines(a, s))
    &&& starts_step(a, s, r)
}

/// From `a` the job has stopped in `outcome` after logging `lines` after `mid`.
pub open spec fn stopped(
    a: TabDaplink,
    b: TabDaplink,
    mid: Seq<LogType>,
    outcome: BootStep,
    lines: Seq<(LogLevel, Seq<char>)>,
    r: DaplinkAction,
) -> bool {
    &&& ends_in(b, outcome)
    &&& extends_after(a.log_widget@, mid, b.log_widget@, lines)
    &&& r is Nothing
}

/// What the outcome of a run of the flashing tool does to the job.
pub open spec fn process_done_post(
    a: TabDaplink,
    b: TabDaplink,
    result: Result<ProcessResult, String>,
    r: DaplinkAction,
) -> bool {
    &&& settings_kept(a, b)
    &&& match result {
        Err(e) => stopped(
            a,
            b,
            seq![],
            BootStep::Aborted,
            line(LogLevel::Error, "Failed to run "@ + process_name(a.step) + " process. Error: "@ + e@),
            r,
        ),
        Ok(res) => match res.code {
            Some(c) => if c == 0 {
                advanced(a, b, res.log@, step_after(a.step), r)
            } else {
                stopped(
                    a,
                    b,
                    res.log@,
                    BootStep::Aborted,
                    line(LogLevel::Warning, "Exit code: "@ + signed_decimal(c as int)),
                    r,
                )
            },
            None => stopped(
                a,
                b,
                res.log@,
                BootStep::Aborted,
                line(LogLevel::Error, "Process terminated by signal."@),
                r,
            ),
        },
    }
}


pub open spec fn bad_bootloader_text() -> Seq<char> {
    "Invalide bootloader file (no such file or directory)"@
}

pub open spec fn bad_firmware_text() -> Seq<char> {
    "Invalide firmware file (no such file or directory)"@
}

pub open spec fn bad_user_file_text() -> Seq<char> {
    "Invalide user file (no such file or directory)."@
}

/// Both required images exist.
pub open spec fn inputs_valid(c: StartChecks) -> bool {
    c.bootloader_exists && c.firmware_exists
}

/// The lines the check of the inputs logs: an error for the first missing
/// required image, or a warning for a named user file that does not exist.
pub open spec fn validation_lines(a: TabDaplink, c: StartChecks) -> Seq<(LogLevel, Seq<char>)> {
    if !c.bootloader_exists {
        line(LogLevel::Error, bad_bootloader_text())
    } else if !c.firmware_exists {
        line(LogLevel::Error, bad_firmware_text())
    } else if a.user_file_path@.len() > 0 && !c.user_file_exists {
        line(LogLevel::Warning, bad_user_file_text())
    } else {
        seq![]
    }
}

/// Only the log of `b` differs from `a`: it has the given lines appended.
pub open spec fn only_logged(a: TabDaplink, b: TabDaplink, lines: Seq<(LogLevel, Seq<char>)>) -> bool {
    &&& settings_kept(a, b)
    &&& b.step == a.step
    &&& b.is_readonly == a.is_readonly
    &&& extends_with(a.log_widget@, b.log_widget@, lines)
}

/// What a start request does: nothing while a job runs; otherwise the inputs
/// are checked, then the tool, and the unlock step begins when both pass.
pub open spec fn start_post(a: TabDaplink, b: TabDaplink, c: StartChecks, r: DaplinkAction) -> bool {
    if a.step.in_flight() {
        b == a && r is Nothing
    } else if !inputs_valid(c) {
        only_logged(a, b, validation_lines(a, c)) && r is Nothing
    } else {
        match c.tool_installed {
            Ok(installed) => if installed {
                &&& settings_kept(a, b)
                &&& moves_to(b, BootStep::Unlocking)
                &&& extends_with(
                    a.log_widget@,
                    b.log_widget@,
                    validation_lines(a, c) + step_lines(a, BootStep::Unlocking),
                )
                &&& r is Unlock
            } else {
                only_logged(
                    a,
                    b,
                    validation_lines(a, c) + line(LogLevel::Error, "OpenOCD is not found"@),
                ) && r is Nothing
            },
            Err(e) => only_logged(
                a,
                b,
                validation_lines(a, c) + line(
                    LogLevel::Error,
                    "Failed to test openocd installation: "@ + e@,
                ),
            ) && r is Nothing,
        }
    }
}

/// `b` is `a` with the settings and the input flag given, log and step kept.
pub open spec fn edited(a: TabDaplink, b: TabDaplink) -> bool {
    b.step == a.step && b.log_widget == a.log_widget
}

/// A user edit: refused while a job runs, else applied as `applied` says.
pub open spec fn edit_post(a: TabDaplink, b: TabDaplink, r: DaplinkAction, applied: bool) -> bool {
    if a.step.in_flight() {
        b == a && r is Nothing
    } else {
        edited(a, b) && applied
    }
}

/// `b` keeps every setting of `a` but the bootloader path.
pub open spec fn keeps_but_bootloader(a: TabDaplink, b: TabDaplink) -> bool {
    b.firmware_path == a.firmware_path && b.user_file_path == a.user_file_path && b.target_waiting_time
        == a.target_waiting_time && b.target_name == a.target_name
}

pub open spec fn keeps_but_firmware(a: TabDaplink, b: TabDaplink) -> bool {
    b.bootloader_path == a.bootloader_path && b.user_file_path == a.user_file_path && b.target_waiting_time
        == a.target_waiting_time && b.target_name == a.target_name
}

pub open spec fn keeps_but_user_file(a: TabDaplink, b: TabDaplink) -> bool {
    b.bootloader_path == a.bootloader_path && b.firmware_path == a.firmware_path && b.target_waiting_time
        == a.target_waiting_time && b.target_name == a.target_name
}

/// A file dialog opens on `current`, input disabled meanwhile.
pub open spec fn browses(
    a: TabDaplink,
    b: TabDaplink,
    r: DaplinkAction,
    current: String,
    title: Seq<char>,
    hex: bool,
) -> bool {
    &&& settings_kept(a, b)
    &&& b.is_readonly
    &&& r matches DaplinkAction::SelectFile { current: c, title: t, allow_hex } && c == current && t@ == title
        && allow_hex == hex
}

/// The picked path, if any, replaces the old one.
pub open spec fn picked(old_path: String, new_path: String, p: Option<String>) -> bool {
    match p {
        Some(x) => new_path == x,
        None => new_path == old_path,
    }
}

/// An outcome that arrives while its step is not current changes nothing.
pub open spec fn outcome_post(a: TabDaplink, b: TabDaplink, r: DaplinkAction, current: bool, post: bool) -> bool {
    if current {
        post
    } else {
        b == a && r is Nothing
    }
}

/// What each message does to the tab, and the action it asks for.
pub open spec fn update_post(a: TabDaplink, b: TabDaplink, m: TabDaplinkMessage, r: DaplinkAction) -> bool {
    match m {
        TabDaplinkMessage::LogMessage(l) => {
            &&& settings_kept(a, b)
            &&& b.step == a.step
            &&& b.is_readonly == a.is_readonly
            &&& b.log_widget@ == a.log_widget@.push(l)
            &&& r is Nothing
        },
        TabDaplinkMessage::BrowseBootloader => edit_post(
            a,
            b,
            r,
            browses(a, b, r, a.bootloader_path, "Select Bootloader file"@, false),
        ),
        TabDaplinkMessage::BrowseFirmware => edit_post(
            a,
            b,
            r,
            browses(a, b, r, a.firmware_path, "Select Firmware file"@, false),
        ),
        TabDaplinkMessage::BrowseUserFile => edit_post(
            a,
            b,
            r,
            browses(a, b, r, a.user_file_path, "Select user program file"@, true),
        ),
        TabDaplinkMessage::SelectBootloader(p) => edit_post(
            a,
            b,
            r,
            keeps_but_bootloader(a, b) && picked(a.bootloader_path, b.bootloader_path, p) && !b.is_readonly
                && r is Nothing,
        ),
        TabDaplinkMessage::SelectFirmware(p) => edit_post(
            a,
            b,
            r,
            keeps_but_firmware(a, b) && picked(a.firmware_path, b.firmware_path, p) && !b.is_readonly
                && r is Nothing,
        ),
        TabDaplinkMessage::SelectUserFile(p) => edit_post(
            a,
            b,
            r,
            keeps_but_user_file(a, b) && picked(a.user_file_path, b.user_file_path, p) && !b.is_readonly
                && r is Nothing,
        ),
        TabDaplinkMessage::InputBootloaderPath(x) => edit_post(
            a,
            b,
            r,
            keeps_but_bootloader(a, b) && b.bootloader_path == x && b.is_readonly == a.is_readonly
                && r is Nothing,
        ),
        TabDaplinkMessage::InputFirmwarePath(x) => edit_post(
            a,
            b,
            r,
            keeps_but_firmware(a, b) && b.firmware_path == x && b.is_readonly == a.is_readonly && r is Nothing,
        ),
        TabDaplinkMessage::InputUserFilePath(x) => edit_post(
            a,
            b,
            r,
            keeps_but_user_file(a, b) && b.user_file_path == x && b.is_readonly == a.is_readonly
                && r is Nothing,
        ),
        TabDaplinkMessage::TimeoutChanged(v) => edit_post(
            a,
            b,
            r,
            b.bootloader_path == a.bootloader_path && b.firmware_path == a.firmware_path && b.user_file_path
                == a.user_file_path && b.target_name == a.target_name && b.target_waiting_time == clamped(v)
                && b.is_readonly == a.is_readonly && r is Nothing,
        ),
        TabDaplinkMessage::TargetNameChanged(x) => edit_post(
            a,
            b,
            r,
            b.bootloader_path == a.bootloader_path && b.firmware_path == a.firmware_path && b.user_file_path
                == a.user_file_path && b.target_waiting_time == a.target_waiting_time && b.target_name == x
                && b.is_readonly == a.is_readonly && r is Nothing,
        ),
        TabDaplinkMessage::StartProcess(c) => start_post(a, b, c, r),
        TabDaplinkMessage::DoneProcess => edit_post(
            a,
            b,
            r,
            settings_kept(a, b) && !b.is_readonly && r is Nothing,
        ),
        TabDaplinkMessage::DoneUnlockProcess(res) => outcome_post(
            a,
            b,
            r,
            a.step is Unlocking,
            process_done_post(a, b, res, r),
        ),
        TabDaplinkMessage::DoneEraseProcess(res) => outcome_post(
            a,
            b,
            r,
            a.step is Erasing,
            process_done_post(a, b, res, r),
        ),
        TabDaplinkMessage::DoneFlashProcess(res) => outcome_post(
            a,
            b,
            r,
            a.step is FlashingBootloader,
            process_done_post(a, b, res, r),
        ),
        TabDaplinkMessage::DoneWaitMaintenanceDisk(found) => outcome_post(
            a,
            b,
            r,
            a.step is WaitingMaintenanceVolume,
            settings_kept(a, b) && if found {
                advanced(a, b, seq![], BootStep::CopyingFirmware, r)
            } else {
                stopped(a, b, seq![], BootStep::Aborted, line(LogLevel::Error, timeout_text("MAINTENANCE"@)), r)
            },
        ),
        TabDaplinkMessage::DoneCopyFirmware(res, user_file_exists) => outcome_post(
            a,
            b,
            r,
            a.step is CopyingFirmware,
            settings_kept(a, b) && match res {
                Ok(_) => if user_file_exists {
                    advanced(a, b, seq![], BootStep::WaitingDeviceVolume, r)
                } else {
                    stopped(a, b, seq![], BootStep::Done, line(LogLevel::Warning, "No user file. Skip."@), r)
                },
                Err(e) => stopped(a, b, seq![], BootStep::Aborted, line(LogLevel::Error, copy_failed_text(e@)), r),
            },
        ),
        TabDaplinkMessage::DoneWaitingDeviceDisk(found) => outcome_post(
            a,
            b,
            r,
            a.step is WaitingDeviceVolume,
            settings_kept(a, b) && if found {
                advanced(a, b, seq![], BootStep::CopyingUserFile, r)
            } else {
                stopped(a, b, seq![], BootStep::Aborted, line(LogLevel::Error, timeout_text(a.target_name@)), r)
            },
        ),
        TabDaplinkMessage::DoneCopyUserfile(res) => outcome_post(
            a,
            b,
            r,
            a.step is CopyingUserFile,
            settings_kept(a, b) && match res {
                Ok(_) => stopped(a, b, seq![], BootStep::Done, line(LogLevel::InfoNoPrefix, "\n\n"@), r),
                Err(e) => stopped(
                    a,
                    b,
                    seq![],
                    BootStep::Aborted,
                    seq![(LogLevel::Error, copy_failed_text(e@)), (LogLevel::InfoNoPrefix, "\n\n"@)],
                    r,
                ),
            },
        ),
    }
}

impl TabDaplink {
    pub fn new(
        bootloader_path: String,
        firmware_path: String,
        user_file_path: String,
        target_waiting_time: u64,
        target_name: String,
    ) -> (r: TabDaplink)
        ensures
            r.bootloader_path == bootloader_path,
            r.firmware_path == firmware_path,
            r.user_file_path == user_file_path,
            r.target_waiting_time == clamped(target_waiting_time),
            r.target_name == target_name,
            r.log_widget@ == Seq::<LogType>::empty(),
            r.step == BootStep::Idle,
            !r.is_readonly,
            r.wf(),
    {
        TabDaplink {
            is_readonly: false,
            bootloader_path,
            firmware_path,
            user_file_path,
            target_waiting_time: clamp_timeout(target_waiting_time),
            target_name,
            log_widget: LogWidget::new(),
            step: BootStep::Idle,
        }
    }

    /// Enters step `s`: logs its two title lines and returns its action.
    fn begin(&mut self, s: BootStep) -> (r: DaplinkAction)
        requires
            s.in_flight(),
        ensures
            settings_kept(*old(self), *final(self)),
            advanced(*old(self), *final(self), seq![], s, r),
    {
        let ghost l0 = self.log_widget@;
        proof {
            lemma_extends_empty(l0);
        }
        let title = match s {
            BootStep::Unlocking => String::from_str("Unlock target"),
            BootStep::Erasing => String::from_str("Erase target"),
            BootStep::FlashingBootloader => String::from_str("Flash bootloader"),
            BootStep::WaitingMaintenanceVolume => join3("Wait for '", MAINTENANCE_DISK_NAME, "' drive"),
            BootStep::CopyingFirmware => String::from_str("Copy firmware to ").concat(MAINTENANCE_DISK_NAME),
            BootStep::WaitingDeviceVolume => join3("Wait for '", self.target_name.as_str(), "' drive"),
            _ => String::from_str("Copy firmware to ").concat(self.target_name.as_str()),
        };
        let ghost t = title@;
        self.log_widget.push_line(LogLevel::InfoNoPrefix, String::from_str("\n\n"));
        let ghost l1 = self.log_widget@;
        proof {
            lemma_extends_line(l0, l0, l1, seq![], LogLevel::InfoNoPrefix, "\n\n"@);
        }
        self.log_widget.push_line(LogLevel::Info, title);
        proof {
            lemma_extends_line(l0, l1, self.log_widget@, seq![(LogLevel::InfoNoPrefix, "\n\n"@)], LogLevel::Info, t);
        }
        self.step = s;
        self.is_readonly = true;
        match s {
            BootStep::Unlocking => DaplinkAction::Unlock,
            BootStep::Erasing => DaplinkAction::Erase,
            BootStep::FlashingBootloader => DaplinkAction::FlashBootloader { bootloader: self.bootloader_path.clone() },
            BootStep::WaitingMaintenanceVolume => DaplinkAction::WaitForDrive {
                name: String::from_str(MAINTENANCE_DISK_NAME),
                timeout_secs: self.target_waiting_time,
            },
            BootStep::CopyingFirmware => DaplinkAction::CopyToDrive {
                drive: String::from_str(MAINTENANCE_DISK_NAME),
                file: self.firmware_path.clone(),
            },
            BootStep::WaitingDeviceVolume => DaplinkAction::WaitForDrive {
                name: self.target_name.clone(),
                timeout_secs: self.target_waiting_time,
            },
            _ => DaplinkAction::CopyToDrive { drive: self.target_name.clone(), file: self.user_file_path.clone() },
        }
    }

    /// Logs one line of the given severity, ends the job in `outcome`.
    fn stop(&mut self, outcome: BootStep, level: LogLevel, text: String) -> (r: DaplinkAction)
        requires
            !outcome.in_flight(),
        ensures
            settings_kept(*old(self), *final(self)),
            stopped(*old(self), *final(self), seq![], outcome, line(level, text@), r),
    {
        let ghost l0 = self.log_widget@;
        let ghost t = text@;
        proof {
            lemma_extends_empty(l0);
        }
        self.log_widget.push_line(level, text);
        proof {
            lemma_extends_line(l0, l0, self.log_widget@, seq![], level, t);
        }
        self.step = outcome;
        self.is_readonly = false;
        DaplinkAction::Nothing
    }

    /// Handles the outcome of a run of the flashing tool: on exit code 0 the
    /// job goes on to the next step; otherwise it stops, with a warning for a
    /// nonzero code and an error for a run ended by a signal or not started.
    pub fn on_process_done(&mut self, result: Result<ProcessResult, String>) -> (r: DaplinkAction)
        requires
            is_process_step(old(self).step),
        ensures
            process_done_post(*old(self), *final(self), result, r),
    {
        match result {
            Err(e) => {
                let name = match self.step {
                    BootStep::Unlocking => "unlock",
                    BootStep::Erasing => "erase",
                    _ => "flash",
                };
                let msg = join3("Failed to run ", name, " process. Error: ").concat(e.as_str());
                self.stop(BootStep::Aborted, LogLevel::Error, msg)
            },
            Ok(res) => {
                let ProcessResult { code, log } = res;
                let mut log = log;
                self.log_widget.from_log_entries(&mut log);
                let ghost l1 = self.log_widget@;
                let r = match code {
                    Some(c) => {
                        if c == 0 {
                            let next = match self.step {
                                BootStep::Unlocking => BootStep::Erasing,
                                BootStep::Erasing => BootStep::FlashingBootloader,
                                _ => BootStep::WaitingMaintenanceVolume,
                            };
                            self.begin(next)
                        } else {
                            let msg = String::from_str("Exit code: ").concat(signed_decimal_string(c).as_str());
                            self.stop(BootStep::Aborted, LogLevel::Warning, msg)
                        }
                    },
                    None => self.stop(BootStep::Aborted, LogLevel::Error, String::from_str("Process terminated by signal.")),
                };
                proof {
                    lemma_extends_empty(l1);
                }
                r
            },
        }
    }

    /// Handles the end of a wait for a volume: found, the copy onto it
    /// begins; not found, the job stops with a timeout error naming it.
    pub fn on_drive_wait_done(&mut self, found: bool) -> (r: DaplinkAction)
        requires
            old(self).step is WaitingMaintenanceVolume || old(self).step is WaitingDeviceVolume,
        ensures
            settings_kept(*old(self), *final(self)),
            found && old(self).step is WaitingMaintenanceVolume ==> advanced(
                *old(self),
                *final(self),
                seq![],
                BootStep::CopyingFirmware,
                r,
            ),
            found && old(self).step is WaitingDeviceVolume ==> advanced(
                *old(self),
                *final(self),
                seq![],
                BootStep::CopyingUserFile,
                r,
            ),
            !found && old(self).step is WaitingMaintenanceVolume ==> stopped(
                *old(self),
                *final(self),
                seq![],
                BootStep::Aborted,
                line(LogLevel::Error, timeout_text("MAINTENANCE"@)),
                r,
            ),
            !found && old(self).step is WaitingDeviceVolume ==> stopped(
                *old(self),
                *final(self),
                seq![],
                BootStep::Aborted,
                line(LogLevel::Error, timeout_text(old(self).target_name@)),
                r,
            ),
    {
        let maintenance = matches!(self.step, BootStep::WaitingMaintenanceVolume);
        if found {
            if maintenance {
                self.begin(BootStep::CopyingFirmware)
            } else {
                self.begin(BootStep::CopyingUserFile)
            }
        } else {
            let msg = if maintenance {
                join3("TIMEOUT : The device '", MAINTENANCE_DISK_NAME, "' was not found.")
            } else {
                join3("TIMEOUT : The device '", self.target_name.as_str(), "' was not found.")
            };
            self.stop(BootStep::Aborted, LogLevel::Error, msg)
        }
    }

    /// Handles the end of the firmware copy: with a user file, the wait for
    /// the target's own volume begins; without one the job is done, with a
    /// warning; a failed copy stops the job.
    pub fn on_copy_firmware_done(&mut self, result: Result<(), String>, user_file_exists: bool) -> (r: DaplinkAction)
        requires
            old(self).step is CopyingFirmware,
        ensures
            settings_kept(*old(self), *final(self)),
            result is Ok && user_file_exists ==> advanced(
                *old(self),
                *final(self),
                seq![],
                BootStep::WaitingDeviceVolume,
                r,
            ),
            result is Ok && !user_file_exists ==> stopped(
                *old(self),
                *final(self),
                seq![],
                BootStep::Done,
                line(LogLevel::Warning, "No user file. Skip."@),
                r,
            ),
            result matches Err(e) ==> stopped(
                *old(self),
                *final(self),
                seq![],
                BootStep::Aborted,
                line(LogLevel::Error, copy_failed_text(e@)),
                r,
            ),
    {
        match result {
            Ok(_) => {
                if user_file_exists {
                    self.begin(BootStep::WaitingDeviceVolume)
                } else {
                    self.stop(BootStep::Done, LogLevel::Warning, String::from_str("No user file. Skip."))
                }
            },
            Err(e) => self.stop(BootStep::Aborted, LogLevel::Error, join3("Copy failed (", e.as_str(), ")")),
        }
    }

    /// Handles the end of the user-file copy: the job is over, with an error
    /// line first when the copy failed, and a blank separator last.
    pub fn on_copy_user_file_done(&mut self, result: Result<(), String>) -> (r: DaplinkAction)
        requires
            old(self).step is CopyingUserFile,
        ensures
            settings_kept(*old(self), *final(self)),
            result is Ok ==> stopped(
                *old(self),
                *final(self),
                seq![],
                BootStep::Done,
                line(LogLevel::InfoNoPrefix, "\n\n"@),
                r,
            ),
            result matches Err(e) ==> stopped(
                *old(self),
                *final(self),
                seq![],
                BootStep::Aborted,
                seq![(LogLevel::Error, copy_failed_text(e@)), (LogLevel::InfoNoPrefix, "\n\n"@)],
                r,
            ),
    {
        match result {
            Ok(_) => self.stop(BootStep::Done, LogLevel::InfoNoPrefix, String::from_str("\n\n")),
            Err(e) => {
                let ghost l0 = self.log_widget@;
                let msg = join3("Copy failed (", e.as_str(), ")");
                let ghost t = msg@;
                proof {
                    lemma_extends_empty(l0);
                }
                self.log_widget.push_line(LogLevel::Error, msg);
                let ghost l1 = self.log_widget@;
                proof {
                    lemma_extends_line(l0, l0, l1, seq![], LogLevel::Error, t);
                }
                self.log_widget.push_line(LogLevel::InfoNoPrefix, String::from_str("\n\n"));
                proof {
                    lemma_extends_line(
                        l0,
                        l1,
                        self.log_widget@,
                        seq![(LogLevel::Error, t)],
                        LogLevel::InfoNoPrefix,
                        "\n\n"@,
                    );
                }
                self.step = BootStep::Aborted;
                self.is_readonly = false;
                DaplinkAction::Nothing
            },
        }
    }

    /// Checks that the required images exist, logging what is wrong.
    pub fn validate_fields(&mut self, checks: &StartChecks) -> (r: bool)
        ensures
            r == inputs_valid(*checks),
            only_logged(*old(self), *final(self), validation_lines(*old(self), *checks)),
    {
        let ghost l0 = self.log_widget@;
        proof {
            lemma_extends_empty(l0);
        }
        if !checks.bootloader_exists {
            self.log_widget.push_line(
                LogLevel::Error,
                String::from_str("Invalide bootloader file (no such file or directory)"),
            );
            proof {
                lemma_extends_line(l0, l0, self.log_widget@, seq![], LogLevel::Error, bad_bootloader_text());
            }
            return false;
        }
        if !checks.firmware_exists {
            self.log_widget.push_line(
                LogLevel::Error,
                String::from_str("Invalide firmware file (no such file or directory)"),
            );
            proof {
                lemma_extends_line(l0, l0, self.log_widget@, seq![], LogLevel::Error, bad_firmware_text());
            }
            return false;
        }
        if self.user_file_path.as_str().unicode_len() > 0 && !checks.user_file_exists {
            self.log_widget.push_line(
                LogLevel::Warning,
                String::from_str("Invalide user file (no such file or directory)."),
            );
            proof {
                lemma_extends_line(l0, l0, self.log_widget@, seq![], LogLevel::Warning, bad_user_file_text());
            }
        }
        true
    }

    /// Starts a flash job, unless one is running or a check fails.
    pub fn start(&mut self, checks: StartChecks) -> (r: DaplinkAction)
        ensures
            start_post(*old(self), *final(self), checks, r),
    {
        if self.step.is_in_flight() {
            return DaplinkAction::Nothing;
        }
        let ghost a = *self;
        if !self.validate_fields(&checks) {
            return DaplinkAction::Nothing;
        }
        let ghost m = *self;
        let ghost vl = validation_lines(a, checks);
        match checks.tool_installed {
            Ok(installed) => {
                if installed {
                    let r = self.begin(BootStep::Unlocking);
                    proof {
                        lemma_extends_empty(m.log_widget@);
                        lemma_extends_trans(
                            a.log_widget@,
                            m.log_widget@,
                            self.log_widget@,
                            vl,
                            step_lines(m, BootStep::Unlocking),
                        );
                    }
                    r
                } else {
                    self.log_widget.push_line(LogLevel::Error, String::from_str("OpenOCD is not found"));
                    proof {
                        lemma_extends_line(
                            a.log_widget@,
                            m.log_widget@,
                            self.log_widget@,
                            vl,
                            LogLevel::Error,
                            "OpenOCD is not found"@,
                        );
                        assert(vl.push((LogLevel::Error, "OpenOCD is not found"@)) =~= vl + line(
                            LogLevel::Error,
                            "OpenOCD is not found"@,
                        ));
                    }
                    DaplinkAction::Nothing
                }
            },
            Err(e) => {
                let msg = String::from_str("Failed to test openocd installation: ").concat(e.as_str());
                let ghost t = msg@;
                self.log_widget.push_line(LogLevel::Error, msg);
                proof {
                    lemma_extends_line(a.log_widget@, m.log_widget@, self.log_widget@, vl, LogLevel::Error, t);
                    assert(vl.push((LogLevel::Error, t)) =~= vl + line(LogLevel::Error, t));
                }
                DaplinkAction::Nothing
            },
        }
    }

    /// Applies one message to the tab and returns the action it asks for.
    pub fn update(&mut self, message: TabDaplinkMessage) -> (r: DaplinkAction)
        ensures
            update_post(*old(self), *final(self), message, r),
            old(self).wf() ==> final(self).wf(),
    {
        let busy = self.step.is_in_flight();
        match message {
            TabDaplinkMessage::LogMessage(l) => {
                self.log_widget.push(l);
                DaplinkAction::Nothing
            },
            TabDaplinkMessage::BrowseBootloader => {
                if busy {
                    return DaplinkAction::Nothing;
                }
                self.is_readonly = true;
                DaplinkAction::SelectFile {
                    current: self.bootloader_path.clone(),
                    title: "Select Bootloader file",
                    allow_hex: false,
                }
            },
            TabDaplinkMessage::BrowseFirmware => {
                if busy {
                    return DaplinkAction::Nothing;
                }
                self.is_readonly = true;
                DaplinkAction::SelectFile {
                    current: self.firmware_path.clone(),
                    title: "Select Firmware file",
                    allow_hex: false,
                }
            },
            TabDaplinkMessage::BrowseUserFile => {
                if busy {
                    return DaplinkAction::Nothing;
                }
                self.is_readonly = true;
                DaplinkAction::SelectFile {
                    current: self.user_file_path.clone(),
                    title: "Select user program file",
                    allow_hex: true,
                }
            },
            TabDaplinkMessage::SelectBootloader(p) => {
                if busy {
                    return DaplinkAction::Nothing;
                }
                if let Some(p) = p {
                    self.bootloader_path = p;
                }
                self.is_readonly = false;
                DaplinkAction::Nothing
            },
            TabDaplinkMessage::SelectFirmware(p) => {
                if busy {
                    return DaplinkAction::Nothing;
                }
                if let Some(p) = p {
                    self.firmware_path = p;
                }
                self.is_readonly = false;
                DaplinkAction::Nothing
            },
            TabDaplinkMessage::SelectUserFile(p) => {
                if busy {
                    return DaplinkAction::Nothing;
                }
                if let Some(p) = p {
                    self.user_file_path = p;
                }
                self.is_readonly = false;
                DaplinkAction::Nothing
            },
            TabDaplinkMessage::InputBootloaderPath(x) => {
                if !busy {
                    self.bootloader_path = x;
                }
                DaplinkAction::Nothing
            },
            TabDaplinkMessage::InputFirmwarePath(x) => {
                if !busy {
                    self.firmware_path = x;
                }
                DaplinkAction::Nothing
            },
            TabDaplinkMessage::InputUserFilePath(x) => {
                if !busy {
                    self.user_file_path = x;
                }
                DaplinkAction::Nothing
            },
            TabDaplinkMessage::TimeoutChanged(v) => {
                if !busy {
                    self.target_waiting_time = clamp_timeout(v);
                }
                DaplinkAction::Nothing
            },
            TabDaplinkMessage::TargetNameChanged(x) => {
                if !busy {
                    self.target_name = x;
                }
                DaplinkAction::Nothing
            },
            TabDaplinkMessage::StartProcess(c) => self.start(c),
            TabDaplinkMessage::DoneProcess => {
                if !busy {
                    self.is_readonly = false;
                }
                DaplinkAction::Nothing
            },
            TabDaplinkMessage::DoneUnlockProcess(res) => {
                if matches!(self.step, BootStep::Unlocking) {
                    self.on_process_done(res)
                } else {
                    DaplinkAction::Nothing
                }
            },
            TabDaplinkMessage::DoneEraseProcess(res) => {
                if matches!(self.step, BootStep::Erasing) {
                    self.on_process_done(res)
                } else {
                    DaplinkAction::Nothing
                }
            },
            TabDaplinkMessage::DoneFlashProcess(res) => {
                if matches!(self.step, BootStep::FlashingBootloader) {
                    self.on_process_done(res)
                } else {
                    DaplinkAction::Nothing
                }
            },
            TabDaplinkMessage::DoneWaitMaintenanceDisk(found) => {
                if matches!(self.step, BootStep::WaitingMaintenanceVolume) {
                    self.on_drive_wait_done(found)
                } else {
                    DaplinkAction::Nothing
                }
            },
            TabDaplinkMessage::DoneCopyFirmware(res, user_file_exists) => {
                if matches!(self.step, BootStep::CopyingFirmware) {
                    self.on_copy_firmware_done(res, user_file_exists)
                } else {
                    DaplinkAction::Nothing
                }
            },
            TabDaplinkMessage::DoneWaitingDeviceDisk(found) => {
                if matches!(self.step, BootStep::WaitingDeviceVolume) {
                    self.on_drive_wait_done(found)
                } else {
                    DaplinkAction::Nothing
                }
            },
            TabDaplinkMessage::DoneCopyUserfile(res) => {
                if matches!(self.step, BootStep::CopyingUserFile) {
                    self.on_copy_user_file_done(res)
                } else {
                    DaplinkAction::Nothing
                }
            },
        }
    }
}

/// A run of the flashing tool that exits with code 0 moves the job on to the
/// next step; one that exits with another code stops it, input enabled
/// again, with a warning as its last line; one ended by a signal stops it
/// with an error as its last line.
pub proof fn lemma_exit_code_decides(a: TabDaplink, b: TabDaplink, res: ProcessResult, r: DaplinkAction)
    requires
        is_process_step(a.step),
        process_done_post(a, b, Ok(res), r),
    ensures
        res.code == Some(0i32) ==> b.step == step_after(a.step) && b.step.in_flight() && b.is_readonly,
        res.code != Some(0i32) ==> b.step == BootStep::Aborted && !b.step.in_flight() && !b.is_readonly,
        res.code matches Some(c) && c != 0 ==> b.log_widget@.last().level() == LogLevel::Warning,
        res.code is None ==> b.log_widget@.last().level() == LogLevel::Error,
{
    if res.code != Some(0i32) {
        crate::log_entries::lemma_extends_last(
            a.log_widget@ + res.log@,
            b.log_widget@,
            if res.code is None {
                line(LogLevel::Error, "Process terminated by signal."@)
            } else {
                line(LogLevel::Warning, "Exit code: "@ + signed_decimal(res.code->Some_0 as int))
            },
        );
    }
}

/// The message that reports the outcome of the tool run of step `s`.
pub open spec fn tool_outcome(s: BootStep, res: Result<ProcessResult, String>) -> TabDaplinkMessage {
    match s {
        BootStep::Unlocking => TabDaplinkMessage::DoneUnlockProcess(res),
        BootStep::Erasing => TabDaplinkMessage::DoneEraseProcess(res),
        _ => TabDaplinkMessage::DoneFlashProcess(res),
    }
}

/// In a tool step, the tool's exit code decides through `update`: code 0
/// starts the next step and asks for its action; any other code, or a run
/// ended by a signal, aborts the job with no action, after the tool's lines
/// and a warning (other code) or an error (signal).
pub proof fn lemma_update_exit_code_decides(a: TabDaplink, b: TabDaplink, res: ProcessResult, r: DaplinkAction)
    requires
        a.wf(),
        is_process_step(a.step),
        update_post(a, b, tool_outcome(a.step, Ok(res)), r),
    ensures
        res.code == Some(0i32) ==> b.step == step_after(a.step) && b.is_readonly && starts_step(
            a,
            step_after(a.step),
            r,
        ),
        res.code != Some(0i32) ==> b.step == BootStep::Aborted && !b.is_readonly && r is Nothing,
        res.code is Some && res.code->Some_0 != 0 ==> b.log_widget@.last().is(
            LogLevel::Warning,
            "Exit code: "@ + signed_decimal(res.code->Some_0 as int),
        ),
        res.code is None ==> b.log_widget@.last().is(LogLevel::Error, "Process terminated by signal."@),
{
    assert(process_done_post(a, b, Ok(res), r));
    lemma_exit_code_decides(a, b, res, r);
    if res.code != Some(0i32) {
        crate::log_entries::lemma_extends_last(
            a.log_widget@ + res.log@,
            b.log_widget@,
            if res.code is None {
                line(LogLevel::Error, "Process terminated by signal."@)
            } else {
                line(LogLevel::Warning, "Exit code: "@ + signed_decimal(res.code->Some_0 as int))
            },
        );
    }
}

/// When the firmware copy succeeds and there is no user file, the job is
/// done with the warning "No user file. Skip." as its one new line, and no
/// wait for the target's own volume begins.
pub proof fn lemma_no_user_file_ends_done(a: TabDaplink, b: TabDaplink, r: DaplinkAction)
    requires
        a.step is CopyingFirmware,
        update_post(a, b, TabDaplinkMessage::DoneCopyFirmware(Ok(()), false), r),
    ensures
        b.step == BootStep::Done,
        !b.is_readonly,
        r is Nothing,
        b.log_widget@.len() == a.log_widget@.len() + 1,
        b.log_widget@.last().is(LogLevel::Warning, "No user file. Skip."@),
{
    lemma_extends_empty(a.log_widget@);
    crate::log_entries::lemma_extends_last(
        a.log_widget@ + seq![],
        b.log_widget@,
        line(LogLevel::Warning, "No user file. Skip."@),
    );
}

/// When the maintenance volume does not appear in time, the job aborts with
/// one error line "TIMEOUT : The device 'MAINTENANCE' was not found." and no
/// copy is asked for.
pub proof fn lemma_maintenance_timeout_aborts(a: TabDaplink, b: TabDaplink, r: DaplinkAction)
    requires
        a.step is WaitingMaintenanceVolume,
        update_post(a, b, TabDaplinkMessage::DoneWaitMaintenanceDisk(false), r),
    ensures
        b.step == BootStep::Aborted,
        !b.is_readonly,
        r is Nothing,
        b.log_widget@.len() == a.log_widget@.len() + 1,
        b.log_widget@.last().is(LogLevel::Error, timeout_text("MAINTENANCE"@)),
{
    lemma_extends_empty(a.log_widget@);
    crate::log_entries::lemma_extends_last(
        a.log_widget@ + seq![],
        b.log_widget@,
        line(LogLevel::Error, timeout_text("MAINTENANCE"@)),
    );
}

} // verus!
