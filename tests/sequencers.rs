use daplink_easyflash::log_entries::{LogEntries, LogType};
use daplink_easyflash::messages::WithLogMessage;
use daplink_easyflash::operator_tool::{OperatorResult, OperatorVersionResult};
use daplink_easyflash::process::ProcessResult;
use daplink_easyflash::serial_ports::SerialPortInfo;
use daplink_easyflash::stackfile_config::WirelessStackFile;
use daplink_easyflash::tab_daplink::{
    default_target_waiting_time, BootStep, DaplinkAction, StartChecks, TabDaplink, TabDaplinkMessage,
};
use daplink_easyflash::tab_wireless_stack::{
    FwStep, SerialCommand, TabWirelessStack, TabWsMessage, WsAction, WsPhase,
};

fn lines(entries: &LogEntries) -> Vec<(String, String)> {
    entries
        .as_deque()
        .iter()
        .map(|e| match e {
            LogType::InfoNoPrefix(s) => ("plain".to_string(), s.clone()),
            LogType::Info(s) => ("info".to_string(), s.clone()),
            LogType::Warning(s) => ("warning".to_string(), s.clone()),
            LogType::Error(s) => ("error".to_string(), s.clone()),
        })
        .collect()
}

fn exit(code: Option<i32>) -> Result<ProcessResult, String> {
    let mut log = LogEntries::new();
    log.push(LogType::Info("    tool output".to_string()));
    Ok(ProcessResult { code, log })
}

fn checks(boot: bool, fw: bool, user: bool) -> StartChecks {
    StartChecks {
        bootloader_exists: boot,
        firmware_exists: fw,
        user_file_exists: user,
        tool_installed: Ok(true),
    }
}

fn daplink(user_file: &str, timeout: u64) -> TabDaplink {
    TabDaplink::new(
        "/img/boot.bin".to_string(),
        "/img/fw.bin".to_string(),
        user_file.to_string(),
        timeout,
        "STEAMI".to_string(),
    )
}

fn run_to_maintenance_wait(tab: &mut TabDaplink) {
    assert!(matches!(tab.update(TabDaplinkMessage::StartProcess(checks(true, true, false))), DaplinkAction::Unlock));
    assert!(matches!(tab.update(TabDaplinkMessage::DoneUnlockProcess(exit(Some(0)))), DaplinkAction::Erase));
    match tab.update(TabDaplinkMessage::DoneEraseProcess(exit(Some(0)))) {
        DaplinkAction::FlashBootloader { bootloader } => assert_eq!(bootloader, "/img/boot.bin"),
        other => panic!("unexpected action {:?}", other),
    }
    match tab.update(TabDaplinkMessage::DoneFlashProcess(exit(Some(0)))) {
        DaplinkAction::WaitForDrive { name, timeout_secs } => {
            assert_eq!(name, "MAINTENANCE");
            assert_eq!(timeout_secs, tab.target_waiting_time);
        }
        other => panic!("unexpected action {:?}", other),
    }
    assert_eq!(tab.step, BootStep::WaitingMaintenanceVolume);
    assert!(tab.is_readonly);
}

#[test]
fn bootloader_job_without_user_file_ends_done_with_a_warning() {
    let mut tab = daplink("/img/missing.hex", 10);
    run_to_maintenance_wait(&mut tab);
    match tab.update(TabDaplinkMessage::DoneWaitMaintenanceDisk(true)) {
        DaplinkAction::CopyToDrive { drive, file } => {
            assert_eq!(drive, "MAINTENANCE");
            assert_eq!(file, "/img/fw.bin");
        }
        other => panic!("unexpected action {:?}", other),
    }
    let r = tab.update(TabDaplinkMessage::DoneCopyFirmware(Ok(()), false));
    assert!(matches!(r, DaplinkAction::Nothing));
    assert_eq!(tab.step, BootStep::Done);
    assert!(!tab.is_readonly);
    let log = lines(tab.log_widget.entries());
    assert_eq!(log.last().unwrap(), &("warning".to_string(), "No user file. Skip.".to_string()));
    assert!(!log.iter().any(|(_, t)| t == "Wait for 'STEAMI' drive"));
}

#[test]
fn maintenance_volume_timeout_aborts_without_copy() {
    let mut tab = daplink("", 5);
    run_to_maintenance_wait(&mut tab);
    let r = tab.update(TabDaplinkMessage::DoneWaitMaintenanceDisk(false));
    assert!(matches!(r, DaplinkAction::Nothing));
    assert_eq!(tab.step, BootStep::Aborted);
    assert!(!tab.is_readonly);
    let log = lines(tab.log_widget.entries());
    let (level, text) = log.last().unwrap();
    assert_eq!(level, "error");
    assert!(text.contains("TIMEOUT"));
    assert!(text.contains("MAINTENANCE"));
    assert_eq!(text, "TIMEOUT : The device 'MAINTENANCE' was not found.");
    assert!(!log.iter().any(|(_, t)| t.starts_with("Copy firmware")));
    let late = tab.update(TabDaplinkMessage::DoneCopyFirmware(Ok(()), true));
    assert!(matches!(late, DaplinkAction::Nothing));
    assert_eq!(tab.step, BootStep::Aborted);
}

#[test]
fn bootloader_job_with_user_file_copies_it_to_the_target() {
    let mut tab = daplink("/img/app.hex", 10);
    run_to_maintenance_wait(&mut tab);
    tab.update(TabDaplinkMessage::DoneWaitMaintenanceDisk(true));
    match tab.update(TabDaplinkMessage::DoneCopyFirmware(Ok(()), true)) {
        DaplinkAction::WaitForDrive { name, timeout_secs } => {
            assert_eq!(name, "STEAMI");
            assert_eq!(timeout_secs, 10);
        }
        other => panic!("unexpected action {:?}", other),
    }
    match tab.update(TabDaplinkMessage::DoneWaitingDeviceDisk(true)) {
        DaplinkAction::CopyToDrive { drive, file } => {
            assert_eq!(drive, "STEAMI");
            assert_eq!(file, "/img/app.hex");
        }
        other => panic!("unexpected action {:?}", other),
    }
    tab.update(TabDaplinkMessage::DoneCopyUserfile(Ok(())));
    assert_eq!(tab.step, BootStep::Done);
    assert!(!tab.is_readonly);
}

#[test]
fn nonzero_exit_aborts_with_warning() {
    let mut tab = daplink("", 10);
    tab.update(TabDaplinkMessage::StartProcess(checks(true, true, false)));
    let r = tab.update(TabDaplinkMessage::DoneUnlockProcess(exit(Some(1))));
    assert!(matches!(r, DaplinkAction::Nothing));
    assert_eq!(tab.step, BootStep::Aborted);
    assert!(!tab.is_readonly);
    let log = lines(tab.log_widget.entries());
    assert_eq!(log[log.len() - 2], ("info".to_string(), "    tool output".to_string()));
    assert_eq!(log.last().unwrap(), &("warning".to_string(), "Exit code: 1".to_string()));
}

#[test]
fn signal_exit_aborts_with_error() {
    let mut tab = daplink("", 10);
    tab.update(TabDaplinkMessage::StartProcess(checks(true, true, false)));
    tab.update(TabDaplinkMessage::DoneUnlockProcess(exit(Some(0))));
    let r = tab.update(TabDaplinkMessage::DoneEraseProcess(exit(None)));
    assert!(matches!(r, DaplinkAction::Nothing));
    assert_eq!(tab.step, BootStep::Aborted);
    let log = lines(tab.log_widget.entries());
    assert_eq!(log.last().unwrap(), &("error".to_string(), "Process terminated by signal.".to_string()));
}

#[test]
fn spawn_failure_aborts_with_error() {
    let mut tab = daplink("", 10);
    tab.update(TabDaplinkMessage::StartProcess(checks(true, true, false)));
    tab.update(TabDaplinkMessage::DoneUnlockProcess(exit(Some(0))));
    tab.update(TabDaplinkMessage::DoneEraseProcess(exit(Some(0))));
    tab.update(TabDaplinkMessage::DoneFlashProcess(Err("No such file".to_string())));
    assert_eq!(tab.step, BootStep::Aborted);
    let log = lines(tab.log_widget.entries());
    assert_eq!(
        log.last().unwrap(),
        &("error".to_string(), "Failed to run flash process. Error: No such file".to_string())
    );
}

#[test]
fn start_is_refused_for_missing_images() {
    let mut tab = daplink("", 10);
    let r = tab.update(TabDaplinkMessage::StartProcess(checks(false, true, true)));
    assert!(matches!(r, DaplinkAction::Nothing));
    assert_eq!(tab.step, BootStep::Idle);
    assert!(!tab.is_readonly);
    let r = tab.update(TabDaplinkMessage::StartProcess(checks(true, false, true)));
    assert!(matches!(r, DaplinkAction::Nothing));
    let log = lines(tab.log_widget.entries());
    assert_eq!(
        log,
        vec![
            ("error".to_string(), "Invalide bootloader file (no such file or directory)".to_string()),
            ("error".to_string(), "Invalide firmware file (no such file or directory)".to_string())
        ]
    );
}

#[test]
fn start_checks_the_tool() {
    let mut tab = daplink("", 10);
    let mut c = checks(true, true, false);
    c.tool_installed = Ok(false);
    assert!(matches!(tab.update(TabDaplinkMessage::StartProcess(c)), DaplinkAction::Nothing));
    let mut c = checks(true, true, false);
    c.tool_installed = Err("permission denied".to_string());
    assert!(matches!(tab.update(TabDaplinkMessage::StartProcess(c)), DaplinkAction::Nothing));
    let log = lines(tab.log_widget.entries());
    assert_eq!(
        log,
        vec![
            ("error".to_string(), "OpenOCD is not found".to_string()),
            ("error".to_string(), "Failed to test openocd installation: permission denied".to_string())
        ]
    );
    assert_eq!(tab.step, BootStep::Idle);
}

#[test]
fn missing_user_file_only_warns_at_start() {
    let mut tab = daplink("/img/missing.hex", 10);
    assert!(matches!(tab.update(TabDaplinkMessage::StartProcess(checks(true, true, false))), DaplinkAction::Unlock));
    let log = lines(tab.log_widget.entries());
    assert_eq!(
        log,
        vec![
            ("warning".to_string(), "Invalide user file (no such file or directory).".to_string()),
            ("plain".to_string(), "\n\n".to_string()),
            ("info".to_string(), "Unlock target".to_string())
        ]
    );
}

#[test]
fn second_start_while_running_is_ignored() {
    let mut tab = daplink("", 10);
    tab.update(TabDaplinkMessage::StartProcess(checks(true, true, false)));
    let before = lines(tab.log_widget.entries()).len();
    let r = tab.update(TabDaplinkMessage::StartProcess(checks(true, true, false)));
    assert!(matches!(r, DaplinkAction::Nothing));
    assert_eq!(tab.step, BootStep::Unlocking);
    assert_eq!(lines(tab.log_widget.entries()).len(), before);
    tab.update(TabDaplinkMessage::TargetNameChanged("OTHER".to_string()));
    assert_eq!(tab.target_name, "STEAMI");
}

#[test]
fn timeout_is_clamped() {
    let mut tab = daplink("", 10);
    assert_eq!(default_target_waiting_time(), 10);
    tab.update(TabDaplinkMessage::TimeoutChanged(0));
    assert_eq!(tab.target_waiting_time, 1);
    tab.update(TabDaplinkMessage::TimeoutChanged(31));
    assert_eq!(tab.target_waiting_time, 30);
    tab.update(TabDaplinkMessage::TimeoutChanged(12));
    assert_eq!(tab.target_waiting_time, 12);
    assert_eq!(daplink("", 100).target_waiting_time, 30);
}

#[test]
fn browse_and_select_files() {
    let mut tab = daplink("", 10);
    match tab.update(TabDaplinkMessage::BrowseUserFile) {
        DaplinkAction::SelectFile { current, title, allow_hex } => {
            assert_eq!(current, "");
            assert_eq!(title, "Select user program file");
            assert!(allow_hex);
        }
        other => panic!("unexpected action {:?}", other),
    }
    assert!(tab.is_readonly);
    tab.update(TabDaplinkMessage::SelectUserFile(Some("/img/u.hex".to_string())));
    assert!(!tab.is_readonly);
    assert_eq!(tab.user_file_path, "/img/u.hex");
    tab.update(TabDaplinkMessage::SelectFirmware(None));
    assert_eq!(tab.firmware_path, "/img/fw.bin");
    tab.update(TabDaplinkMessage::InputBootloaderPath("/b.bin".to_string()));
    assert_eq!(tab.bootloader_path, "/b.bin");
}

fn ws_tab() -> TabWirelessStack {
    let mut tab =
        TabWirelessStack::new(vec![SerialPortInfo::new("/dev/ttyACM0".to_string(), Some("STeaMi".to_string()))]);
    assert!(tab.serial_selected.is_none());
    tab.update(TabWsMessage::SerialSelected(SerialPortInfo::new(
        "/dev/ttyACM0".to_string(),
        Some("STeaMi".to_string()),
    )));
    tab
}

fn ws_log(tab: &TabWirelessStack) -> Vec<(String, String)> {
    lines(tab.log.entries())
}

fn version(fus: u32) -> Result<OperatorVersionResult, String> {
    Ok(OperatorVersionResult { status: 0, fus_version: fus, copro_fw_version: "1.13.0".to_string(), ws_version: 0 })
}

fn progress(status: u32, error: Option<u32>) -> Result<OperatorResult, String> {
    Ok(OperatorResult { status, error })
}

fn ws_to_fus_query(tab: &mut TabWirelessStack) {
    match tab.update(TabWsMessage::StepChange(FwStep::StartProcess)) {
        WsAction::ProbePort { port } => assert_eq!(port, "/dev/ttyACM0"),
        other => panic!("unexpected action {:?}", other),
    }
    match tab.update(TabWsMessage::PortProbed(Ok(()))) {
        WsAction::Flash { image } => assert_eq!(image, "wb55_operator.hex"),
        other => panic!("unexpected action {:?}", other),
    }
    match tab.update(TabWsMessage::FlashDone(exit(Some(0)))) {
        WsAction::OpenPort { port, settle_ms } => {
            assert_eq!(port, "/dev/ttyACM0");
            assert_eq!(settle_ms, 1000);
        }
        other => panic!("unexpected action {:?}", other),
    }
    assert_eq!(tab.step, FwStep::StepUpgradeFUS);
    assert!(matches!(
        tab.update(TabWsMessage::PortOpened(Ok(()))),
        WsAction::SendCommand { command: SerialCommand::Status, settle_ms: 0 }
    ));
    assert!(matches!(
        tab.update(TabWsMessage::CommandDone(Ok("{}".to_string()))),
        WsAction::SendCommand { command: SerialCommand::Status, settle_ms: 0 }
    ));
    assert!(matches!(tab.update(TabWsMessage::CommandDone(Ok("{}".to_string()))), WsAction::QueryVersion));
}

fn ws_delete_then_flash(tab: &mut TabWirelessStack) {
    assert!(matches!(
        tab.update(TabWsMessage::PortOpened(Ok(()))),
        WsAction::SendCommand { command: SerialCommand::Delete, settle_ms: 1000 }
    ));
    assert!(matches!(
        tab.update(TabWsMessage::CommandDone(Ok("ok".to_string()))),
        WsAction::SendCommand { command: SerialCommand::Status, .. }
    ));
    tab.update(TabWsMessage::CommandDone(Ok("{}".to_string())));
    match tab.update(TabWsMessage::CommandDone(Ok("{}".to_string()))) {
        WsAction::Merge { first, second, result } => {
            assert_eq!(first, "wb55_operator_no_end.hex");
            assert_eq!(second, "stm32wb5xxG_BLE_Stack_full_fw.hex");
            assert_eq!(result, "merge.hex");
        }
        other => panic!("unexpected action {:?}", other),
    }
    assert_eq!(tab.step, FwStep::StepFlashFW);
}

#[test]
fn wireless_stack_upgrade_with_current_fus() {
    let mut tab = ws_tab();
    tab.update(TabWsMessage::StackSelected(WirelessStackFile::BleStackFull));
    ws_to_fus_query(&mut tab);
    match tab.update(TabWsMessage::VersionRead(version(0x0102_0000))) {
        WsAction::OpenPort { settle_ms, .. } => assert_eq!(settle_ms, 0),
        other => panic!("unexpected action {:?}", other),
    }
    assert_eq!(tab.step, FwStep::StepDeleteFW);
    ws_delete_then_flash(&mut tab);
    assert!(matches!(tab.update(TabWsMessage::MergeDone(Ok(()))), WsAction::Flash { .. }));
    match tab.update(TabWsMessage::FlashDone(exit(Some(0)))) {
        WsAction::StartUpgrade { port, settle_ms } => {
            assert_eq!(port, "/dev/ttyACM0");
            assert_eq!(settle_ms, 5000);
        }
        other => panic!("unexpected action {:?}", other),
    }
    assert!(matches!(
        tab.update(TabWsMessage::UpgradeStarted(Ok(()))),
        WsAction::ReadProgress { timeout_ms: 10000 }
    ));
    assert!(matches!(tab.update(TabWsMessage::ProgressRead(progress(0x10, None))), WsAction::ReadProgress { .. }));
    assert!(matches!(tab.update(TabWsMessage::ProgressRead(progress(0, Some(0)))), WsAction::Nothing));
    assert_eq!(tab.step, FwStep::Ready);
    assert!(!tab.is_readonly);
    let log = ws_log(&tab);
    assert_eq!(log.last().unwrap(), &("info".to_string(), "Wireless stack is now flashed !".to_string()));
    assert!(log.contains(&("info".to_string(), "FUS is up to date".to_string())));
}

#[test]
fn legacy_fus_is_installed_then_checked_again() {
    let mut tab = ws_tab();
    ws_to_fus_query(&mut tab);
    match tab.update(TabWsMessage::VersionRead(version(0x0005_0300))) {
        WsAction::Merge { second, .. } => assert_eq!(second, "stm32wb5xxG_FUS_fw_for_fus_0_5_3.hex"),
        other => panic!("unexpected action {:?}", other),
    }
    assert!(matches!(tab.step, FwStep::StepFlashFUS(_)));
    tab.update(TabWsMessage::MergeDone(Ok(())));
    tab.update(TabWsMessage::FlashDone(exit(Some(0))));
    tab.update(TabWsMessage::UpgradeStarted(Ok(())));
    match tab.update(TabWsMessage::ProgressRead(progress(0, None))) {
        WsAction::OpenPort { settle_ms, .. } => assert_eq!(settle_ms, 1000),
        other => panic!("unexpected action {:?}", other),
    }
    assert_eq!(tab.step, FwStep::StepUpgradeFUS);
    tab.update(TabWsMessage::PortOpened(Ok(())));
    tab.update(TabWsMessage::CommandDone(Ok("{}".to_string())));
    tab.update(TabWsMessage::CommandDone(Ok("{}".to_string())));
    match tab.update(TabWsMessage::VersionRead(version(0x0101_0000))) {
        WsAction::Merge { second, .. } => assert_eq!(second, "stm32wb5xxG_FUS_fw.hex"),
        other => panic!("unexpected action {:?}", other),
    }
}

#[test]
fn ahead_fus_warns_and_goes_on() {
    let mut tab = ws_tab();
    ws_to_fus_query(&mut tab);
    tab.update(TabWsMessage::VersionRead(version(0x0200_0000)));
    assert_eq!(tab.step, FwStep::StepDeleteFW);
    let log = ws_log(&tab);
    assert_eq!(
        log[log.len() - 2],
        (
            "warning".to_string(),
            "FUS is ahead ! Let's give it a try. But it could fail...".to_string()
        )
    );
}

#[test]
fn unknown_fus_version_aborts() {
    let mut tab = ws_tab();
    ws_to_fus_query(&mut tab);
    assert!(matches!(tab.update(TabWsMessage::VersionRead(version(0x0300_0000))), WsAction::Nothing));
    assert_eq!(tab.step, FwStep::Ready);
    assert_eq!(tab.phase, WsPhase::Idle);
    assert!(!tab.is_readonly);
    assert_eq!(
        ws_log(&tab).last().unwrap(),
        &("error".to_string(), "Unknown FUS version. Abort.".to_string())
    );
}

#[test]
fn three_failed_deletes_abort() {
    let mut tab = ws_tab();
    ws_to_fus_query(&mut tab);
    tab.update(TabWsMessage::VersionRead(version(0x0102_0000)));
    tab.update(TabWsMessage::PortOpened(Ok(())));
    for _ in 0..2 {
        assert!(matches!(
            tab.update(TabWsMessage::CommandDone(Err("timed out".to_string()))),
            WsAction::SendCommand { command: SerialCommand::Delete, settle_ms: 1000 }
        ));
    }
    assert!(matches!(tab.update(TabWsMessage::CommandDone(Err("timed out".to_string()))), WsAction::Nothing));
    assert_eq!(tab.step, FwStep::Ready);
    assert!(!tab.is_readonly);
    let log = ws_log(&tab);
    let n = log.len();
    assert_eq!(log[n - 4], ("warning".to_string(), "Delete attempt #1 failed. Error: timed out".to_string()));
    assert_eq!(log[n - 2], ("warning".to_string(), "Delete attempt #3 failed. Error: timed out".to_string()));
    assert_eq!(log[n - 1], ("error".to_string(), "Unable to send delete command.".to_string()));
    assert!(!log.iter().any(|(_, t)| t == "Flash wireless stack"));
}

#[test]
fn status_round_retries_then_fails() {
    let mut tab = ws_tab();
    tab.update(TabWsMessage::StepChange(FwStep::StartProcess));
    tab.update(TabWsMessage::PortProbed(Ok(())));
    tab.update(TabWsMessage::FlashDone(exit(Some(0))));
    tab.update(TabWsMessage::PortOpened(Ok(())));
    tab.update(TabWsMessage::CommandDone(Err("e1".to_string())));
    assert_eq!(tab.phase, WsPhase::Status { round: 0, attempt: 1, failed: false });
    tab.update(TabWsMessage::CommandDone(Ok("{}".to_string())));
    assert_eq!(tab.phase, WsPhase::Status { round: 1, attempt: 0, failed: false });
    tab.update(TabWsMessage::CommandDone(Err("e2".to_string())));
    tab.update(TabWsMessage::CommandDone(Err("e3".to_string())));
    assert!(matches!(tab.update(TabWsMessage::CommandDone(Err("e4".to_string()))), WsAction::Nothing));
    assert_eq!(tab.step, FwStep::Ready);
    let log = ws_log(&tab);
    let n = log.len();
    assert_eq!(log[n - 2], ("warning".to_string(), "STATUS #2, attempt #3 failed (Error: e4.".to_string()));
    assert_eq!(log[n - 1], ("error".to_string(), "Unable to unlock FUS.".to_string()));
}

#[test]
fn status_runs_both_rounds_when_all_attempts_fail() {
    let mut tab = ws_tab();
    tab.update(TabWsMessage::StepChange(FwStep::StartProcess));
    tab.update(TabWsMessage::PortProbed(Ok(())));
    tab.update(TabWsMessage::FlashDone(exit(Some(0))));
    let before = ws_log(&tab).len();
    let mut sends = 0;
    let mut action = tab.update(TabWsMessage::PortOpened(Ok(())));
    while let WsAction::SendCommand { command: SerialCommand::Status, .. } = action {
        sends += 1;
        action = tab.update(TabWsMessage::CommandDone(Err("timeout".to_string())));
    }
    assert!(matches!(action, WsAction::Nothing));
    assert_eq!(sends, 6);
    assert_eq!(tab.step, FwStep::Ready);
    let log = ws_log(&tab);
    assert_eq!(log.len(), before + 7);
    assert_eq!(log[before], ("warning".to_string(), "STATUS #1, attempt #1 failed (Error: timeout.".to_string()));
    assert_eq!(log[before + 5], ("warning".to_string(), "STATUS #2, attempt #3 failed (Error: timeout.".to_string()));
    assert_eq!(log[before + 6], ("error".to_string(), "Unable to unlock FUS.".to_string()));
}

#[test]
fn failed_first_status_round_fails_after_the_second() {
    let mut tab = ws_tab();
    tab.update(TabWsMessage::StepChange(FwStep::StartProcess));
    tab.update(TabWsMessage::PortProbed(Ok(())));
    tab.update(TabWsMessage::FlashDone(exit(Some(0))));
    tab.update(TabWsMessage::PortOpened(Ok(())));
    for _ in 0..3 {
        tab.update(TabWsMessage::CommandDone(Err("timeout".to_string())));
    }
    assert_eq!(tab.phase, WsPhase::Status { round: 1, attempt: 0, failed: true });
    assert!(matches!(tab.update(TabWsMessage::CommandDone(Ok("{}".to_string()))), WsAction::Nothing));
    assert_eq!(tab.step, FwStep::Ready);
    assert_eq!(ws_log(&tab).last().unwrap(), &("error".to_string(), "Unable to unlock FUS.".to_string()));
}

#[test]
fn operator_flash_failure_aborts() {
    let mut tab = ws_tab();
    tab.update(TabWsMessage::StepChange(FwStep::StartProcess));
    tab.update(TabWsMessage::PortProbed(Ok(())));
    assert!(matches!(tab.update(TabWsMessage::FlashDone(exit(Some(1)))), WsAction::Nothing));
    assert_eq!(tab.step, FwStep::Ready);
    assert_eq!(ws_log(&tab).last().unwrap(), &("error".to_string(), "Flash failed".to_string()));
    let mut tab = ws_tab();
    tab.update(TabWsMessage::StepChange(FwStep::StartProcess));
    tab.update(TabWsMessage::PortProbed(Ok(())));
    tab.update(TabWsMessage::FlashDone(exit(None)));
    assert_eq!(tab.step, FwStep::Ready);
}

#[test]
fn probe_failure_and_missing_port() {
    let mut tab = TabWirelessStack::new(Vec::new());
    assert!(tab.serial_selected.is_none());
    assert!(matches!(tab.update(TabWsMessage::StepChange(FwStep::StartProcess)), WsAction::Nothing));
    assert_eq!(ws_log(&tab), vec![("error".to_string(), "Please select a serial port".to_string())]);
    let mut tab = ws_tab();
    tab.update(TabWsMessage::StepChange(FwStep::StartProcess));
    tab.update(TabWsMessage::PortProbed(Err("Failed to open serial port \"/dev/ttyACM0\". Error: busy".to_string())));
    assert_eq!(tab.step, FwStep::Ready);
    assert!(!tab.is_readonly);
}

#[test]
fn upgrade_errors_are_collected() {
    let mut tab = ws_tab();
    tab.update(TabWsMessage::StackSelected(WirelessStackFile::BleStackFull));
    ws_to_fus_query(&mut tab);
    tab.update(TabWsMessage::VersionRead(version(0x0102_0000)));
    ws_delete_then_flash(&mut tab);
    tab.update(TabWsMessage::MergeDone(Ok(())));
    tab.update(TabWsMessage::FlashDone(exit(Some(0))));
    tab.update(TabWsMessage::UpgradeStarted(Ok(())));
    tab.update(TabWsMessage::ProgressRead(progress(0x20, Some(0x06))));
    tab.update(TabWsMessage::ProgressRead(progress(0x20, Some(0x42))));
    assert!(matches!(tab.update(TabWsMessage::ProgressRead(progress(0, None))), WsAction::Nothing));
    assert_eq!(tab.step, FwStep::Ready);
    assert_eq!(
        ws_log(&tab).last().unwrap(),
        &(
            "error".to_string(),
            "FUS_IMAGE_ERSERROR => Flash Erase Error\r\nUnknown code\r\n".to_string()
        )
    );
}

#[test]
fn port_refresh_sorts_and_clears_selection() {
    let mut tab = ws_tab();
    tab.update(TabWsMessage::SerialRefresh(Some(vec![
        SerialPortInfo::new("COM3".to_string(), None),
        SerialPortInfo::new("COM1".to_string(), Some("X".to_string())),
        SerialPortInfo::new("COM2".to_string(), Some("A".to_string())),
    ])));
    let names: Vec<_> = tab.serial_available_port.iter().map(|p| p.port.clone()).collect();
    assert_eq!(names, vec!["COM1", "COM2", "COM3"]);
    assert!(tab.serial_selected.is_none());
    tab.update(TabWsMessage::SerialSelected(SerialPortInfo::new("COM2".to_string(), Some("A".to_string()))));
    assert_eq!(tab.serial_selected.as_ref().unwrap().port, "COM2");
    tab.update(TabWsMessage::SerialRefresh(None));
    assert!(tab.serial_available_port.is_empty());
    assert!(tab.serial_selected.is_none());
}

#[test]
fn messages_carry_log_lines() {
    let mut tab = ws_tab();
    tab.update(<TabWsMessage as WithLogMessage>::log(LogType::Warning("w".to_string())));
    assert_eq!(ws_log(&tab), vec![("warning".to_string(), "w".to_string())]);
    let mut d = daplink("", 10);
    d.update(<TabDaplinkMessage as WithLogMessage>::log(LogType::Info("i".to_string())));
    assert_eq!(lines(d.log_widget.entries()), vec![("info".to_string(), "i".to_string())]);
}
