use daplink_easyflash::operator_tool::{
    fus_decision, operator_error_string, upgrade_status_string, FusDecision,
};
use daplink_easyflash::stackfile_config::{fus_config, wireless_stack_config, FusFile, WirelessStackFile};

#[test]
fn fus_image_names() {
    assert_eq!(fus_config(FusFile::FusFor0_5_3), "stm32wb5xxG_FUS_fw_for_fus_0_5_3.hex");
    assert_eq!(fus_config(FusFile::Fus1_2_0), "stm32wb5xxG_FUS_fw.hex");
}

#[test]
fn stack_image_names_and_labels() {
    assert_eq!(
        wireless_stack_config(WirelessStackFile::BleHciExt),
        "stm32wb5xxG_BLE_HCILayer_extended_fw.hex"
    );
    assert_eq!(wireless_stack_config(WirelessStackFile::ZigbeeRfd), "stm32wb5xxG_Zigbee_RFD_fw.hex");
    assert_eq!(WirelessStackFile::Mac802154.label(), "Mac 802.15.4");
    assert_eq!(WirelessStackFile::default(), WirelessStackFile::BleHciExt);
}

#[test]
fn error_code_texts() {
    assert_eq!(operator_error_string(0), "FUS_STATE_NO_ERROR => No error occurred.");
    assert_eq!(operator_error_string(0x0A), "FUS_AUTH_KEY_LOCKED => The key that the user tries to load is currently locked");
    assert_eq!(operator_error_string(0x11), "FUS_FW_ROLLBACK_ERROR");
    assert_eq!(operator_error_string(0x0B), "Unknown code");
    assert_eq!(operator_error_string(u32::MAX), "Unknown code");
}

#[test]
fn status_code_texts() {
    assert_eq!(upgrade_status_string(0), "FUS_STATE_IDLE");
    assert_eq!(upgrade_status_string(0x05), "Unknown status code");
    assert_eq!(upgrade_status_string(0x10), "FUS_STATE_FW_UPGRD_ONGOING");
    assert_eq!(upgrade_status_string(0x2F), "FUS_STATE_FUS_UPGRD_ONGOING");
    assert_eq!(upgrade_status_string(0x30), "FUS_STATE_SERVICE_ONGOING");
    assert_eq!(upgrade_status_string(0xFF), "FUS_STATE_SERVICE_ONGOING");
}

#[test]
fn version_branch_table() {
    assert_eq!(fus_decision(0x0000_0000), FusDecision::Flash(FusFile::FusFor0_5_3));
    assert_eq!(fus_decision(0x0005_0300), FusDecision::Flash(FusFile::FusFor0_5_3));
    assert_eq!(fus_decision(0x0100_0000), FusDecision::Flash(FusFile::Fus1_2_0));
    assert_eq!(fus_decision(0x0101_0000), FusDecision::Flash(FusFile::Fus1_2_0));
    assert_eq!(fus_decision(0x0101_FFFF), FusDecision::Flash(FusFile::Fus1_2_0));
    assert_eq!(fus_decision(0x0102_0000), FusDecision::UpToDate);
    assert_eq!(fus_decision(0x0102_ABCD), FusDecision::UpToDate);
    assert_eq!(fus_decision(0x0103_0000), FusDecision::Unknown);
    assert_eq!(fus_decision(0x0200_0000), FusDecision::Ahead);
    assert_eq!(fus_decision(0x02FF_FFFF), FusDecision::Ahead);
    assert_eq!(fus_decision(0x0300_0000), FusDecision::Unknown);
    assert_eq!(fus_decision(0xFFFF_FFFF), FusDecision::Unknown);
}
