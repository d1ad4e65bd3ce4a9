use vstd::prelude::*;

verus! {

/// The radio-stack images that can be installed on the co-processor.
#[derive(Clone, Copy, Debug, PartialEq, Eq, Structural)]
pub enum WirelessStackFile {
    BleHciAdvScan,
    BleHciExt,
    BleHci,
    BleMac,
    BleLld,
    BleStackFullExt,
    BleStackFull,
    BleStackLight,
    BleThreadDyn,
    BleThreadSta,
    BleZigbeeFfdDyn,
    BleZigbeeFfdSta,
    BleZigbeeRfdDyn,
    BleZigbeeRfdSta,
    Mac802154,
    Phy802154,
    ThreadFtd,
    ThreadMtd,
    ThreadRcp,
    ZigbeeFfd,
    ZigbeeRfd,
}

/// The firmware-upgrade-service images: one for devices still on the legacy
/// service, one for the current service.
#[derive(Clone, Copy, Debug, PartialEq, Eq, Structural)]
pub enum FusFile {
    FusFor0_5_3,
    Fus1_2_0,
}

/// Image file name of each FUS image.
pub open spec fn fus_file_name(file: FusFile) -> Seq<char> {
    match file {
        FusFile::FusFor0_5_3 => "stm32wb5xxG_FUS_fw_for_fus_0_5_3.hex"@,
        FusFile::Fus1_2_0 => "stm32wb5xxG_FUS_fw.hex"@,
    }
}

/// Image file name of each radio stack.
pub open spec fn stack_file_name(file: WirelessStackFile) -> Seq<char> {
    match file {
        WirelessStackFile::BleHciAdvScan => "stm32wb5xxG_BLE_HCI_AdvScan_fw.hex"@,
        WirelessStackFile::BleHciExt => "stm32wb5xxG_BLE_HCILayer_extended_fw.hex"@,
        WirelessStackFile::BleHci => "stm32wb5xxG_BLE_HCILayer_fw.hex"@,
        WirelessStackFile::BleMac => "stm32wb5xxG_BLE_Mac_802_15_4_fw.hex"@,
        WirelessStackFile::BleLld => "stm32wb5xxG_BLE_LLD_fw.hex"@,
        WirelessStackFile::BleStackFullExt => "stm32wb5xxG_BLE_Stack_full_extended_fw.hex"@,
        WirelessStackFile::BleStackFull => "stm32wb5xxG_BLE_Stack_full_fw.hex"@,
        WirelessStackFile::BleStackLight => "stm32wb5xxG_BLE_Stack_light_fw.hex"@,
        WirelessStackFile::BleThreadDyn => "stm32wb5xxG_BLE_Thread_dynamic_fw.hex"@,
        WirelessStackFile::BleThreadSta => "stm32wb5xxG_BLE_Thread_static_fw.hex"@,
        WirelessStackFile::BleZigbeeFfdDyn => "stm32wb5xxG_BLE_Zigbee_FFD_dynamic_fw.hex"@,
        WirelessStackFile::BleZigbeeFfdSta => "stm32wb5xxG_BLE_Zigbee_FFD_static_fw.hex"@,
        WirelessStackFile::BleZigbeeRfdDyn => "stm32wb5xxG_BLE_Zigbee_RFD_dynamic_fw.hex"@,
        WirelessStackFile::BleZigbeeRfdSta => "stm32wb5xxG_BLE_Zigbee_RFD_static_fw.hex"@,
        WirelessStackFile::Mac802154 => "stm32wb5xxG_Mac_802_15_4_fw.hex"@,
        WirelessStackFile::Phy802154 => "stm32wb5xxG_Phy_802_15_4_fw.hex"@,
        WirelessStackFile::ThreadFtd => "stm32wb5xxG_Thread_FTD_fw.hex"@,
        WirelessStackFile::ThreadMtd => "stm32wb5xxG_Thread_MTD_fw.hex"@,
        WirelessStackFile::ThreadRcp => "stm32wb5xxG_Thread_RCP_fw.hex"@,
        WirelessStackFile::ZigbeeFfd => "stm32wb5xxG_Zigbee_FFD_fw.hex"@,
        WirelessStackFile::ZigbeeRfd => "stm32wb5xxG_Zigbee_RFD_fw.hex"@,
    }
}

/// Name of each radio stack as shown to the user.
pub open spec fn stack_label(file: WirelessStackFile) -> Seq<char> {
    match file {
        WirelessStackFile::BleHciAdvScan => "BLE HCI AdvScan"@,
        WirelessStackFile::BleHciExt => "BLE HCI Layer extended"@,
        WirelessStackFile::BleHci => "BLE HCI Layer"@,
        WirelessStackFile::BleMac => "BLE Mac 802.15.4"@,
        WirelessStackFile::BleLld => "BLE LLD"@,
        WirelessStackFile::BleStackFullExt => "BLE Stack full extended"@,
        WirelessStackFile::BleStackFull => "BLE Stack full"@,
        WirelessStackFile::BleStackLight => "BLE Stack light"@,
        WirelessStackFile::BleThreadDyn => "BLE Thread dynamic"@,
        WirelessStackFile::BleThreadSta => "BLE Thread static"@,
        WirelessStackFile::BleZigbeeFfdDyn => "BLE Zigbee FFD dynamic"@,
        WirelessStackFile::BleZigbeeFfdSta => "BLE Zigbee FFD static"@,
        WirelessStackFile::BleZigbeeRfdDyn => "BLE Zigbee RFD dynamic"@,
        WirelessStackFile::BleZigbeeRfdSta => "BLE Zigbee RFD static"@,
        WirelessStackFile::Mac802154 => "Mac 802.15.4"@,
        WirelessStackFile::Phy802154 => "Phy 802.15.4"@,
        WirelessStackFile::ThreadFtd => "Thread FTD"@,
        WirelessStackFile::ThreadMtd => "Thread MTD"@,
        WirelessStackFile::ThreadRcp => "Thread RCP"@,
        WirelessStackFile::ZigbeeFfd => "Zigbee FFD"@,
        WirelessStackFile::ZigbeeRfd => "Zigbee RFD"@,
    }
}

pub fn fus_config(file: FusFile) -> (r: &'static str)
    ensures
        r@ == fus_file_name(file),
{
    match file {
        FusFile::FusFor0_5_3 => "stm32wb5xxG_FUS_fw_for_fus_0_5_3.hex",
        FusFile::Fus1_2_0 => "stm32wb5xxG_FUS_fw.hex",
    }
}

pub fn wireless_stack_config(file: WirelessStackFile) -> (r: &'static str)
    ensures
        r@ == stack_file_name(file),
{
    match file {
        WirelessStackFile::BleHciAdvScan => "stm32wb5xxG_BLE_HCI_AdvScan_fw.hex",
        WirelessStackFile::BleHciExt => "stm32wb5xxG_BLE_HCILayer_extended_fw.hex",
        WirelessStackFile::BleHci => "stm32wb5xxG_BLE_HCILayer_fw.hex",
        WirelessStackFile::BleMac => "stm32wb5xxG_BLE_Mac_802_15_4_fw.hex",
        WirelessStackFile::BleLld => "stm32wb5xxG_BLE_LLD_fw.hex",
        WirelessStackFile::BleStackFullExt => "stm32wb5xxG_BLE_Stack_full_extended_fw.hex",
        WirelessStackFile::BleStackFull => "stm32wb5xxG_BLE_Stack_full_fw.hex",
        WirelessStackFile::BleStackLight => "stm32wb5xxG_BLE_Stack_light_fw.hex",
        WirelessStackFile::BleThreadDyn => "stm32wb5xxG_BLE_Thread_dynamic_fw.hex",
        WirelessStackFile::BleThreadSta => "stm32wb5xxG_BLE_Thread_static_fw.hex",
        WirelessStackFile::BleZigbeeFfdDyn => "stm32wb5xxG_BLE_Zigbee_FFD_dynamic_fw.hex",
        WirelessStackFile::BleZigbeeFfdSta => "stm32wb5xxG_BLE_Zigbee_FFD_static_fw.hex",
        WirelessStackFile::BleZigbeeRfdDyn => "stm32wb5xxG_BLE_Zigbee_RFD_dynamic_fw.hex",
        WirelessStackFile::BleZigbeeRfdSta => "stm32wb5xxG_BLE_Zigbee_RFD_static_fw.hex",
        WirelessStackFile::Mac802154 => "stm32wb5xxG_Mac_802_15_4_fw.hex",
        WirelessStackFile::Phy802154 => "stm32wb5xxG_Phy_802_15_4_fw.hex",
        WirelessStackFile::ThreadFtd => "stm32wb5xxG_Thread_FTD_fw.hex",
        WirelessStackFile::ThreadMtd => "stm32wb5xxG_Thread_MTD_fw.hex",
        WirelessStackFile::ThreadRcp => "stm32wb5xxG_Thread_RCP_fw.hex",
        WirelessStackFile::ZigbeeFfd => "stm32wb5xxG_Zigbee_FFD_fw.hex",
        WirelessStackFile::ZigbeeRfd => "stm32wb5xxG_Zigbee_RFD_fw.hex",
    }
}

impl WirelessStackFile {
    /// Name of the stack as shown to the user.
    pub fn label(&self) -> (r: &'static str)
        ensures
            r@ == stack_label(*self),
    {
        match self {
            WirelessStackFile::BleHciAdvScan => "BLE HCI AdvScan",
            WirelessStackFile::BleHciExt => "BLE HCI Layer extended",
            WirelessStackFile::BleHci => "BLE HCI Layer",
            WirelessStackFile::BleMac => "BLE Mac 802.15.4",
            WirelessStackFile::BleLld => "BLE LLD",
            WirelessStackFile::BleStackFullExt => "BLE Stack full extended",
            WirelessStackFile::BleStackFull => "BLE Stack full",
            WirelessStackFile::BleStackLight => "BLE Stack light",
            WirelessStackFile::BleThreadDyn => "BLE Thread dynamic",
            WirelessStackFile::BleThreadSta => "BLE Thread static",
            WirelessStackFile::BleZigbeeFfdDyn => "BLE Zigbee FFD dynamic",
            WirelessStackFile::BleZigbeeFfdSta => "BLE Zigbee FFD static",
            WirelessStackFile::BleZigbeeRfdDyn => "BLE Zigbee RFD dynamic",
            WirelessStackFile::BleZigbeeRfdSta => "BLE Zigbee RFD static",
            WirelessStackFile::Mac802154 => "Mac 802.15.4",
            WirelessStackFile::Phy802154 => "Phy 802.15.4",
            WirelessStackFile::ThreadFtd => "Thread FTD",
            WirelessStackFile::ThreadMtd => "Thread MTD",
            WirelessStackFile::ThreadRcp => "Thread RCP",
            WirelessStackFile::ZigbeeFfd => "Zigbee FFD",
            WirelessStackFile::ZigbeeRfd => "Zigbee RFD",
        }
    }
}

impl Default for WirelessStackFile {
    fn default() -> (r: WirelessStackFile)
        ensures
            r == WirelessStackFile::BleHciExt,
    {
        WirelessStackFile::BleHciExt
    }
}

} // verus!
