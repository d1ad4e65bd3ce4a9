use vstd::prelude::*;

use crate::stackfile_config::FusFile;

verus! {

/// Reply to the `STATUS` command.
#[derive(Debug, Default, Clone, Copy, PartialEq, Eq, Structural)]
pub struct OperatorStatusResult {
    pub status: u32,
    pub last_fus_status: u32,
    pub last_ws_status: u32,
    pub current_ws: u32,
}

/// Reply to the `VERSION` command.
#[derive(Debug, Default, Clone)]
pub struct OperatorVersionResult {
    pub status: u32,
    pub fus_version: u32,
    pub copro_fw_version: String,
    pub ws_version: u32,
}

/// One progress line sent while an upgrade runs.
#[derive(Debug, Default, Clone, Copy, PartialEq, Eq, Structural)]
pub struct OperatorResult {
    pub status: u32,
    pub error: Option<u32>,
}

/// Text of each known FUS error code.
pub open spec fn fus_error_text(code: u32) -> Seq<char> {
    if code == 0x00 {
        "FUS_STATE_NO_ERROR => No error occurred."@
    } else if code == 0x01 {
        "FUS_STATE_IMG_NOT_FOUND => Firmware/FUS upgrade requested but no image found. (such as image header corrupted or flash memory corrupted)"@
    } else if code == 0x02 {
        "FUS_SATE_IMC_CORRUPT => Firmware/FUS upgrade requested, image found, authentic but not integer (corruption on the data)"@
    } else if code == 0x03 {
        "FUS_STATE_IMG_NOT_AUTHENTIC => Firmware/FUS upgrade requested, image found, but its signature is not valid (wrong signature, wrong signature header)"@
    } else if code == 0x04 {
        "FUS_SATE_NO_ENOUGH_SPACE => Firmware/FUS upgrade requested, image found and authentic, but there is no enough space to install it due to the already installed image. Install the stack in a lower location then try again."@
    } else if code == 0x05 {
        "FUS_IMAGE_USRABORT => Operation aborted by user or power off occurred"@
    } else if code == 0x06 {
        "FUS_IMAGE_ERSERROR => Flash Erase Error"@
    } else if code == 0x07 {
        "FUS_IMAGE_WRTERROR => Flash Write Error"@
    } else if code == 0x08 {
        "FUS_AUTH_TAG_ST_NOTFOUND => STMicroelectronics Authentication tag not found error in the image"@
    } else if code == 0x09 {
        "FUS_AUTH_TAG_CUST_NOTFOUND => Customer Authentication tag not found in the image"@
    } else if code == 0x0A {
        "FUS_AUTH_KEY_LOCKED => The key that the user tries to load is currently locked"@
    } else if code == 0x11 {
        "FUS_FW_ROLLBACK_ERROR"@
    } else {
        "Unknown code"@
    }
}

/// Text of a FUS error code; codes outside the known set give "Unknown code".
pub fn operator_error_string(error_code: u32) -> (r: &'static str)
    ensures
        r@ == fus_error_text(error_code),
{
    match error_code {
        0x00 => "FUS_STATE_NO_ERROR => No error occurred.",
        0x01 => "FUS_STATE_IMG_NOT_FOUND => Firmware/FUS upgrade requested but no image found. (such as image header corrupted or flash memory corrupted)",
        0x02 => "FUS_SATE_IMC_CORRUPT => Firmware/FUS upgrade requested, image found, authentic but not integer (corruption on the data)",
        0x03 => "FUS_STATE_IMG_NOT_AUTHENTIC => Firmware/FUS upgrade requested, image found, but its signature is not valid (wrong signature, wrong signature header)",
        0x04 => "FUS_SATE_NO_ENOUGH_SPACE => Firmware/FUS upgrade requested, image found and authentic, but there is no enough space to install it due to the already installed image. Install the stack in a lower location then try again.",
        0x05 => "FUS_IMAGE_USRABORT => Operation aborted by user or power off occurred",
        0x06 => "FUS_IMAGE_ERSERROR => Flash Erase Error",
        0x07 => "FUS_IMAGE_WRTERROR => Flash Write Error",
        0x08 => "FUS_AUTH_TAG_ST_NOTFOUND => STMicroelectronics Authentication tag not found error in the image",
        0x09 => "FUS_AUTH_TAG_CUST_NOTFOUND => Customer Authentication tag not found in the image",
        0x0A => "FUS_AUTH_KEY_LOCKED => The key that the user tries to load is currently locked",
        0x11 => "FUS_FW_ROLLBACK_ERROR",
        _ => "Unknown code",
    }
}

/// Name of the range a FUS state code falls in.
pub open spec fn upgrade_status_text(status_code: u32) -> Seq<char> {
    if status_code >= 0x30 {
        "FUS_STATE_SERVICE_ONGOING"@
    } else if status_code >= 0x20 {
        "FUS_STATE_FUS_UPGRD_ONGOING"@
    } else if status_code >= 0x10 {
        "FUS_STATE_FW_UPGRD_ONGOING"@
    } else if status_code == 0 {
        "FUS_STATE_IDLE"@
    } else {
        "Unknown status code"@
    }
}

pub fn upgrade_status_string(status_code: u32) -> (r: &'static str)
    ensures
        r@ == upgrade_status_text(status_code),
{
    if status_code >= 0x30 {
        "FUS_STATE_SERVICE_ONGOING"
    } else if status_code >= 0x20 {
        "FUS_STATE_FUS_UPGRD_ONGOING"
    } else if status_code >= 0x10 {
        "FUS_STATE_FW_UPGRD_ONGOING"
    } else if status_code == 0 {
        "FUS_STATE_IDLE"
    } else {
        "Unknown status code"
    }
}

/// Major number of a FUS version word: its most significant byte.
pub open spec fn fus_major(v: u32) -> nat {
    (v as nat) / 0x1000000
}

/// Minor number of a FUS version word: its second most significant byte.
pub open spec fn fus_minor(v: u32) -> nat {
    ((v as nat) / 0x10000) % 0x100
}

/// What the upgrade does with the FUS found on the device.
#[derive(Clone, Copy, Debug, PartialEq, Eq, Structural)]
pub enum FusDecision {
    /// Install this FUS image first.
    Flash(FusFile),
    /// The FUS is current: nothing to install.
    UpToDate,
    /// The FUS is newer than expected: go on, with a warning.
    Ahead,
    /// The version is not one this tool knows: stop.
    Unknown,
}

pub open spec fn fus_decision_of(fus_version: u32) -> FusDecision {
    let major = fus_major(fus_version);
    let minor = fus_minor(fus_version);
    if major == 0 {
        FusDecision::Flash(FusFile::FusFor0_5_3)
    } else if major == 1 && minor < 2 {
        FusDecision::Flash(FusFile::Fus1_2_0)
    } else if major == 1 && minor == 2 {
        FusDecision::UpToDate
    } else if major == 2 {
        FusDecision::Ahead
    } else {
        FusDecision::Unknown
    }
}

/// Chooses, from the FUS version word a device reports, whether a FUS image
/// must be installed and which one.
pub fn fus_decision(fus_version: u32) -> (r: FusDecision)
    ensures
        r == fus_decision_of(fus_version),
{
    let major = (fus_version & 0xFF000000u32) >> 24u32;
    let minor = (fus_version & 0x00FF0000u32) >> 16u32;
    assert(major == fus_version / 0x1000000u32) by (bit_vector)
        requires
            major == (fus_version & 0xFF000000u32) >> 24u32,
    ;
    assert(minor == (fus_version / 0x10000u32) % 0x100u32) by (bit_vector)
        requires
            minor == (fus_version & 0x00FF0000u32) >> 16u32,
    ;
    if major == 0 {
        FusDecision::Flash(FusFile::FusFor0_5_3)
    } else if major == 1 && minor < 2 {
        FusDecision::Flash(FusFile::Fus1_2_0)
    } else if major == 1 && minor == 2 {
        FusDecision::UpToDate
    } else if major == 2 {
        FusDecision::Ahead
    } else {
        FusDecision::Unknown
    }
}

/// The version table by ranges of the version word: `0x00xxxxxx` installs
/// the legacy FUS image, `0x0100xxxx` and `0x0101xxxx` the current one,
/// `0x0102xxxx` needs nothing, `0x02xxxxxx` goes on with a warning, and
/// every other version (`0x0103xxxx` to `0x01ffxxxx`, `0x03000000` and up)
/// is unknown.
pub proof fn lemma_version_table(v: u32)
    ensures
        v < 0x0100_0000 ==> fus_decision_of(v) == FusDecision::Flash(FusFile::FusFor0_5_3),
        0x0100_0000 <= v < 0x0102_0000 ==> fus_decision_of(v) == FusDecision::Flash(FusFile::Fus1_2_0),
        0x0102_0000 <= v < 0x0103_0000 ==> fus_decision_of(v) == FusDecision::UpToDate,
        0x0103_0000 <= v < 0x0200_0000 ==> fus_decision_of(v) == FusDecision::Unknown,
        0x0200_0000 <= v < 0x0300_0000 ==> fus_decision_of(v) == FusDecision::Ahead,
        0x0300_0000 <= v ==> fus_decision_of(v) == FusDecision::Unknown,
{
    let n = v as nat;
    if 0x0100_0000 <= v < 0x0200_0000 {
        assert(n / 0x1000000 == 1);
        assert(n / 0x10000 == 0x100 + (n - 0x0100_0000) / 0x10000);
        assert((n / 0x10000) % 0x100 == (n - 0x0100_0000) / 0x10000);
    }
}

} // verus!
