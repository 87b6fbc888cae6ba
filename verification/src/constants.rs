//! Wire-protocol constants: command selector bytes, probe operating modes,
//! protocol status codes, and the fixed frequency tables used by the
//! pre-v3 speed negotiation.

use vstd::prelude::*;

verus! {

// Command family selectors (first command byte).
pub const GET_VERSION: u8 = 0xF1;
pub const JTAG_COMMAND: u8 = 0xF2;
pub const DFU_COMMAND: u8 = 0xF3;
pub const SWIM_COMMAND: u8 = 0xF4;
pub const GET_CURRENT_MODE: u8 = 0xF5;
pub const GET_TARGET_VOLTAGE: u8 = 0xF7;
pub const GET_VERSION_EXT: u8 = 0xFB;

// Operation selectors (second command byte) per family.
pub const DFU_EXIT: u8 = 0x07;
pub const SWIM_EXIT: u8 = 0x01;
pub const JTAG_ENTER2: u8 = 0x30;
pub const JTAG_ENTER_SWD: u8 = 0xA3;
pub const JTAG_ENTER_JTAG_NO_CORE_RESET: u8 = 0xA4;
pub const JTAG_DRIVE_NRST: u8 = 0x3C;
pub const JTAG_DRIVE_NRST_LOW: u8 = 0x00;
pub const JTAG_DRIVE_NRST_HIGH: u8 = 0x01;
pub const JTAG_DRIVE_NRST_PULSE: u8 = 0x02;
pub const SWD_SET_FREQ: u8 = 0x43;
pub const JTAG_SET_FREQ: u8 = 0x44;
pub const JTAG_READ_DAP_REG: u8 = 0x45;
pub const JTAG_WRITE_DAP_REG: u8 = 0x46;
pub const JTAG_INIT_AP: u8 = 0x4B;
pub const JTAG_CLOSE_AP_DBG: u8 = 0x4C;
pub const SET_COM_FREQ: u8 = 0x61;
pub const GET_COM_FREQ: u8 = 0x62;

/// Operating mode reported by the probe.
#[derive(Clone, Copy, Debug, PartialEq, Eq, Structural)]
pub enum Mode {
    Dfu,
    MassStorage,
    Jtag,
    Swim,
}

/// The mode encoded by the first byte of a mode-query response, or `None`
/// for an unrecognized byte.
pub open spec fn spec_mode_from_u8(b: u8) -> Option<Mode> {
    match b {
        0 => Some(Mode::Dfu),
        1 => Some(Mode::MassStorage),
        2 => Some(Mode::Jtag),
        3 => Some(Mode::Swim),
        _ => None,
    }
}

/// Decodes the mode byte of a mode-query response.
pub fn mode_from_u8(b: u8) -> (r: Option<Mode>)
    ensures
        r == spec_mode_from_u8(b),
{
    match b {
        0 => Some(Mode::Dfu),
        1 => Some(Mode::MassStorage),
        2 => Some(Mode::Jtag),
        3 => Some(Mode::Swim),
        _ => None,
    }
}

/// Protocol status code carried in the first byte of a command response.
/// `Unknown` stands for a response byte that matches no known code.
#[derive(Clone, Copy, Debug, PartialEq, Eq, Structural)]
pub enum Status {
    JtagOk,
    JtagUnknownError,
    JtagSpiError,
    JtagDmaError,
    JtagUnknownJtagChain,
    JtagNoDeviceConnected,
    JtagInternalError,
    JtagCmdWait,
    JtagCmdError,
    JtagGetIdcodeError,
    JtagAlignmentError,
    JtagDbgPowerError,
    JtagWriteError,
    JtagWriteVerifError,
    JtagAlreadyOpenedInOtherMode,
    SwdApWait,
    SwdApFault,
    SwdApError,
    SwdApParityError,
    SwdDpWait,
    SwdDpFault,
    SwdDpError,
    SwdDpParityError,
    SwdApWdataError,
    SwdApStickyError,
    SwdApStickyOverrunError,
    SwvNotSupported,
    JtagFreqNotSupported,
    JtagUnknownCmd,
    Unknown,
}

/// The status code encoded by a response status byte, or `None` for a byte
/// that matches no known code.
pub open spec fn spec_status_from_u8(b: u8) -> Option<Status> {
    match b {
        0x01 => Some(Status::JtagUnknownError),
        0x02 => Some(Status::JtagSpiError),
        0x03 => Some(Status::JtagDmaError),
        0x04 => Some(Status::JtagUnknownJtagChain),
        0x05 => Some(Status::JtagNoDeviceConnected),
        0x06 => Some(Status::JtagInternalError),
        0x07 => Some(Status::JtagCmdWait),
        0x08 => Some(Status::JtagCmdError),
        0x09 => Some(Status::JtagGetIdcodeError),
        0x0A => Some(Status::JtagAlignmentError),
        0x0B => Some(Status::JtagDbgPowerError),
        0x0C => Some(Status::JtagWriteError),
        0x0D => Some(Status::JtagWriteVerifError),
        0x0E => Some(Status::JtagAlreadyOpenedInOtherMode),
        0x10 => Some(Status::SwdApWait),
        0x11 => Some(Status::SwdApFault),
        0x12 => Some(Status::SwdApError),
        0x13 => Some(Status::SwdApParityError),
        0x14 => Some(Status::SwdDpWait),
        0x15 => Some(Status::SwdDpFault),
        0x16 => Some(Status::SwdDpError),
        0x17 => Some(Status::SwdDpParityError),
        0x18 => Some(Status::SwdApWdataError),
        0x19 => Some(Status::SwdApStickyError),
        0x1A => Some(Status::SwdApStickyOverrunError),
        0x20 => Some(Status::SwvNotSupported),
        0x41 => Some(Status::JtagFreqNotSupported),
        0x42 => Some(Status::JtagUnknownCmd),
        0x80 => Some(Status::JtagOk),
        _ => None,
    }
}

/// Decodes a response status byte into a status code.
pub fn status_from_u8(b: u8) -> (r: Option<Status>)
    ensures
        r == spec_status_from_u8(b),
{
    match b {
        0x01 => Some(Status::JtagUnknownError),
        0x02 => Some(Status::JtagSpiError),
        0x03 => Some(Status::JtagDmaError),
        0x04 => Some(Status::JtagUnknownJtagChain),
        0x05 => Some(Status::JtagNoDeviceConnected),
        0x06 => Some(Status::JtagInternalError),
        0x07 => Some(Status::JtagCmdWait),
        0x08 => Some(Status::JtagCmdError),
        0x09 => Some(Status::JtagGetIdcodeError),
        0x0A => Some(Status::JtagAlignmentError),
        0x0B => Some(Status::JtagDbgPowerError),
        0x0C => Some(Status::JtagWriteError),
        0x0D => Some(Status::JtagWriteVerifError),
        0x0E => Some(Status::JtagAlreadyOpenedInOtherMode),
        0x10 => Some(Status::SwdApWait),
        0x11 => Some(Status::SwdApFault),
        0x12 => Some(Status::SwdApError),
        0x13 => Some(Status::SwdApParityError),
        0x14 => Some(Status::SwdDpWait),
        0x15 => Some(Status::SwdDpFault),
        0x16 => Some(Status::SwdDpError),
        0x17 => Some(Status::SwdDpParityError),
        0x18 => Some(Status::SwdApWdataError),
        0x19 => Some(Status::SwdApStickyError),
        0x1A => Some(Status::SwdApStickyOverrunError),
        0x20 => Some(Status::SwvNotSupported),
        0x41 => Some(Status::JtagFreqNotSupported),
        0x42 => Some(Status::JtagUnknownCmd),
        0x80 => Some(Status::JtagOk),
        _ => None,
    }
}

/// A supported SWD communication frequency on pre-v3 hardware, identified
/// by the delay count the probe firmware uses to pace the line.
#[derive(Clone, Copy, Debug, PartialEq, Eq, Structural)]
pub enum SwdFrequencyToDelayCount {
    Khz4600,
    Khz1800,
    Khz1200,
    Khz950,
    Khz650,
    Khz480,
    Khz400,
    Khz360,
    Khz240,
    Khz150,
    Khz125,
    Khz100,
}

impl SwdFrequencyToDelayCount {
    /// The frequency of this table entry, in kHz.
    pub open spec fn spec_khz(self) -> u32 {
        match self {
            SwdFrequencyToDelayCount::Khz4600 => 4600,
            SwdFrequencyToDelayCount::Khz1800 => 1800,
            SwdFrequencyToDelayCount::Khz1200 => 1200,
            SwdFrequencyToDelayCount::Khz950 => 950,
            SwdFrequencyToDelayCount::Khz650 => 650,
            SwdFrequencyToDelayCount::Khz480 => 480,
            SwdFrequencyToDelayCount::Khz400 => 400,
            SwdFrequencyToDelayCount::Khz360 => 360,
            SwdFrequencyToDelayCount::Khz240 => 240,
            SwdFrequencyToDelayCount::Khz150 => 150,
            SwdFrequencyToDelayCount::Khz125 => 125,
            SwdFrequencyToDelayCount::Khz100 => 100,
        }
    }

    /// Returns the frequency of this table entry, in kHz.
    pub fn to_khz(self) -> (r: u32)
        ensures
            r == self.spec_khz(),
    {
        match self {
            SwdFrequencyToDelayCount::Khz4600 => 4600,
            SwdFrequencyToDelayCount::Khz1800 => 1800,
            SwdFrequencyToDelayCount::Khz1200 => 1200,
            SwdFrequencyToDelayCount::Khz950 => 950,
            SwdFrequencyToDelayCount::Khz650 => 650,
            SwdFrequencyToDelayCount::Khz480 => 480,
            SwdFrequencyToDelayCount::Khz400 => 400,
            SwdFrequencyToDelayCount::Khz360 => 360,
            SwdFrequencyToDelayCount::Khz240 => 240,
            SwdFrequencyToDelayCount::Khz150 => 150,
            SwdFrequencyToDelayCount::Khz125 => 125,
            SwdFrequencyToDelayCount::Khz100 => 100,
        }
    }

    /// The delay count sent on the wire for this entry.
    pub open spec fn spec_delay_count(self) -> u16 {
        match self {
            SwdFrequencyToDelayCount::Khz4600 => 0,
            SwdFrequencyToDelayCount::Khz1800 => 1,
            SwdFrequencyToDelayCount::Khz1200 => 2,
            SwdFrequencyToDelayCount::Khz950 => 3,
            SwdFrequencyToDelayCount::Khz650 => 7,
            SwdFrequencyToDelayCount::Khz480 => 15,
            SwdFrequencyToDelayCount::Khz400 => 31,
            SwdFrequencyToDelayCount::Khz360 => 40,
            SwdFrequencyToDelayCount::Khz240 => 79,
            SwdFrequencyToDelayCount::Khz150 => 158,
            SwdFrequencyToDelayCount::Khz125 => 265,
            SwdFrequencyToDelayCount::Khz100 => 798,
        }
    }

    /// Returns the delay count sent on the wire for this entry.
    pub fn delay_count(self) -> (r: u16)
        ensures
            r == self.spec_delay_count(),
    {
        match self {
            SwdFrequencyToDelayCount::Khz4600 => 0,
            SwdFrequencyToDelayCount::Khz1800 => 1,
            SwdFrequencyToDelayCount::Khz1200 => 2,
            SwdFrequencyToDelayCount::Khz950 => 3,
            SwdFrequencyToDelayCount::Khz650 => 7,
            SwdFrequencyToDelayCount::Khz480 => 15,
            SwdFrequencyToDelayCount::Khz400 => 31,
            SwdFrequencyToDelayCount::Khz360 => 40,
            SwdFrequencyToDelayCount::Khz240 => 79,
            SwdFrequencyToDelayCount::Khz150 => 158,
            SwdFrequencyToDelayCount::Khz125 => 265,
            SwdFrequencyToDelayCount::Khz100 => 798,
        }
    }

    /// The table entry that `find_setting` selects for a request: the
    /// fastest tabulated frequency that does not exceed the request.
    pub open spec fn spec_find_setting(speed_khz: u32) -> Option<SwdFrequencyToDelayCount> {
        if speed_khz >= 4600 {
            Some(SwdFrequencyToDelayCount::Khz4600)
        } else if speed_khz >= 1800 {
            Some(SwdFrequencyToDelayCount::Khz1800)
        } else if speed_khz >= 1200 {
            Some(SwdFrequencyToDelayCount::Khz1200)
        } else if speed_khz >= 950 {
            Some(SwdFrequencyToDelayCount::Khz950)
        } else if speed_khz >= 650 {
            Some(SwdFrequencyToDelayCount::Khz650)
        } else if speed_khz >= 480 {
            Some(SwdFrequencyToDelayCount::Khz480)
        } else if speed_khz >= 400 {
            Some(SwdFrequencyToDelayCount::Khz400)
        } else if speed_khz >= 360 {
            Some(SwdFrequencyToDelayCount::Khz360)
        } else if speed_khz >= 240 {
            Some(SwdFrequencyToDelayCount::Khz240)
        } else if speed_khz >= 150 {
            Some(SwdFrequencyToDelayCount::Khz150)
        } else if speed_khz >= 125 {
            Some(SwdFrequencyToDelayCount::Khz125)
        } else if speed_khz >= 100 {
            Some(SwdFrequencyToDelayCount::Khz100)
        } else {
            None
        }
    }

    /// Looks up the fastest supported SWD setting not exceeding the request,
    /// or `None` when the request lies below the slowest table entry.
    pub fn find_setting(speed_khz: u32) -> (r: Option<SwdFrequencyToDelayCount>)
        ensures
            r == Self::spec_find_setting(speed_khz),
    {
        if speed_khz >= 4600 {
            Some(SwdFrequencyToDelayCount::Khz4600)
        } else if speed_khz >= 1800 {
            Some(SwdFrequencyToDelayCount::Khz1800)
        } else if speed_khz >= 1200 {
            Some(SwdFrequencyToDelayCount::Khz1200)
        } else if speed_khz >= 950 {
            Some(SwdFrequencyToDelayCount::Khz950)
        } else if speed_khz >= 650 {
            Some(SwdFrequencyToDelayCount::Khz650)
        } else if speed_khz >= 480 {
            Some(SwdFrequencyToDelayCount::Khz480)
        } else if speed_khz >= 400 {
            Some(SwdFrequencyToDelayCount::Khz400)
        } else if speed_khz >= 360 {
            Some(SwdFrequencyToDelayCount::Khz360)
        } else if speed_khz >= 240 {
            Some(SwdFrequencyToDelayCount::Khz240)
        } else if speed_khz >= 150 {
            Some(SwdFrequencyToDelayCount::Khz150)
        } else if speed_khz >= 125 {
            Some(SwdFrequencyToDelayCount::Khz125)
        } else if speed_khz >= 100 {
            Some(SwdFrequencyToDelayCount::Khz100)
        } else {
            None
        }
    }
}

/// Whether a frequency, in kHz, stands in the SWD table.
pub open spec fn is_swd_table_khz(khz: u32) -> bool {
    exists|s: SwdFrequencyToDelayCount| s.spec_khz() == khz
}

/// A supported JTAG communication frequency on pre-v3 hardware, identified
/// by the clock divider the probe firmware applies.
#[derive(Clone, Copy, Debug, PartialEq, Eq, Structural)]
pub enum JTagFrequencyToDivider {
    Khz18000,
    Khz9000,
    Khz4500,
    Khz2250,
    Khz1120,
    Khz560,
    Khz280,
    Khz140,
}

impl JTagFrequencyToDivider {
    /// The frequency of this table entry, in kHz.
    pub open spec fn spec_khz(self) -> u32 {
        match self {
            JTagFrequencyToDivider::Khz18000 => 18000,
            JTagFrequencyToDivider::Khz9000 => 9000,
            JTagFrequencyToDivider::Khz4500 => 4500,
            JTagFrequencyToDivider::Khz2250 => 2250,
            JTagFrequencyToDivider::Khz1120 => 1120,
            JTagFrequencyToDivider::Khz560 => 560,
            JTagFrequencyToDivider::Khz280 => 280,
            JTagFrequencyToDivider::Khz140 => 140,
        }
    }

    /// Returns the frequency of this table entry, in kHz.
    pub fn to_khz(self) -> (r: u32)
        ensures
            r == self.spec_khz(),
    {
        match self {
            JTagFrequencyToDivider::Khz18000 => 18000,
            JTagFrequencyToDivider::Khz9000 => 9000,
            JTagFrequencyToDivider::Khz4500 => 4500,
            JTagFrequencyToDivider::Khz2250 => 2250,
            JTagFrequencyToDivider::Khz1120 => 1120,
            JTagFrequencyToDivider::Khz560 => 560,
            JTagFrequencyToDivider::Khz280 => 280,
            JTagFrequencyToDivider::Khz140 => 140,
        }
    }

    /// The clock divider sent on the wire for this entry.
    pub open spec fn spec_divider(self) -> u16 {
        match self {
            JTagFrequencyToDivider::Khz18000 => 2,
            JTagFrequencyToDivider::Khz9000 => 4,
            JTagFrequencyToDivider::Khz4500 => 8,
            JTagFrequencyToDivider::Khz2250 => 16,
            JTagFrequencyToDivider::Khz1120 => 32,
            JTagFrequencyToDivider::Khz560 => 64,
            JTagFrequencyToDivider::Khz280 => 128,
            JTagFrequencyToDivider::Khz140 => 256,
        }
    }

    /// Returns the clock divider sent on the wire for this entry.
    pub fn divider(self) -> (r: u16)
        ensures
            r == self.spec_divider(),
    {
        match self {
            JTagFrequencyToDivider::Khz18000 => 2,
            JTagFrequencyToDivider::Khz9000 => 4,
            JTagFrequencyToDivider::Khz4500 => 8,
            JTagFrequencyToDivider::Khz2250 => 16,
            JTagFrequencyToDivider::Khz1120 => 32,
            JTagFrequencyToDivider::Khz560 => 64,
            JTagFrequencyToDivider::Khz280 => 128,
            JTagFrequencyToDivider::Khz140 => 256,
        }
    }

    /// The table entry that `find_setting` selects for a request: the
    /// fastest tabulated frequency that does not exceed the request.
    pub open spec fn spec_find_setting(speed_khz: u32) -> Option<JTagFrequencyToDivider> {
        if speed_khz >= 18000 {
            Some(JTagFrequencyToDivider::Khz18000)
        } else if speed_khz >= 9000 {
            Some(JTagFrequencyToDivider::Khz9000)
        } else if speed_khz >= 4500 {
            Some(JTagFrequencyToDivider::Khz4500)
        } else if speed_khz >= 2250 {
            Some(JTagFrequencyToDivider::Khz2250)
        } else if speed_khz >= 1120 {
            Some(JTagFrequencyToDivider::Khz1120)
        } else if speed_khz >= 560 {
            Some(JTagFrequencyToDivider::Khz560)
        } else if speed_khz >= 280 {
            Some(JTagFrequencyToDivider::Khz280)
        } else if speed_khz >= 140 {
            Some(JTagFrequencyToDivider::Khz140)
        } else {
            None
        }
    }

    /// Looks up the fastest supported JTAG setting not exceeding the request,
    /// or `None` when the request lies below the slowest table entry.
    pub fn find_setting(speed_khz: u32) -> (r: Option<JTagFrequencyToDivider>)
        ensures
            r == Self::spec_find_setting(speed_khz),
    {
        if speed_khz >= 18000 {
            Some(JTagFrequencyToDivider::Khz18000)
        } else if speed_khz >= 9000 {
            Some(JTagFrequencyToDivider::Khz9000)
        } else if speed_khz >= 4500 {
            Some(JTagFrequencyToDivider::Khz4500)
        } else if speed_khz >= 2250 {
            Some(JTagFrequencyToDivider::Khz2250)
        } else if speed_khz >= 1120 {
            Some(JTagFrequencyToDivider::Khz1120)
        } else if speed_khz >= 560 {
            Some(JTagFrequencyToDivider::Khz560)
        } else if speed_khz >= 280 {
            Some(JTagFrequencyToDivider::Khz280)
        } else if speed_khz >= 140 {
            Some(JTagFrequencyToDivider::Khz140)
        } else {
            None
        }
    }
}

/// Whether a frequency, in kHz, stands in the JTAG table.
pub open spec fn is_jtag_table_khz(khz: u32) -> bool {
    exists|s: JTagFrequencyToDivider| s.spec_khz() == khz
}

/// A pre-v3 table lookup never fabricates a speed: a selected setting is a
/// table entry that does not exceed the request, it is the largest such
/// entry, and the lookup fails only when the request lies below the whole
/// table.
pub proof fn lemma_swd_find_setting_sound(speed_khz: u32)
    ensures
        SwdFrequencyToDelayCount::spec_find_setting(speed_khz) matches Some(s) ==> is_swd_table_khz(
            s.spec_khz(),
        ),
        SwdFrequencyToDelayCount::spec_find_setting(speed_khz) matches Some(s) ==> s.spec_khz()
            <= speed_khz,
        SwdFrequencyToDelayCount::spec_find_setting(speed_khz) matches Some(s) ==> (
        forall|t: SwdFrequencyToDelayCount| t.spec_khz() <= speed_khz ==> t.spec_khz()
            <= s.spec_khz()),
        SwdFrequencyToDelayCount::spec_find_setting(speed_khz) is None <==> speed_khz < 100,
{
    match SwdFrequencyToDelayCount::spec_find_setting(speed_khz) {
        Some(s) => {
            assert(is_swd_table_khz(s.spec_khz()));
            assert(forall|t: SwdFrequencyToDelayCount| #[trigger]
                t.spec_khz() <= speed_khz ==> t.spec_khz() <= s.spec_khz());
        },
        None => {},
    }
}

/// The JTAG counterpart of `lemma_swd_find_setting_sound`.
pub proof fn lemma_jtag_find_setting_sound(speed_khz: u32)
    ensures
        JTagFrequencyToDivider::spec_find_setting(speed_khz) matches Some(s) ==> is_jtag_table_khz(
            s.spec_khz(),
        ),
        JTagFrequencyToDivider::spec_find_setting(speed_khz) matches Some(s) ==> s.spec_khz()
            <= speed_khz,
        JTagFrequencyToDivider::spec_find_setting(speed_khz) matches Some(s) ==> (
        forall|t: JTagFrequencyToDivider| t.spec_khz() <= speed_khz ==> t.spec_khz()
            <= s.spec_khz()),
        JTagFrequencyToDivider::spec_find_setting(speed_khz) is None <==> speed_khz < 140,
{
    match JTagFrequencyToDivider::spec_find_setting(speed_khz) {
        Some(s) => {
            assert(is_jtag_table_khz(s.spec_khz()));
            assert(forall|t: JTagFrequencyToDivider| #[trigger]
                t.spec_khz() <= speed_khz ==> t.spec_khz() <= s.spec_khz());
        },
        None => {},
    }
}

} // verus!

