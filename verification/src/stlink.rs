//! The probe driver: lifecycle, version and speed negotiation, mode state
//! machine, and DAP register access with Access-Port session caching.

use vstd::prelude::*;
use crate::codec::parse_com_freq_response;
use crate::codec::parse_version_word;
use crate::codec::read_u16_be;
use crate::codec::read_u32_le;
use crate::codec::u16_le_parts;
use crate::codec::u32_le_parts;
use crate::constants::DFU_COMMAND;
use crate::constants::DFU_EXIT;
use crate::constants::GET_COM_FREQ;
use crate::constants::GET_CURRENT_MODE;
use crate::constants::GET_TARGET_VOLTAGE;
use crate::constants::GET_VERSION;
use crate::constants::GET_VERSION_EXT;
use crate::constants::JTAG_CLOSE_AP_DBG;
use crate::constants::JTAG_COMMAND;
use crate::constants::JTAG_DRIVE_NRST;
use crate::constants::JTAG_DRIVE_NRST_HIGH;
use crate::constants::JTAG_DRIVE_NRST_LOW;
use crate::constants::JTAG_DRIVE_NRST_PULSE;
use crate::constants::JTAG_ENTER2;
use crate::constants::JTAG_ENTER_JTAG_NO_CORE_RESET;
use crate::constants::JTAG_ENTER_SWD;
use crate::constants::JTAG_INIT_AP;
use crate::constants::JTAG_READ_DAP_REG;
use crate::constants::JTAG_SET_FREQ;
use crate::constants::JTAG_WRITE_DAP_REG;
use crate::constants::SET_COM_FREQ;
use crate::constants::SWD_SET_FREQ;
use crate::constants::SWIM_COMMAND;
use crate::constants::SWIM_EXIT;
use crate::constants::JTagFrequencyToDivider;
use crate::constants::Mode;
use crate::constants::Status;
use crate::constants::SwdFrequencyToDelayCount;
use crate::constants::is_jtag_table_khz;
use crate::constants::is_swd_table_khz;
use crate::constants::mode_from_u8;
use crate::constants::status_from_u8;
use crate::error::DebugProbeError;
use crate::error::StlinkError;
use crate::error::is_io_failure;
use crate::error::is_status_failure;
use crate::transport::TIMEOUT_MS;
use crate::transport::Transport;

verus! {

/// Minimum required probe firmware version on pre-v3 hardware.
pub const MIN_JTAG_VERSION: u8 = 24;

/// Firmware version that adds multiple Access Port support.
pub const MIN_JTAG_VERSION_MULTI_AP: u8 = 28;

/// The wire protocol the probe drives towards the target.
#[derive(Clone, Copy, Debug, PartialEq, Eq, Structural)]
pub enum WireProtocol {
    Swd,
    Jtag,
}

/// A DAP port: the root Debug Port, or an Access Port by its index.
#[derive(Clone, Copy, Debug, PartialEq, Eq, Structural)]
pub enum PortType {
    DebugPort,
    AccessPort(u16),
}

impl PortType {
    /// The port number sent on the wire for this port.
    pub open spec fn spec_wire(self) -> u16 {
        match self {
            PortType::DebugPort => 0xFFFF,
            PortType::AccessPort(n) => n,
        }
    }

    /// Returns the port number sent on the wire for this port.
    pub fn to_wire(self) -> (r: u16)
        ensures
            r == self.spec_wire(),
    {
        match self {
            PortType::DebugPort => 0xFFFF,
            PortType::AccessPort(n) => n,
        }
    }
}

/// The session commands a register transfer must issue before it runs,
/// given the cached open Access Port and the one it needs.
#[derive(Clone, Copy, Debug, PartialEq, Eq, Structural)]
pub enum ApSwitch {
    /// The needed Access Port is already open.
    NoCommands,
    /// No Access Port is open yet: open the needed one.
    OpenOnly(u16),
    /// Another Access Port is open: close it, then open the needed one.
    CloseThenOpen(u16, u16),
}

/// The session commands needed to reach Access Port `target` when
/// `current` is the cached open port.
pub open spec fn spec_ap_switch_plan(current: Option<u16>, target: u16) -> ApSwitch {
    match current {
        Some(m) => if m == target {
            ApSwitch::NoCommands
        } else {
            ApSwitch::CloseThenOpen(m, target)
        },
        None => ApSwitch::OpenOnly(target),
    }
}

/// Decides which session commands a transfer on Access Port `target`
/// must issue, given the cached open port.
pub fn ap_switch_plan(current: Option<u16>, target: u16) -> (r: ApSwitch)
    ensures
        r == spec_ap_switch_plan(current, target),
{
    match current {
        Some(m) => if m == target {
            ApSwitch::NoCommands
        } else {
            ApSwitch::CloseThenOpen(m, target)
        },
        None => ApSwitch::OpenOnly(target),
    }
}

/// Law of the Access-Port session cache: a transfer on the port that is
/// already open issues no session commands; a transfer on a different
/// port issues exactly one close of the old port and then one open of
/// the new one; the first transfer only opens.
pub proof fn lemma_ap_switch_discipline(current: u16, target: u16)
    ensures
        current != target ==> spec_ap_switch_plan(Some(current), target) == ApSwitch::CloseThenOpen(
            current,
            target,
        ),
        spec_ap_switch_plan(Some(target), target) == ApSwitch::NoCommands,
        spec_ap_switch_plan(None, target) == ApSwitch::OpenOnly(target),
        current != target ==> spec_switch_cmds(Some(current), target) =~= seq![
            spec_close_ap_cmd((current & 0xFF) as u8),
            spec_open_ap_cmd((target & 0xFF) as u8),
        ],
        spec_switch_cmds(Some(target), target) =~= Seq::<Seq<u8>>::empty(),
        spec_switch_cmds(None, target) =~= seq![spec_open_ap_cmd((target & 0xFF) as u8)],
{
}

/// Whether the probe supports more than one Access Port session:
/// v3 hardware always does, older hardware needs recent enough firmware.
pub open spec fn multi_ap_supported(hw_version: u8, jtag_version: u8) -> bool {
    hw_version >= 3 || jtag_version >= MIN_JTAG_VERSION_MULTI_AP
}

/// The speed that the pre-v3 table lookup yields for a request under the
/// given protocol, in kHz, or `None` when the request is unsupported.
pub open spec fn spec_low_gen_selected(protocol: WireProtocol, requested_khz: u32) -> Option<u32> {
    match protocol {
        WireProtocol::Swd => match SwdFrequencyToDelayCount::spec_find_setting(requested_khz) {
            Some(s) => Some(s.spec_khz()),
            None => None,
        },
        WireProtocol::Jtag => match JTagFrequencyToDivider::spec_find_setting(requested_khz) {
            Some(s) => Some(s.spec_khz()),
            None => None,
        },
    }
}

/// Whether a frequency stands in the pre-v3 table of the given protocol.
pub open spec fn spec_is_table_khz(protocol: WireProtocol, khz: u32) -> bool {
    match protocol {
        WireProtocol::Swd => is_swd_table_khz(khz),
        WireProtocol::Jtag => is_jtag_table_khz(khz),
    }
}

/// The protocol selector byte carried by the v3 frequency commands.
pub open spec fn spec_proto_byte(protocol: WireProtocol) -> u8 {
    match protocol {
        WireProtocol::Swd => 0,
        WireProtocol::Jtag => 1,
    }
}

/// The mode-entry parameter byte for a protocol.
pub open spec fn spec_enter_param(protocol: WireProtocol) -> u8 {
    match protocol {
        WireProtocol::Swd => JTAG_ENTER_SWD,
        WireProtocol::Jtag => JTAG_ENTER_JTAG_NO_CORE_RESET,
    }
}

/// The mode-entry command for a protocol.
pub open spec fn spec_enter_cmd(protocol: WireProtocol) -> Seq<u8> {
    seq![JTAG_COMMAND, JTAG_ENTER2, spec_enter_param(protocol), 0]
}

/// The command that opens the Access Port session for `apsel`.
pub open spec fn spec_open_ap_cmd(apsel: u8) -> Seq<u8> {
    seq![JTAG_COMMAND, JTAG_INIT_AP, apsel]
}

/// The command that closes the Access Port session for `apsel`.
pub open spec fn spec_close_ap_cmd(apsel: u8) -> Seq<u8> {
    seq![JTAG_COMMAND, JTAG_CLOSE_AP_DBG, apsel]
}

/// The session commands, as wire bytes and in order, that a transfer on
/// Access Port `target` issues when `current` is the cached open port:
/// none on a cache hit, one open on the first transfer, and exactly one
/// close of the old port followed by one open of the new one otherwise.
pub open spec fn spec_switch_cmds(current: Option<u16>, target: u16) -> Seq<Seq<u8>> {
    match spec_ap_switch_plan(current, target) {
        ApSwitch::NoCommands => Seq::empty(),
        ApSwitch::OpenOnly(t) => seq![spec_open_ap_cmd((t & 0xFF) as u8)],
        ApSwitch::CloseThenOpen(m, t) => seq![
            spec_close_ap_cmd((m & 0xFF) as u8),
            spec_open_ap_cmd((t & 0xFF) as u8),
        ],
    }
}

/// The nRESET drive command for a level.
pub open spec fn spec_nrst_cmd(is_asserted: bool) -> Seq<u8> {
    seq![
        JTAG_COMMAND,
        JTAG_DRIVE_NRST,
        if is_asserted {
            JTAG_DRIVE_NRST_LOW
        } else {
            JTAG_DRIVE_NRST_HIGH
        },
    ]
}

/// The SWD frequency-set command for a table entry: the delay count goes
/// out as two little-endian bytes.
pub open spec fn spec_swd_freq_cmd(frequency: SwdFrequencyToDelayCount) -> Seq<u8> {
    seq![
        JTAG_COMMAND,
        SWD_SET_FREQ,
        crate::codec::spec_lo8(frequency.spec_delay_count()),
        crate::codec::spec_hi8(frequency.spec_delay_count()),
    ]
}

/// The JTAG frequency-set command for a table entry: the divider goes
/// out as two little-endian bytes.
pub open spec fn spec_jtag_freq_cmd(frequency: JTagFrequencyToDivider) -> Seq<u8> {
    seq![
        JTAG_COMMAND,
        JTAG_SET_FREQ,
        crate::codec::spec_lo8(frequency.spec_divider()),
        crate::codec::spec_hi8(frequency.spec_divider()),
    ]
}

/// The frequency-list query command for a protocol (v3 hardware).
pub open spec fn spec_get_com_freq_cmd(protocol: WireProtocol) -> Seq<u8> {
    seq![JTAG_COMMAND, GET_COM_FREQ, spec_proto_byte(protocol)]
}

/// The set-communication-frequency command (v3 hardware): the frequency,
/// in kHz, goes out as four little-endian bytes.
pub open spec fn spec_set_com_freq_cmd(protocol: WireProtocol, frequency_khz: u32) -> Seq<u8> {
    seq![
        JTAG_COMMAND,
        SET_COM_FREQ,
        spec_proto_byte(protocol),
        0,
        crate::codec::spec_byte32(frequency_khz, 0),
        crate::codec::spec_byte32(frequency_khz, 1),
        crate::codec::spec_byte32(frequency_khz, 2),
        crate::codec::spec_byte32(frequency_khz, 3),
    ]
}

/// The DAP register-read command: header, then the wire port number and
/// the register address, each as two little-endian bytes.
pub open spec fn spec_read_dap_cmd(port: PortType, addr: u16) -> Seq<u8> {
    seq![
        JTAG_COMMAND,
        JTAG_READ_DAP_REG,
        crate::codec::spec_lo8(port.spec_wire()),
        crate::codec::spec_hi8(port.spec_wire()),
        crate::codec::spec_lo8(addr),
        crate::codec::spec_hi8(addr),
    ]
}

/// The DAP register-write command: as the read command, followed by the
/// value as four little-endian bytes.
pub open spec fn spec_write_dap_cmd(port: PortType, addr: u16, value: u32) -> Seq<u8> {
    seq![
        JTAG_COMMAND,
        JTAG_WRITE_DAP_REG,
        crate::codec::spec_lo8(port.spec_wire()),
        crate::codec::spec_hi8(port.spec_wire()),
        crate::codec::spec_lo8(addr),
        crate::codec::spec_hi8(addr),
        crate::codec::spec_byte32(value, 0),
        crate::codec::spec_byte32(value, 1),
        crate::codec::spec_byte32(value, 2),
        crate::codec::spec_byte32(value, 3),
    ]
}

/// Whether `post` extends `pre` by some leading part of `planned`, in
/// order: the commands issued never stray from the planned sequence, and
/// an aborted operation stops part-way without reordering or repeating.
pub open spec fn log_grows_along(pre: Seq<Seq<u8>>, post: Seq<Seq<u8>>, planned: Seq<Seq<u8>>) -> bool {
    exists|k: int| 0 <= k <= planned.len() && post == pre + planned.subrange(0, k)
}

/// The command sequences an idle entry can hand to the transport: the
/// mode query alone, or the mode query followed by the one exit command
/// the reported mode demands.
pub open spec fn spec_idle_log(pre: Seq<Seq<u8>>, post: Seq<Seq<u8>>) -> bool {
    ||| post == pre.push(seq![GET_CURRENT_MODE])
    ||| post == pre.push(seq![GET_CURRENT_MODE]).push(seq![DFU_COMMAND, DFU_EXIT])
    ||| post == pre.push(seq![GET_CURRENT_MODE]).push(seq![SWIM_COMMAND, SWIM_EXIT])
}

/// Picks the largest available frequency that does not exceed the request,
/// as v3 speed negotiation demands; fails with the unsupported-speed error
/// exactly when every available frequency exceeds the request.
pub fn select_v3_speed(available: &Vec<u32>, requested_khz: u32) -> (r: Result<
    u32,
    DebugProbeError,
>)
    ensures
        r matches Ok(v) ==> available@.contains(v) && v <= requested_khz,
        r matches Ok(v) ==> (forall|j: int|
            0 <= j < available@.len() && available@[j] <= requested_khz ==> available@[j] <= v),
        (forall|j: int| 0 <= j < available@.len() ==> available@[j] > requested_khz) <==> r
            == Err::<u32, DebugProbeError>(DebugProbeError::UnsupportedSpeed(requested_khz)),
        r matches Err(e) ==> e == DebugProbeError::UnsupportedSpeed(requested_khz),
{
    let mut best: Option<u32> = None;
    let mut i: usize = 0;
    while i < available.len()
        invariant
            i <= available@.len(),
            best matches Some(v) ==> available@.contains(v) && v <= requested_khz,
            best matches Some(v) ==> (forall|j: int|
                0 <= j < i && available@[j] <= requested_khz ==> available@[j] <= v),
            best is None ==> (forall|j: int| 0 <= j < i ==> available@[j] > requested_khz),
        decreases available@.len() - i,
    {
        let x = available[i];
        if x <= requested_khz {
            match best {
                Some(b) => {
                    if x > b {
                        best = Some(x);
                    }
                },
                None => {
                    best = Some(x);
                },
            }
            proof {
                assert(available@.contains(available@[i as int]));
            }
        }
        i = i + 1;
    }
    match best {
        Some(v) => Ok(v),
        None => Err(DebugProbeError::UnsupportedSpeed(requested_khz)),
    }
}

/// Rejects an all-zero reference sample before any voltage is derived
/// from a sample pair; hands a usable pair through unchanged.
pub fn check_voltage_samples(a0: u32, a1: u32) -> (r: Result<(u32, u32), DebugProbeError>)
    ensures
        a0 == 0 <==> r == Err::<(u32, u32), DebugProbeError>(
            DebugProbeError::ProbeSpecific(StlinkError::VoltageDivisionByZero),
        ),
        a0 != 0 ==> r == Ok::<(u32, u32), DebugProbeError>((a0, a1)),
{
    if a0 != 0 {
        Ok((a0, a1))
    } else {
        Err(DebugProbeError::ProbeSpecific(StlinkError::VoltageDivisionByZero))
    }
}

/// The probe driver.  It owns its transport exclusively and carries the
/// session state: the hardware and firmware versions fixed at
/// initialization, the selected wire protocol, the per-protocol current
/// speeds, and the cached open Access Port.
pub struct STLink<T> {
    /// The command/response channel to the probe.
    pub transport: T,
    /// Hardware generation, fixed by `init`.
    pub hw_version: u8,
    /// Firmware (JTAG/SWD) version, fixed by `init`.
    pub jtag_version: u8,
    /// The wire protocol the next attach will enter.
    pub protocol: WireProtocol,
    /// Current SWD speed, in kHz.
    pub swd_speed_khz: u32,
    /// Current JTAG speed, in kHz.
    pub jtag_speed_khz: u32,
    /// Index of the Access Port whose session is currently open.
    pub current_ap: Option<u16>,
    /// Every command handed to the transport, as wire bytes, oldest first.
    pub cmd_log: Ghost<Seq<Seq<u8>>>,
    /// How many hard resets were issued to the transport.
    pub resets: Ghost<nat>,
}

/// Whether two driver states carry the same session fields and the same
/// reset count; the transport may differ and the command log may grow.
pub open spec fn same_session<T>(pre: STLink<T>, post: STLink<T>) -> bool {
    &&& pre.hw_version == post.hw_version
    &&& pre.jtag_version == post.jtag_version
    &&& pre.protocol == post.protocol
    &&& pre.swd_speed_khz == post.swd_speed_khz
    &&& pre.jtag_speed_khz == post.jtag_speed_khz
    &&& pre.current_ap == post.current_ap
    &&& pre.resets == post.resets
}

impl<T: Transport> STLink<T> {
    /// Validates a response's status byte: the success code passes, any
    /// other known code fails carrying that code, and an unrecognized
    /// byte fails carrying the distinguished unknown code.
    pub fn check_status(status: &[u8]) -> (r: Result<(), DebugProbeError>)
        requires
            status@.len() >= 1,
        ensures
            r == spec_check_status(status@[0]),
    {
        match status_from_u8(status[0]) {
            Some(code) => {
                if code == Status::JtagOk {
                    Ok(())
                } else {
                    Err(DebugProbeError::ProbeSpecific(StlinkError::CommandFailed(code)))
                }
            },
            None => Err(
                DebugProbeError::ProbeSpecific(StlinkError::CommandFailed(Status::Unknown)),
            ),
        }
    }

    /// Sends one command and reads its fixed-size response; a response
    /// shorter or longer than the operation's layout is a protocol error.
    /// The command is appended to the log exactly once, whatever comes
    /// back.
    fn transfer(&mut self, cmd: &Vec<u8>, response_len: usize) -> (r: Result<
        Vec<u8>,
        DebugProbeError,
    >)
        ensures
            same_session(*old(self), *final(self)),
            final(self).cmd_log@ == old(self).cmd_log@.push(cmd@),
            r matches Ok(buf) ==> buf@.len() == response_len,
            r matches Err(e) ==> is_io_failure(e),
    {
        self.cmd_log = Ghost(self.cmd_log@.push(cmd@));
        let nodata: Vec<u8> = Vec::new();
        match self.transport.write(cmd.as_slice(), nodata.as_slice(), response_len, TIMEOUT_MS) {
            Ok(buf) => {
                if buf.len() == response_len {
                    Ok(buf)
                } else {
                    Err(DebugProbeError::ProbeSpecific(StlinkError::NotEnoughBytesRead))
                }
            },
            Err(e) => Err(DebugProbeError::USB(e)),
        }
    }

    /// Queries the probe's current operating mode.
    fn get_current_mode(&mut self) -> (r: Result<Mode, DebugProbeError>)
        ensures
            same_session(*old(self), *final(self)),
            final(self).cmd_log@ == old(self).cmd_log@.push(seq![GET_CURRENT_MODE]),
            r matches Err(e) ==> is_io_failure(e) || e == DebugProbeError::ProbeSpecific(
                StlinkError::UnknownMode,
            ),
    {
        let cmd: Vec<u8> = vec![GET_CURRENT_MODE];
        proof {
            assert(cmd@ =~= seq![GET_CURRENT_MODE]);
        }
        let buf = self.transfer(&cmd, 2)?;
        match mode_from_u8(buf[0]) {
            Some(mode) => Ok(mode),
            None => Err(DebugProbeError::ProbeSpecific(StlinkError::UnknownMode)),
        }
    }

    /// Brings the probe to an idle-compatible mode: exits DFU or SWIM
    /// mode if one of them is active, otherwise does nothing.
    fn enter_idle(&mut self) -> (r: Result<(), DebugProbeError>)
        ensures
            same_session(*old(self), *final(self)),
            spec_idle_log(old(self).cmd_log@, final(self).cmd_log@),
            r matches Err(e) ==> is_io_failure(e) || e == DebugProbeError::ProbeSpecific(
                StlinkError::UnknownMode,
            ),
    {
        let mode = self.get_current_mode()?;
        match mode {
            Mode::Dfu => {
                let cmd: Vec<u8> = vec![DFU_COMMAND, DFU_EXIT];
                proof {
                    assert(cmd@ =~= seq![DFU_COMMAND, DFU_EXIT]);
                }
                let _ = self.transfer(&cmd, 0)?;
                Ok(())
            },
            Mode::Swim => {
                let cmd: Vec<u8> = vec![SWIM_COMMAND, SWIM_EXIT];
                proof {
                    assert(cmd@ =~= seq![SWIM_COMMAND, SWIM_EXIT]);
                }
                let _ = self.transfer(&cmd, 0)?;
                Ok(())
            },
            _ => Ok(()),
        }
    }

    /// Queries the probe's hardware and firmware versions and records
    /// them; on v3 or newer hardware the firmware field of the base word
    /// is not authoritative and the extended query overrides it.  Fails
    /// when the firmware reports no JTAG/SWD support or is outdated.
    fn get_version(&mut self) -> (r: Result<(u8, u8), DebugProbeError>)
        ensures
            final(self).protocol == old(self).protocol,
            final(self).swd_speed_khz == old(self).swd_speed_khz,
            final(self).jtag_speed_khz == old(self).jtag_speed_khz,
            final(self).current_ap == old(self).current_ap,
            final(self).resets@ == old(self).resets@,
            r matches Ok(v) ==> v.0 == final(self).hw_version && v.1 == final(self).jtag_version,
            r matches Ok(v) ==> v.0 <= 0x0F && v.1 != 0 && (v.0 < 3 ==> v.1 >= MIN_JTAG_VERSION),
            final(self).cmd_log@ == old(self).cmd_log@.push(seq![GET_VERSION]) || final(self).cmd_log@ == old(self).cmd_log@.push(seq![GET_VERSION]).push(seq![GET_VERSION_EXT]),
            r is Ok ==> (final(self).cmd_log@.len() == old(self).cmd_log@.len() + 2 <==> final(self).hw_version >= 3),
            r matches Err(e) ==> is_io_failure(e) || ((e == DebugProbeError::JTAGNotSupportedOnProbe
                <==> final(self).jtag_version == 0) && (e == DebugProbeError::ProbeFirmwareOutdated
                <==> final(self).jtag_version != 0 && final(self).hw_version < 3 && final(self).jtag_version < MIN_JTAG_VERSION)),
            r matches Err(e) ==> is_io_failure(e) || e == DebugProbeError::JTAGNotSupportedOnProbe
                || e == DebugProbeError::ProbeFirmwareOutdated,
    {
        let cmd: Vec<u8> = vec![GET_VERSION];
        proof {
            assert(cmd@ =~= seq![GET_VERSION]);
        }
        let buf = self.transfer(&cmd, 6)?;
        let word = read_u16_be(buf.as_slice(), 0);
        let (hw, fw) = parse_version_word(word);
        self.hw_version = hw;
        self.jtag_version = fw;

        // On v3 and newer hardware only the extended query reports the
        // authoritative firmware version, as a standalone byte.
        if self.hw_version >= 3 {
            let cmd_ext: Vec<u8> = vec![GET_VERSION_EXT];
            proof {
                assert(cmd_ext@ =~= seq![GET_VERSION_EXT]);
            }
            let buf_ext = self.transfer(&cmd_ext, 12)?;
            self.jtag_version = buf_ext[2];
        }

        if self.jtag_version == 0 {
            return Err(DebugProbeError::JTAGNotSupportedOnProbe);
        }
        if self.hw_version < 3 && self.jtag_version < MIN_JTAG_VERSION {
            return Err(DebugProbeError::ProbeFirmwareOutdated);
        }
        Ok((self.hw_version, self.jtag_version))
    }

    /// Reads the two raw voltage sample words; rejects a pair whose
    /// reference sample is zero, which would make the derived voltage a
    /// division by zero.
    pub fn get_target_voltage_samples(&mut self) -> (r: Result<(u32, u32), DebugProbeError>)
        ensures
            same_session(*old(self), *final(self)),
            final(self).cmd_log@ == old(self).cmd_log@.push(seq![GET_TARGET_VOLTAGE]),
            r matches Ok(p) ==> p.0 != 0,
            r matches Err(e) ==> is_io_failure(e) || e == DebugProbeError::ProbeSpecific(
                StlinkError::VoltageDivisionByZero,
            ),
    {
        let cmd: Vec<u8> = vec![GET_TARGET_VOLTAGE];
        proof {
            assert(cmd@ =~= seq![GET_TARGET_VOLTAGE]);
        }
        let buf = self.transfer(&cmd, 8)?;
        let a0 = read_u32_le(buf.as_slice(), 0);
        let a1 = read_u32_le(buf.as_slice(), 4);
        check_voltage_samples(a0, a1)
    }

    /// Returns the current and available communication frequencies for a
    /// protocol, in kHz (v3 hardware only).
    fn get_communication_frequencies(&mut self, protocol: WireProtocol) -> (r: Result<
        (Vec<u32>, u32),
        DebugProbeError,
    >)
        requires
            old(self).hw_version == 3,
        ensures
            same_session(*old(self), *final(self)),
            final(self).cmd_log@ == old(self).cmd_log@.push(spec_get_com_freq_cmd(protocol)),
            r matches Ok(p) ==> p.0@.len() <= 10,
            r matches Err(e) ==> is_io_failure(e) || is_status_failure(e),
    {
        let cmd_proto: u8 = match protocol {
            WireProtocol::Swd => 0,
            WireProtocol::Jtag => 1,
        };
        let cmd: Vec<u8> = vec![JTAG_COMMAND, GET_COM_FREQ, cmd_proto];
        proof {
            assert(cmd@ =~= spec_get_com_freq_cmd(protocol));
        }
        let buf = self.transfer(&cmd, 52)?;
        Self::check_status(buf.as_slice())?;
        let parsed = parse_com_freq_response(buf.as_slice());
        Ok(parsed)
    }

    /// Issues the set-communication-frequency command (v3 hardware only).
    fn set_communication_frequency(
        &mut self,
        protocol: WireProtocol,
        frequency_khz: u32,
    ) -> (r: Result<(), DebugProbeError>)
        requires
            old(self).hw_version == 3,
        ensures
            same_session(*old(self), *final(self)),
            final(self).cmd_log@ == old(self).cmd_log@.push(
                spec_set_com_freq_cmd(protocol, frequency_khz),
            ),
            r matches Err(e) ==> is_io_failure(e) || is_status_failure(e),
    {
        let cmd_proto: u8 = match protocol {
            WireProtocol::Swd => 0,
            WireProtocol::Jtag => 1,
        };
        let (f0, f1, f2, f3) = u32_le_parts(frequency_khz);
        let cmd: Vec<u8> = vec![JTAG_COMMAND, SET_COM_FREQ, cmd_proto, 0, f0, f1, f2, f3];
        proof {
            assert(cmd@ =~= spec_set_com_freq_cmd(protocol, frequency_khz));
        }
        let buf = self.transfer(&cmd, 8)?;
        Self::check_status(buf.as_slice())
    }

    /// Issues the SWD frequency-set command for a table entry.
    pub fn set_swd_frequency(&mut self, frequency: SwdFrequencyToDelayCount) -> (r: Result<
        (),
        DebugProbeError,
    >)
        ensures
            same_session(*old(self), *final(self)),
            final(self).cmd_log@ == old(self).cmd_log@.push(spec_swd_freq_cmd(frequency)),
            r matches Err(e) ==> is_io_failure(e) || is_status_failure(e),
    {
        let (d0, d1) = u16_le_parts(frequency.delay_count());
        let cmd: Vec<u8> = vec![JTAG_COMMAND, SWD_SET_FREQ, d0, d1];
        proof {
            assert(cmd@ =~= spec_swd_freq_cmd(frequency));
        }
        let buf = self.transfer(&cmd, 2)?;
        Self::check_status(buf.as_slice())
    }

    /// Issues the JTAG frequency-set command for a table entry.
    pub fn set_jtag_frequency(&mut self, frequency: JTagFrequencyToDivider) -> (r: Result<
        (),
        DebugProbeError,
    >)
        ensures
            same_session(*old(self), *final(self)),
            final(self).cmd_log@ == old(self).cmd_log@.push(spec_jtag_freq_cmd(frequency)),
            r matches Err(e) ==> is_io_failure(e) || is_status_failure(e),
    {
        let (d0, d1) = u16_le_parts(frequency.divider());
        let cmd: Vec<u8> = vec![JTAG_COMMAND, JTAG_SET_FREQ, d0, d1];
        proof {
            assert(cmd@ =~= spec_jtag_freq_cmd(frequency));
        }
        let buf = self.transfer(&cmd, 2)?;
        Self::check_status(buf.as_slice())
    }

    /// Opens the Access Port session for `apsel`.  Needs multi-AP support;
    /// on older probes without it, fails before any transport I/O.
    pub fn open_ap(&mut self, apsel: u8) -> (r: Result<(), DebugProbeError>)
        ensures
            same_session(*old(self), *final(self)),
            !multi_ap_supported(old(self).hw_version, old(self).jtag_version) <==> r == Err::<
                (),
                DebugProbeError,
            >(DebugProbeError::ProbeSpecific(StlinkError::JTagDoesNotSupportMultipleAP)),
            !multi_ap_supported(old(self).hw_version, old(self).jtag_version) ==> *final(self)
                == *old(self),
            multi_ap_supported(old(self).hw_version, old(self).jtag_version) ==> final(self).cmd_log@ == old(self).cmd_log@.push(spec_open_ap_cmd(apsel)),
            r matches Err(e) ==> e == DebugProbeError::ProbeSpecific(
                StlinkError::JTagDoesNotSupportMultipleAP,
            ) || is_io_failure(e) || is_status_failure(e),
    {
        if self.hw_version < 3 && self.jtag_version < MIN_JTAG_VERSION_MULTI_AP {
            Err(DebugProbeError::ProbeSpecific(StlinkError::JTagDoesNotSupportMultipleAP))
        } else {
            let cmd: Vec<u8> = vec![JTAG_COMMAND, JTAG_INIT_AP, apsel];
            proof {
                assert(cmd@ =~= spec_open_ap_cmd(apsel));
            }
            let buf = self.transfer(&cmd, 2)?;
            Self::check_status(buf.as_slice())
        }
    }

    /// Closes the Access Port session for `apsel`.  Needs multi-AP support;
    /// on older probes without it, fails before any transport I/O.
    pub fn close_ap(&mut self, apsel: u8) -> (r: Result<(), DebugProbeError>)
        ensures
            same_session(*old(self), *final(self)),
            !multi_ap_supported(old(self).hw_version, old(self).jtag_version) <==> r == Err::<
                (),
                DebugProbeError,
            >(DebugProbeError::ProbeSpecific(StlinkError::JTagDoesNotSupportMultipleAP)),
            !multi_ap_supported(old(self).hw_version, old(self).jtag_version) ==> *final(self)
                == *old(self),
            multi_ap_supported(old(self).hw_version, old(self).jtag_version) ==> final(self).cmd_log@ == old(self).cmd_log@.push(spec_close_ap_cmd(apsel)),
            r matches Err(e) ==> e == DebugProbeError::ProbeSpecific(
                StlinkError::JTagDoesNotSupportMultipleAP,
            ) || is_io_failure(e) || is_status_failure(e),
    {
        if self.hw_version < 3 && self.jtag_version < MIN_JTAG_VERSION_MULTI_AP {
            Err(DebugProbeError::ProbeSpecific(StlinkError::JTagDoesNotSupportMultipleAP))
        } else {
            let cmd: Vec<u8> = vec![JTAG_COMMAND, JTAG_CLOSE_AP_DBG, apsel];
            proof {
                assert(cmd@ =~= spec_close_ap_cmd(apsel));
            }
            let buf = self.transfer(&cmd, 2)?;
            Self::check_status(buf.as_slice())
        }
    }

    /// Negotiates the communication speed closest to the request, in kHz,
    /// and records the achieved speed for the active protocol.  On pre-v3
    /// hardware the achieved speed is the best entry of a fixed table; on
    /// v3 hardware it is the best of the frequencies the probe reports as
    /// available.  Newer hardware generations have no negotiation branch
    /// and are rejected as unsupported.
    pub fn set_speed(&mut self, speed_khz: u32) -> (r: Result<u32, DebugProbeError>)
        ensures
            final(self).hw_version == old(self).hw_version,
            final(self).jtag_version == old(self).jtag_version,
            final(self).protocol == old(self).protocol,
            final(self).current_ap == old(self).current_ap,
            old(self).hw_version >= 4 ==> r == Err::<u32, DebugProbeError>(
                DebugProbeError::UnsupportedHardwareGeneration(old(self).hw_version),
            ) && *final(self) == *old(self),
            r is Err ==> final(self).swd_speed_khz == old(self).swd_speed_khz && final(self).jtag_speed_khz == old(self).jtag_speed_khz,
            r matches Ok(v) ==> (old(self).protocol is Swd ==> final(self).swd_speed_khz == v
                && final(self).jtag_speed_khz == old(self).jtag_speed_khz),
            r matches Ok(v) ==> (old(self).protocol is Jtag ==> final(self).jtag_speed_khz == v
                && final(self).swd_speed_khz == old(self).swd_speed_khz),
            old(self).hw_version < 3 ==> match spec_low_gen_selected(old(self).protocol,
                speed_khz,
            ) {
                Some(k) => (r matches Ok(v) ==> v == k) && (r matches Err(e) ==> is_io_failure(e)
                    || is_status_failure(e)),
                None => r == Err::<u32, DebugProbeError>(
                    DebugProbeError::UnsupportedSpeed(speed_khz),
                ),
            },
            r matches Ok(v) ==> (old(self).hw_version < 3 ==> spec_is_table_khz(
                old(self).protocol,
                v,
            ) && v <= speed_khz),
            r matches Ok(v) ==> v <= speed_khz,
            r matches Err(e) ==> is_io_failure(e) || is_status_failure(e) || e
                == DebugProbeError::UnsupportedSpeed(speed_khz) || e
                == DebugProbeError::UnsupportedHardwareGeneration(old(self).hw_version),
            r matches Err(e) ==> (e is UnsupportedHardwareGeneration ==> old(self).hw_version >= 4),
            final(self).resets@ == old(self).resets@,
            old(self).hw_version < 3 && old(self).protocol is Swd ==> match SwdFrequencyToDelayCount::spec_find_setting(
                speed_khz,
            ) {
                Some(s) => final(self).cmd_log@ == old(self).cmd_log@.push(spec_swd_freq_cmd(s)),
                None => *final(self) == *old(self),
            },
            old(self).hw_version < 3 && old(self).protocol is Jtag ==> match JTagFrequencyToDivider::spec_find_setting(
                speed_khz,
            ) {
                Some(s) => final(self).cmd_log@ == old(self).cmd_log@.push(spec_jtag_freq_cmd(s)),
                None => *final(self) == *old(self),
            },
            old(self).hw_version == 3 ==> (r matches Ok(v) ==> final(self).cmd_log@ == old(self).cmd_log@.push(spec_get_com_freq_cmd(old(self).protocol)).push(
                spec_set_com_freq_cmd(old(self).protocol, v),
            )),
    {
        if self.hw_version < 3 {
            let protocol = self.protocol;
            match protocol {
                WireProtocol::Swd => {
                    match SwdFrequencyToDelayCount::find_setting(speed_khz) {
                        Some(setting) => {
                            proof {
                                crate::constants::lemma_swd_find_setting_sound(speed_khz);
                            }
                            self.set_swd_frequency(setting)?;
                            let khz = setting.to_khz();
                            self.swd_speed_khz = khz;
                            Ok(khz)
                        },
                        None => Err(DebugProbeError::UnsupportedSpeed(speed_khz)),
                    }
                },
                WireProtocol::Jtag => {
                    match JTagFrequencyToDivider::find_setting(speed_khz) {
                        Some(setting) => {
                            proof {
                                crate::constants::lemma_jtag_find_setting_sound(speed_khz);
                            }
                            self.set_jtag_frequency(setting)?;
                            let khz = setting.to_khz();
                            self.jtag_speed_khz = khz;
                            Ok(khz)
                        },
                        None => Err(DebugProbeError::UnsupportedSpeed(speed_khz)),
                    }
                },
            }
        } else if self.hw_version == 3 {
            let protocol = self.protocol;
            let (available, _) = self.get_communication_frequencies(protocol)?;
            let actual_speed_khz = select_v3_speed(&available, speed_khz)?;
            self.set_communication_frequency(protocol, actual_speed_khz)?;
            match protocol {
                WireProtocol::Swd => {
                    self.swd_speed_khz = actual_speed_khz;
                },
                WireProtocol::Jtag => {
                    self.jtag_speed_khz = actual_speed_khz;
                },
            }
            Ok(actual_speed_khz)
        } else {
            Err(DebugProbeError::UnsupportedHardwareGeneration(self.hw_version))
        }
    }

    /// Returns the current speed of the active protocol, in kHz.
    pub fn speed(&self) -> (r: u32)
        ensures
            self.protocol is Swd ==> r == self.swd_speed_khz,
            self.protocol is Jtag ==> r == self.jtag_speed_khz,
    {
        match self.protocol {
            WireProtocol::Swd => self.swd_speed_khz,
            WireProtocol::Jtag => self.jtag_speed_khz,
        }
    }

    /// Selects the wire protocol the next attach will enter.  A pure
    /// state update: no I/O, and it always succeeds.
    pub fn select_protocol(&mut self, protocol: WireProtocol) -> (r: Result<(), DebugProbeError>)
        ensures
            r is Ok,
            final(self).protocol == protocol,
            final(self).transport == old(self).transport,
            final(self).hw_version == old(self).hw_version,
            final(self).jtag_version == old(self).jtag_version,
            final(self).swd_speed_khz == old(self).swd_speed_khz,
            final(self).jtag_speed_khz == old(self).jtag_speed_khz,
            final(self).current_ap == old(self).current_ap,
    {
        match protocol {
            WireProtocol::Jtag => {
                self.protocol = WireProtocol::Jtag;
            },
            WireProtocol::Swd => {
                self.protocol = WireProtocol::Swd;
            },
        }
        Ok(())
    }

    /// Enters debug mode: brings the probe to idle, sends the mode-entry
    /// command for the selected protocol, then re-applies the configured
    /// speed for that protocol, since the probe may reset it on entry.
    pub fn attach(&mut self) -> (r: Result<(), DebugProbeError>)
        ensures
            final(self).hw_version == old(self).hw_version,
            final(self).jtag_version == old(self).jtag_version,
            final(self).protocol == old(self).protocol,
            final(self).current_ap == old(self).current_ap,
            old(self).hw_version >= 4 ==> r is Err,
            r is Ok ==> (old(self).hw_version < 3 && old(self).protocol is Swd ==> Some(
                final(self).swd_speed_khz,
            ) == spec_low_gen_selected(WireProtocol::Swd, old(self).swd_speed_khz) && final(self).jtag_speed_khz == old(self).jtag_speed_khz),
            r is Ok ==> (old(self).hw_version < 3 && old(self).protocol is Jtag ==> Some(
                final(self).jtag_speed_khz,
            ) == spec_low_gen_selected(WireProtocol::Jtag, old(self).jtag_speed_khz) && final(self).swd_speed_khz == old(self).swd_speed_khz),
            r matches Err(e) ==> is_io_failure(e) || is_status_failure(e) || e
                == DebugProbeError::ProbeSpecific(StlinkError::UnknownMode) || e matches
                DebugProbeError::UnsupportedSpeed(_) || e matches
                DebugProbeError::UnsupportedHardwareGeneration(_),
            final(self).resets@ == old(self).resets@,
            r is Ok ==> final(self).cmd_log@.len() >= old(self).cmd_log@.len() + 3,
            r is Ok ==> final(self).cmd_log@[old(self).cmd_log@.len() as int] == seq![
                GET_CURRENT_MODE,
            ],
            r is Ok && old(self).hw_version < 3 ==> final(self).cmd_log@[final(self).cmd_log@.len() - 2] == spec_enter_cmd(old(self).protocol),
            r is Ok && old(self).hw_version == 3 ==> final(self).cmd_log@[final(self).cmd_log@.len() - 3] == spec_enter_cmd(old(self).protocol),
            r is Ok && old(self).hw_version < 3 && old(self).protocol is Swd ==> (
            SwdFrequencyToDelayCount::spec_find_setting(old(self).swd_speed_khz) matches Some(s)
                && final(self).cmd_log@.last() == spec_swd_freq_cmd(s)),
            r is Ok && old(self).hw_version < 3 && old(self).protocol is Jtag ==> (
            JTagFrequencyToDivider::spec_find_setting(old(self).jtag_speed_khz) matches Some(s)
                && final(self).cmd_log@.last() == spec_jtag_freq_cmd(s)),
    {
        self.enter_idle()?;
        let param: u8 = match self.protocol {
            WireProtocol::Jtag => JTAG_ENTER_JTAG_NO_CORE_RESET,
            WireProtocol::Swd => JTAG_ENTER_SWD,
        };
        let cmd: Vec<u8> = vec![JTAG_COMMAND, JTAG_ENTER2, param, 0];
        proof {
            assert(cmd@ =~= spec_enter_cmd(self.protocol));
        }
        let buf = self.transfer(&cmd, 2)?;
        Self::check_status(buf.as_slice())?;

        // The probe may fall back to a default speed on protocol entry;
        // re-apply the configured speed so it survives the mode switch.
        match self.protocol {
            WireProtocol::Jtag => {
                let khz = self.jtag_speed_khz;
                self.set_speed(khz)?;
            },
            WireProtocol::Swd => {
                let khz = self.swd_speed_khz;
                self.set_speed(khz)?;
            },
        }
        Ok(())
    }

    /// Leaves debug mode by bringing the probe back to idle.
    pub fn detach(&mut self) -> (r: Result<(), DebugProbeError>)
        ensures
            same_session(*old(self), *final(self)),
            spec_idle_log(old(self).cmd_log@, final(self).cmd_log@),
            r matches Err(e) ==> is_io_failure(e) || e == DebugProbeError::ProbeSpecific(
                StlinkError::UnknownMode,
            ),
    {
        self.enter_idle()
    }

    /// Best-effort teardown: attempts to bring the probe back to idle and
    /// discards the outcome, so that teardown never fails the caller.
    pub fn close(&mut self)
        ensures
            same_session(*old(self), *final(self)),
            spec_idle_log(old(self).cmd_log@, final(self).cmd_log@),
    {
        let _ = self.enter_idle();
    }

    /// Issues a reset pulse on the nRESET pin.
    pub fn target_reset(&mut self) -> (r: Result<(), DebugProbeError>)
        ensures
            same_session(*old(self), *final(self)),
            final(self).cmd_log@ == old(self).cmd_log@.push(
                seq![JTAG_COMMAND, JTAG_DRIVE_NRST, JTAG_DRIVE_NRST_PULSE],
            ),
            r matches Err(e) ==> is_io_failure(e) || is_status_failure(e),
    {
        let cmd: Vec<u8> = vec![JTAG_COMMAND, JTAG_DRIVE_NRST, JTAG_DRIVE_NRST_PULSE];
        proof {
            assert(cmd@ =~= seq![JTAG_COMMAND, JTAG_DRIVE_NRST, JTAG_DRIVE_NRST_PULSE]);
        }
        let buf = self.transfer(&cmd, 2)?;
        Self::check_status(buf.as_slice())
    }

    /// Drives the nRESET pin to the asserted or deasserted level.
    pub fn drive_nreset(&mut self, is_asserted: bool) -> (r: Result<(), DebugProbeError>)
        ensures
            same_session(*old(self), *final(self)),
            final(self).cmd_log@ == old(self).cmd_log@.push(spec_nrst_cmd(is_asserted)),
            r matches Err(e) ==> is_io_failure(e) || is_status_failure(e),
    {
        let state: u8 = if is_asserted {
            JTAG_DRIVE_NRST_LOW
        } else {
            JTAG_DRIVE_NRST_HIGH
        };
        let cmd: Vec<u8> = vec![JTAG_COMMAND, JTAG_DRIVE_NRST, state];
        proof {
            assert(cmd@ =~= spec_nrst_cmd(is_asserted));
        }
        let buf = self.transfer(&cmd, 2)?;
        Self::check_status(buf.as_slice())
    }

    /// Switches the Access Port session to `target` if a register transfer
    /// needs one that is not open, closing the old session first; records
    /// the newly open port only once the open succeeded.
    fn switch_to_ap(&mut self, target: u16) -> (r: Result<(), DebugProbeError>)
        ensures
            final(self).hw_version == old(self).hw_version,
            final(self).jtag_version == old(self).jtag_version,
            final(self).protocol == old(self).protocol,
            final(self).swd_speed_khz == old(self).swd_speed_khz,
            final(self).jtag_speed_khz == old(self).jtag_speed_khz,
            r is Ok ==> final(self).current_ap == Some(target),
            r is Err ==> final(self).current_ap == old(self).current_ap,
            spec_ap_switch_plan(old(self).current_ap, target) != ApSwitch::NoCommands
                && !multi_ap_supported(old(self).hw_version, old(self).jtag_version) ==> r == Err::<
                (),
                DebugProbeError,
            >(DebugProbeError::ProbeSpecific(StlinkError::JTagDoesNotSupportMultipleAP)) && *final(self) == *old(self),
            r == Err::<(), DebugProbeError>(
                DebugProbeError::ProbeSpecific(StlinkError::JTagDoesNotSupportMultipleAP),
            ) ==> spec_ap_switch_plan(old(self).current_ap, target) != ApSwitch::NoCommands
                && !multi_ap_supported(old(self).hw_version, old(self).jtag_version),
            log_grows_along(
                old(self).cmd_log@,
                final(self).cmd_log@,
                spec_switch_cmds(old(self).current_ap, target),
            ),
            r is Ok ==> final(self).cmd_log@ == old(self).cmd_log@ + spec_switch_cmds(
                old(self).current_ap,
                target,
            ),
            r matches Err(e) ==> e == DebugProbeError::ProbeSpecific(
                StlinkError::JTagDoesNotSupportMultipleAP,
            ) || is_io_failure(e) || is_status_failure(e),
    {
        let ghost pre = self.cmd_log@;
        let ghost planned = spec_switch_cmds(self.current_ap, target);
        match ap_switch_plan(self.current_ap, target) {
            ApSwitch::NoCommands => {
                proof {
                    assert(self.cmd_log@ =~= pre + planned.subrange(0, 0));
                    assert(self.cmd_log@ =~= pre + planned);
                }
            },
            ApSwitch::OpenOnly(t) => {
                match self.open_ap((t & 0xFF) as u8) {
                    Ok(()) => {
                        proof {
                            assert(self.cmd_log@ =~= pre + planned.subrange(0, 1));
                            assert(self.cmd_log@ =~= pre + planned);
                        }
                    },
                    Err(e) => {
                        proof {
                            if multi_ap_supported(self.hw_version, self.jtag_version) {
                                assert(self.cmd_log@ =~= pre + planned.subrange(0, 1));
                            } else {
                                assert(self.cmd_log@ =~= pre + planned.subrange(0, 0));
                            }
                        }
                        return Err(e);
                    },
                }
            },
            ApSwitch::CloseThenOpen(m, t) => {
                match self.close_ap((m & 0xFF) as u8) {
                    Ok(()) => {},
                    Err(e) => {
                        proof {
                            if multi_ap_supported(self.hw_version, self.jtag_version) {
                                assert(self.cmd_log@ =~= pre + planned.subrange(0, 1));
                            } else {
                                assert(self.cmd_log@ =~= pre + planned.subrange(0, 0));
                            }
                        }
                        return Err(e);
                    },
                }
                match self.open_ap((t & 0xFF) as u8) {
                    Ok(()) => {
                        proof {
                            assert(self.cmd_log@ =~= pre + planned.subrange(0, 2));
                            assert(self.cmd_log@ =~= pre + planned);
                        }
                    },
                    Err(e) => {
                        proof {
                            assert(self.cmd_log@ =~= pre + planned.subrange(0, 2));
                        }
                        return Err(e);
                    },
                }
            },
        }
        self.current_ap = Some(target);
        Ok(())
    }

    /// Reads the DAP register at `addr` on the given port.  A Debug Port
    /// register whose bank nibble (bits four to seven) is nonzero is
    /// rejected before any transport I/O; an Access Port transfer first
    /// switches the session to that port if it is not the open one.
    pub fn read_register(&mut self, port: PortType, addr: u16) -> (r: Result<
        u32,
        DebugProbeError,
    >)
        ensures
            final(self).hw_version == old(self).hw_version,
            final(self).jtag_version == old(self).jtag_version,
            final(self).protocol == old(self).protocol,
            final(self).swd_speed_khz == old(self).swd_speed_khz,
            final(self).jtag_speed_khz == old(self).jtag_speed_khz,
            (port == PortType::DebugPort && addr & 0xF0 != 0) <==> r == Err::<
                u32,
                DebugProbeError,
            >(DebugProbeError::ProbeSpecific(StlinkError::BlanksNotAllowedOnDPRegister)),
            port == PortType::DebugPort && addr & 0xF0 != 0 ==> *final(self) == *old(self),
            port == PortType::DebugPort ==> final(self).current_ap == old(self).current_ap,
            port matches PortType::AccessPort(n) ==> final(self).current_ap == old(self).current_ap || final(self).current_ap == Some(n),
            port matches PortType::AccessPort(n) ==> (r is Ok ==> final(self).current_ap == Some(
                n,
            )),
            port matches PortType::AccessPort(n) ==> (spec_ap_switch_plan(
                old(self).current_ap,
                n,
            ) != ApSwitch::NoCommands && !multi_ap_supported(
                old(self).hw_version,
                old(self).jtag_version,
            ) ==> r == Err::<u32, DebugProbeError>(
                DebugProbeError::ProbeSpecific(StlinkError::JTagDoesNotSupportMultipleAP),
            ) && *final(self) == *old(self)),
            r == Err::<u32, DebugProbeError>(
                DebugProbeError::ProbeSpecific(StlinkError::JTagDoesNotSupportMultipleAP),
            ) ==> (port matches PortType::AccessPort(n) && spec_ap_switch_plan(
                old(self).current_ap,
                n,
            ) != ApSwitch::NoCommands && !multi_ap_supported(
                old(self).hw_version,
                old(self).jtag_version,
            )),
            port == PortType::DebugPort && addr & 0xF0 == 0 ==> final(self).cmd_log@ == old(self).cmd_log@.push(spec_read_dap_cmd(port, addr)),
            port matches PortType::AccessPort(n) ==> log_grows_along(
                old(self).cmd_log@,
                final(self).cmd_log@,
                spec_switch_cmds(old(self).current_ap, n).push(spec_read_dap_cmd(port, addr)),
            ),
            port matches PortType::AccessPort(n) ==> (r is Ok ==> final(self).cmd_log@ == old(self).cmd_log@ + spec_switch_cmds(old(self).current_ap, n).push(
                spec_read_dap_cmd(port, addr),
            )),
            r matches Err(e) ==> e == DebugProbeError::ProbeSpecific(
                StlinkError::BlanksNotAllowedOnDPRegister,
            ) || e == DebugProbeError::ProbeSpecific(StlinkError::JTagDoesNotSupportMultipleAP)
                || is_io_failure(e) || is_status_failure(e),
    {
        if (addr & 0xF0) == 0 || port != PortType::DebugPort {
            let ghost pre = self.cmd_log@;
            let ghost planned = match port {
                PortType::AccessPort(n) => spec_switch_cmds(self.current_ap, n),
                PortType::DebugPort => Seq::empty(),
            };
            if let PortType::AccessPort(port_number) = port {
                match self.switch_to_ap(port_number) {
                    Ok(()) => {},
                    Err(e) => {
                        proof {
                            let k = choose|k: int|
                                0 <= k <= planned.len() && self.cmd_log@ == pre + planned.subrange(
                                    0,
                                    k,
                                );
                            assert(planned.push(spec_read_dap_cmd(port, addr)).subrange(0, k)
                                =~= planned.subrange(0, k));
                            assert(log_grows_along(
                                pre,
                                self.cmd_log@,
                                planned.push(spec_read_dap_cmd(port, addr)),
                            ));
                        }
                        return Err(e);
                    },
                }
            }
            let wire_port = port.to_wire();
            let (p0, p1) = u16_le_parts(wire_port);
            let (a0, a1) = u16_le_parts(addr);
            let cmd: Vec<u8> = vec![JTAG_COMMAND, JTAG_READ_DAP_REG, p0, p1, a0, a1];
            proof {
                assert(cmd@ =~= spec_read_dap_cmd(port, addr));
            }
            let sent = self.transfer(&cmd, 8);
            proof {
                if port matches PortType::AccessPort(n) {
                    let full = planned.push(spec_read_dap_cmd(port, addr));
                    assert(self.cmd_log@ =~= pre + full);
                    assert(full.subrange(0, full.len() as int) =~= full);
                    assert(log_grows_along(pre, self.cmd_log@, full));
                }
            }
            let buf = sent?;
            Self::check_status(buf.as_slice())?;
            Ok(read_u32_le(buf.as_slice(), 4))
        } else {
            Err(DebugProbeError::ProbeSpecific(StlinkError::BlanksNotAllowedOnDPRegister))
        }
    }

    /// Writes `value` to the DAP register at `addr` on the given port,
    /// under the same bank-nibble restriction and Access Port session
    /// switching as `read_register`.
    pub fn write_register(&mut self, port: PortType, addr: u16, value: u32) -> (r: Result<
        (),
        DebugProbeError,
    >)
        ensures
            final(self).hw_version == old(self).hw_version,
            final(self).jtag_version == old(self).jtag_version,
            final(self).protocol == old(self).protocol,
            final(self).swd_speed_khz == old(self).swd_speed_khz,
            final(self).jtag_speed_khz == old(self).jtag_speed_khz,
            (port == PortType::DebugPort && addr & 0xF0 != 0) <==> r == Err::<
                (),
                DebugProbeError,
            >(DebugProbeError::ProbeSpecific(StlinkError::BlanksNotAllowedOnDPRegister)),
            port == PortType::DebugPort && addr & 0xF0 != 0 ==> *final(self) == *old(self),
            port == PortType::DebugPort ==> final(self).current_ap == old(self).current_ap,
            port matches PortType::AccessPort(n) ==> final(self).current_ap == old(self).current_ap || final(self).current_ap == Some(n),
            port matches PortType::AccessPort(n) ==> (r is Ok ==> final(self).current_ap == Some(
                n,
            )),
            port matches PortType::AccessPort(n) ==> (spec_ap_switch_plan(
                old(self).current_ap,
                n,
            ) != ApSwitch::NoCommands && !multi_ap_supported(
                old(self).hw_version,
                old(self).jtag_version,
            ) ==> r == Err::<(), DebugProbeError>(
                DebugProbeError::ProbeSpecific(StlinkError::JTagDoesNotSupportMultipleAP),
            ) && *final(self) == *old(self)),
            r == Err::<(), DebugProbeError>(
                DebugProbeError::ProbeSpecific(StlinkError::JTagDoesNotSupportMultipleAP),
            ) ==> (port matches PortType::AccessPort(n) && spec_ap_switch_plan(
                old(self).current_ap,
                n,
            ) != ApSwitch::NoCommands && !multi_ap_supported(
                old(self).hw_version,
                old(self).jtag_version,
            )),
            port == PortType::DebugPort && addr & 0xF0 == 0 ==> final(self).cmd_log@ == old(self).cmd_log@.push(spec_write_dap_cmd(port, addr, value)),
            port matches PortType::AccessPort(n) ==> log_grows_along(
                old(self).cmd_log@,
                final(self).cmd_log@,
                spec_switch_cmds(old(self).current_ap, n).push(
                    spec_write_dap_cmd(port, addr, value),
                ),
            ),
            port matches PortType::AccessPort(n) ==> (r is Ok ==> final(self).cmd_log@ == old(self).cmd_log@ + spec_switch_cmds(old(self).current_ap, n).push(
                spec_write_dap_cmd(port, addr, value),
            )),
            r matches Err(e) ==> e == DebugProbeError::ProbeSpecific(
                StlinkError::BlanksNotAllowedOnDPRegister,
            ) || e == DebugProbeError::ProbeSpecific(StlinkError::JTagDoesNotSupportMultipleAP)
                || is_io_failure(e) || is_status_failure(e),
    {
        if (addr & 0xF0) == 0 || port != PortType::DebugPort {
            let ghost pre = self.cmd_log@;
            let ghost planned = match port {
                PortType::AccessPort(n) => spec_switch_cmds(self.current_ap, n),
                PortType::DebugPort => Seq::empty(),
            };
            if let PortType::AccessPort(port_number) = port {
                match self.switch_to_ap(port_number) {
                    Ok(()) => {},
                    Err(e) => {
                        proof {
                            let k = choose|k: int|
                                0 <= k <= planned.len() && self.cmd_log@ == pre + planned.subrange(
                                    0,
                                    k,
                                );
                            assert(planned.push(spec_write_dap_cmd(port, addr, value)).subrange(
                                0,
                                k,
                            ) =~= planned.subrange(0, k));
                            assert(log_grows_along(
                                pre,
                                self.cmd_log@,
                                planned.push(spec_write_dap_cmd(port, addr, value)),
                            ));
                        }
                        return Err(e);
                    },
                }
            }
            let wire_port = port.to_wire();
            let (p0, p1) = u16_le_parts(wire_port);
            let (a0, a1) = u16_le_parts(addr);
            let (v0, v1, v2, v3) = u32_le_parts(value);
            let cmd: Vec<u8> = vec![
                JTAG_COMMAND,
                JTAG_WRITE_DAP_REG,
                p0,
                p1,
                a0,
                a1,
                v0,
                v1,
                v2,
                v3,
            ];
            proof {
                assert(cmd@ =~= spec_write_dap_cmd(port, addr, value));
            }
            let sent = self.transfer(&cmd, 2);
            proof {
                if port matches PortType::AccessPort(n) {
                    let full = planned.push(spec_write_dap_cmd(port, addr, value));
                    assert(self.cmd_log@ =~= pre + full);
                    assert(full.subrange(0, full.len() as int) =~= full);
                    assert(log_grows_along(pre, self.cmd_log@, full));
                }
            }
            let buf = sent?;
            Self::check_status(buf.as_slice())
        } else {
            Err(DebugProbeError::ProbeSpecific(StlinkError::BlanksNotAllowedOnDPRegister))
        }
    }

    /// Initializes the probe: brings it to idle (retrying once after a
    /// transport reset if the transport itself failed), queries and
    /// validates the versions, adopts the probe's current speeds on v3
    /// hardware, and reads the target voltage once.
    pub fn init(&mut self) -> (r: Result<(), DebugProbeError>)
        ensures
            final(self).protocol == old(self).protocol,
            final(self).current_ap == old(self).current_ap,
            r is Ok ==> final(self).jtag_version != 0,
            r is Ok ==> (final(self).hw_version < 3 ==> final(self).jtag_version
                >= MIN_JTAG_VERSION && final(self).swd_speed_khz == old(self).swd_speed_khz
                && final(self).jtag_speed_khz == old(self).jtag_speed_khz),
            final(self).resets@ >= old(self).resets@,
            final(self).resets@ <= old(self).resets@ + 1,
            r is Ok ==> final(self).cmd_log@.len() > old(self).cmd_log@.len() && final(self).cmd_log@.last() == seq![GET_TARGET_VOLTAGE],
            r is Ok && final(self).hw_version == 3 ==> final(self).cmd_log@.len() >= old(self).cmd_log@.len() + 3 && final(self).cmd_log@[final(self).cmd_log@.len() - 3]
                == spec_get_com_freq_cmd(WireProtocol::Swd) && final(self).cmd_log@[final(self).cmd_log@.len() - 2] == spec_get_com_freq_cmd(WireProtocol::Jtag),
            r matches Err(e) ==> is_io_failure(e) || is_status_failure(e) || e
                == DebugProbeError::ProbeSpecific(StlinkError::UnknownMode) || e
                == DebugProbeError::JTAGNotSupportedOnProbe || e
                == DebugProbeError::ProbeFirmwareOutdated || e == DebugProbeError::ProbeSpecific(
                StlinkError::VoltageDivisionByZero,
            ),
    {
        match self.enter_idle() {
            Ok(()) => {},
            Err(e) => {
                match e {
                    DebugProbeError::USB(_) => {
                        // Reset the device once and retry idle entry; any
                        // further failure is fatal.
                        self.resets = Ghost(self.resets@ + 1);
                        match self.transport.reset() {
                            Ok(()) => {},
                            Err(te) => {
                                return Err(DebugProbeError::USB(te));
                            },
                        }
                        self.enter_idle()?;
                    },
                    _ => {
                        return Err(e);
                    },
                }
            },
        }

        let _version = self.get_version()?;

        // v3 hardware reports its active per-protocol speeds; adopt them
        // as the session's current speeds.
        if self.hw_version == 3 {
            let (_, current_swd) = self.get_communication_frequencies(WireProtocol::Swd)?;
            self.swd_speed_khz = current_swd;
            let (_, current_jtag) = self.get_communication_frequencies(WireProtocol::Jtag)?;
            self.jtag_speed_khz = current_jtag;
        }

        match self.get_target_voltage_samples() {
            Ok(_) => Ok(()),
            Err(e) => Err(e),
        }
    }

    /// Builds a driver bound to a transport and initializes it: SWD
    /// selected, default speeds, no Access Port open.
    pub fn new_from_transport(transport: T) -> (r: Result<STLink<T>, DebugProbeError>)
        ensures
            r matches Ok(d) ==> d.protocol is Swd && d.current_ap is None && d.jtag_version != 0,
            r matches Ok(d) ==> (d.hw_version < 3 ==> d.jtag_version >= MIN_JTAG_VERSION
                && d.swd_speed_khz == 1800 && d.jtag_speed_khz == 1120),
            r matches Ok(d) ==> d.resets@ <= 1,
            r matches Err(e) ==> is_io_failure(e) || is_status_failure(e) || e
                == DebugProbeError::ProbeSpecific(StlinkError::UnknownMode) || e
                == DebugProbeError::JTAGNotSupportedOnProbe || e
                == DebugProbeError::ProbeFirmwareOutdated || e == DebugProbeError::ProbeSpecific(
                StlinkError::VoltageDivisionByZero,
            ),
    {
        let mut stlink = STLink {
            transport,
            hw_version: 0,
            jtag_version: 0,
            protocol: WireProtocol::Swd,
            swd_speed_khz: 1800,
            jtag_speed_khz: 1120,
            current_ap: None,
            cmd_log: Ghost(Seq::empty()),
            resets: Ghost(0),
        };
        stlink.init()?;
        Ok(stlink)
    }

    /// Returns the probe's display name.
    pub fn get_name(&self) -> (r: &'static str)
        ensures
            r@ == "ST-Link"@,
    {
        "ST-Link"
    }

    /// Whether this probe offers DAP register access.  It always does.
    pub fn has_dap_interface(&self) -> (r: bool)
        ensures
            r,
    {
        true
    }

    /// Whether this probe offers direct JTAG register access.  It never
    /// does; callers must go through the DAP interface.
    pub fn has_jtag_interface(&self) -> (r: bool)
        ensures
            !r,
    {
        false
    }
}

/// What `check_status` returns for a response whose status byte is `b`.
pub open spec fn spec_check_status(b: u8) -> Result<(), DebugProbeError> {
    match crate::constants::spec_status_from_u8(b) {
        Some(code) => if code == Status::JtagOk {
            Ok(())
        } else {
            Err(DebugProbeError::ProbeSpecific(StlinkError::CommandFailed(code)))
        },
        None => Err(DebugProbeError::ProbeSpecific(StlinkError::CommandFailed(Status::Unknown))),
    }
}

/// Law of status validation: a response passes exactly on the success
/// code; any other known code fails carrying that code; an unrecognized
/// byte fails carrying the distinguished unknown code.
pub proof fn lemma_check_status_classification(b: u8)
    ensures
        spec_check_status(b) is Ok <==> b == 0x80,
        crate::constants::spec_status_from_u8(b) matches Some(code) ==> (code != Status::JtagOk
            ==> spec_check_status(b) == Err::<(), DebugProbeError>(
            DebugProbeError::ProbeSpecific(StlinkError::CommandFailed(code)),
        )),
        crate::constants::spec_status_from_u8(b) is None ==> spec_check_status(b) == Err::<
            (),
            DebugProbeError,
        >(DebugProbeError::ProbeSpecific(StlinkError::CommandFailed(Status::Unknown))),
{
}

} // verus!
