use stlink::codec::{parse_version_word, read_u16_be, read_u32_le, u16_le_parts, u32_le_parts};
use stlink::constants::{
    mode_from_u8, status_from_u8, JTagFrequencyToDivider, Mode, Status, SwdFrequencyToDelayCount,
};
use stlink::error::{DebugProbeError, StlinkError};
use stlink::flash::{FlashError, FlashRegion};
use stlink::stlink::{
    ap_switch_plan, check_voltage_samples, select_v3_speed, ApSwitch, PortType, STLink,
    WireProtocol,
};
use stlink::transport::{Transport, TransportError};

/// A transport that replays a fixed script of responses and records every
/// command it is given.
struct ScriptedTransport {
    responses: Vec<Result<Vec<u8>, TransportError>>,
    commands: Vec<Vec<u8>>,
    resets: usize,
}

impl ScriptedTransport {
    fn new(responses: Vec<Result<Vec<u8>, TransportError>>) -> Self {
        ScriptedTransport { responses, commands: Vec::new(), resets: 0 }
    }
}

impl Transport for ScriptedTransport {
    fn write(
        &mut self,
        cmd: &[u8],
        _data: &[u8],
        _response_len: usize,
        _timeout_ms: u64,
    ) -> Result<Vec<u8>, TransportError> {
        self.commands.push(cmd.to_vec());
        if self.responses.is_empty() {
            Err(TransportError::Timeout)
        } else {
            self.responses.remove(0)
        }
    }

    fn reset(&mut self) -> Result<(), TransportError> {
        self.resets += 1;
        Ok(())
    }
}

fn ok(bytes: Vec<u8>) -> Result<Vec<u8>, TransportError> {
    Ok(bytes)
}

/// Response to the base version query for the given hardware and firmware
/// fields: a big-endian word followed by vendor/product identifiers.
fn version_response(hw: u8, fw: u8) -> Vec<u8> {
    let word: u16 = ((hw as u16) << 12) | ((fw as u16) << 6);
    vec![(word >> 8) as u8, (word & 0xFF) as u8, 0, 0, 0, 0]
}

/// Response to the voltage query: two little-endian sample words.
fn voltage_response(a0: u32, a1: u32) -> Vec<u8> {
    let mut v = Vec::new();
    v.extend_from_slice(&a0.to_le_bytes());
    v.extend_from_slice(&a1.to_le_bytes());
    v
}

/// Response to the frequency-list query: status in byte 0, current value
/// as word 1, count as word 2, entries from word 3 on.
fn freq_response(current: u32, freqs: &[u32]) -> Vec<u8> {
    let mut v = vec![0u8; 52];
    v[0] = 0x80;
    v[4..8].copy_from_slice(&current.to_le_bytes());
    v[8..12].copy_from_slice(&(freqs.len() as u32).to_le_bytes());
    for (i, f) in freqs.iter().enumerate() {
        v[12 + 4 * i..16 + 4 * i].copy_from_slice(&f.to_le_bytes());
    }
    v
}

/// The script a pre-v3 probe answers during `init`: idle mode query,
/// base version query, voltage query.
fn pre_v3_init_script(hw: u8, fw: u8) -> Vec<Result<Vec<u8>, TransportError>> {
    vec![
        ok(vec![2, 0]),
        ok(version_response(hw, fw)),
        ok(voltage_response(1000, 500)),
    ]
}

fn new_pre_v3(hw: u8, fw: u8) -> STLink<ScriptedTransport> {
    let transport = ScriptedTransport::new(pre_v3_init_script(hw, fw));
    STLink::new_from_transport(transport).expect("init should succeed")
}

// --- status validation ---

#[test]
fn check_status_accepts_success_code() {
    assert!(STLink::<ScriptedTransport>::check_status(&[0x80, 0]).is_ok());
}

#[test]
fn check_status_reports_known_failure_code() {
    let r = STLink::<ScriptedTransport>::check_status(&[0x10, 0]);
    assert_eq!(
        r,
        Err(DebugProbeError::ProbeSpecific(StlinkError::CommandFailed(Status::SwdApWait)))
    );
    let r = STLink::<ScriptedTransport>::check_status(&[0x08]);
    assert_eq!(
        r,
        Err(DebugProbeError::ProbeSpecific(StlinkError::CommandFailed(Status::JtagCmdError)))
    );
}

#[test]
fn check_status_reports_unknown_code() {
    let r = STLink::<ScriptedTransport>::check_status(&[0x55, 0]);
    assert_eq!(
        r,
        Err(DebugProbeError::ProbeSpecific(StlinkError::CommandFailed(Status::Unknown)))
    );
}

#[test]
fn status_codes_round_trip() {
    assert_eq!(status_from_u8(0x80), Some(Status::JtagOk));
    assert_eq!(status_from_u8(0x01), Some(Status::JtagUnknownError));
    assert_eq!(status_from_u8(0x42), Some(Status::JtagUnknownCmd));
    assert_eq!(status_from_u8(0xFE), None);
}

// --- codec ---

#[test]
fn read_words_concrete_values() {
    let buf = [0x78u8, 0x56, 0x34, 0x12, 0xAA, 0xBB];
    assert_eq!(read_u32_le(&buf, 0), 0x12345678);
    assert_eq!(read_u16_be(&buf, 0), 0x7856);
    assert_eq!(read_u16_be(&buf, 4), 0xAABB);
}

#[test]
fn word_parts_round_trip() {
    let (lo, hi) = u16_le_parts(0xBEEF);
    assert_eq!((lo, hi), (0xEF, 0xBE));
    let (b0, b1, b2, b3) = u32_le_parts(0x0102A3B4);
    assert_eq!((b0, b1, b2, b3), (0xB4, 0xA3, 0x02, 0x01));
}

#[test]
fn version_word_fields_extracted() {
    // Hardware version sits in the top nibble, firmware in the six bits
    // from bit 6: 0x3190 names hardware 3, firmware field 6.
    assert_eq!(parse_version_word(0x3190), (3, 6));
    assert_eq!(parse_version_word(0x2600), (2, 24));
}

#[test]
fn mode_bytes_decoded() {
    assert_eq!(mode_from_u8(0), Some(Mode::Dfu));
    assert_eq!(mode_from_u8(1), Some(Mode::MassStorage));
    assert_eq!(mode_from_u8(2), Some(Mode::Jtag));
    assert_eq!(mode_from_u8(3), Some(Mode::Swim));
    assert_eq!(mode_from_u8(4), None);
}

// --- frequency tables and selection ---

#[test]
fn swd_table_lookup_picks_largest_not_exceeding() {
    assert_eq!(
        SwdFrequencyToDelayCount::find_setting(2000),
        Some(SwdFrequencyToDelayCount::Khz1800)
    );
    assert_eq!(
        SwdFrequencyToDelayCount::find_setting(1800),
        Some(SwdFrequencyToDelayCount::Khz1800)
    );
    assert_eq!(
        SwdFrequencyToDelayCount::find_setting(100),
        Some(SwdFrequencyToDelayCount::Khz100)
    );
    assert_eq!(SwdFrequencyToDelayCount::find_setting(99), None);
    assert_eq!(SwdFrequencyToDelayCount::Khz1800.to_khz(), 1800);
    assert_eq!(SwdFrequencyToDelayCount::Khz1800.delay_count(), 1);
}

#[test]
fn jtag_table_lookup_picks_largest_not_exceeding() {
    assert_eq!(
        JTagFrequencyToDivider::find_setting(10000),
        Some(JTagFrequencyToDivider::Khz9000)
    );
    assert_eq!(JTagFrequencyToDivider::find_setting(139), None);
    assert_eq!(JTagFrequencyToDivider::Khz1120.to_khz(), 1120);
    assert_eq!(JTagFrequencyToDivider::Khz1120.divider(), 32);
}

#[test]
fn v3_selection_picks_largest_available_not_exceeding() {
    let available = vec![4000, 8000, 16000, 1000];
    assert_eq!(select_v3_speed(&available, 10000), Ok(8000));
    assert_eq!(select_v3_speed(&available, 16000), Ok(16000));
    assert_eq!(select_v3_speed(&available, 1500), Ok(1000));
}

#[test]
fn v3_selection_below_minimum_is_unsupported() {
    let available = vec![4000, 8000];
    assert_eq!(
        select_v3_speed(&available, 500),
        Err(DebugProbeError::UnsupportedSpeed(500))
    );
}

// --- AP switch planning ---

#[test]
fn ap_switch_plan_cases() {
    assert_eq!(ap_switch_plan(None, 1), ApSwitch::OpenOnly(1));
    assert_eq!(ap_switch_plan(Some(1), 1), ApSwitch::NoCommands);
    assert_eq!(ap_switch_plan(Some(1), 2), ApSwitch::CloseThenOpen(1, 2));
}

// --- voltage ---

#[test]
fn zero_reference_sample_is_division_by_zero() {
    assert_eq!(
        check_voltage_samples(0, 12345),
        Err(DebugProbeError::ProbeSpecific(StlinkError::VoltageDivisionByZero))
    );
}

#[test]
fn voltage_formula_on_sample_pair() {
    assert_eq!(check_voltage_samples(1000, 500), Ok((1000, 500)));
    let (a0, a1) = (1000u32, 500u32);
    let volts = 2.0 * (a1 as f32) * 1.2 / (a0 as f32);
    assert!(volts > 0.0);
    assert!((volts - 1.2).abs() < 1e-6);
}

#[test]
fn voltage_read_rejects_zero_reference_from_probe() {
    let mut probe = new_pre_v3(2, 24);
    probe.transport.responses = vec![ok(voltage_response(0, 500))];
    assert_eq!(
        probe.get_target_voltage_samples(),
        Err(DebugProbeError::ProbeSpecific(StlinkError::VoltageDivisionByZero))
    );
}

// --- construction and init ---

#[test]
fn init_records_versions_and_defaults() {
    let probe = new_pre_v3(2, 24);
    assert_eq!(probe.hw_version, 2);
    assert_eq!(probe.jtag_version, 24);
    assert_eq!(probe.protocol, WireProtocol::Swd);
    assert_eq!(probe.swd_speed_khz, 1800);
    assert_eq!(probe.jtag_speed_khz, 1120);
    assert_eq!(probe.current_ap, None);
    assert_eq!(probe.get_name(), "ST-Link");
    assert!(probe.has_dap_interface());
    assert!(!probe.has_jtag_interface());
}

#[test]
fn init_rejects_outdated_firmware() {
    let transport = ScriptedTransport::new(pre_v3_init_script(2, 20));
    let r = STLink::new_from_transport(transport);
    assert!(matches!(r, Err(DebugProbeError::ProbeFirmwareOutdated)));
}

#[test]
fn init_rejects_zero_firmware_version() {
    let transport = ScriptedTransport::new(pre_v3_init_script(2, 0));
    let r = STLink::new_from_transport(transport);
    assert!(matches!(r, Err(DebugProbeError::JTAGNotSupportedOnProbe)));
}

#[test]
fn init_retries_idle_entry_after_transport_failure() {
    let transport = ScriptedTransport::new(vec![
        Err(TransportError::Io),
        ok(vec![2, 0]),
        ok(version_response(2, 24)),
        ok(voltage_response(1000, 500)),
    ]);
    let probe = STLink::new_from_transport(transport).expect("init should succeed after retry");
    assert_eq!(probe.transport.resets, 1);
    assert_eq!(probe.hw_version, 2);
}

#[test]
fn init_does_not_retry_protocol_failures() {
    // An unknown mode byte is not a transport failure: no reset, no retry.
    let transport = ScriptedTransport::new(vec![ok(vec![9, 0])]);
    let r = STLink::new_from_transport(transport);
    assert!(matches!(
        r,
        Err(DebugProbeError::ProbeSpecific(StlinkError::UnknownMode))
    ));
}

#[test]
fn init_exits_dfu_mode() {
    let transport = ScriptedTransport::new(vec![
        ok(vec![0, 0]),
        ok(vec![]),
        ok(version_response(2, 24)),
        ok(voltage_response(1000, 500)),
    ]);
    let probe = STLink::new_from_transport(transport).expect("init should succeed");
    assert_eq!(probe.transport.commands[1], vec![0xF3, 0x07]);
}

#[test]
fn short_response_is_a_protocol_error() {
    let transport = ScriptedTransport::new(vec![ok(vec![2, 0]), ok(vec![0x26, 0x00])]);
    let r = STLink::new_from_transport(transport);
    assert!(matches!(
        r,
        Err(DebugProbeError::ProbeSpecific(StlinkError::NotEnoughBytesRead))
    ));
}

fn v3_init_script() -> Vec<Result<Vec<u8>, TransportError>> {
    let mut script = vec![ok(vec![2, 0])];
    // Base version word 0x3190: hardware 3, whose firmware field the
    // extended query then overrides with 30.
    script.push(ok(vec![0x31, 0x90, 0, 0, 0, 0]));
    let mut ext = vec![0u8; 12];
    ext[2] = 30;
    script.push(ok(ext));
    script.push(ok(freq_response(4000, &[4000, 8000, 1000])));
    script.push(ok(freq_response(9000, &[9000, 18000])));
    script.push(ok(voltage_response(1000, 500)));
    script
}

#[test]
fn v3_init_adopts_reported_speeds() {
    let transport = ScriptedTransport::new(v3_init_script());
    let probe = STLink::new_from_transport(transport).expect("init should succeed");
    assert_eq!(probe.hw_version, 3);
    assert_eq!(probe.jtag_version, 30);
    assert_eq!(probe.swd_speed_khz, 4000);
    assert_eq!(probe.jtag_speed_khz, 9000);
}

// --- speed negotiation through the driver ---

#[test]
fn set_speed_pre_v3_returns_table_entry() {
    let mut probe = new_pre_v3(2, 24);
    probe.transport.responses = vec![ok(vec![0x80, 0])];
    assert_eq!(probe.set_speed(2000), Ok(1800));
    assert_eq!(probe.swd_speed_khz, 1800);
    // The frequency-set command carries the table entry's delay count.
    let cmd = probe.transport.commands.last().unwrap().clone();
    assert_eq!(cmd, vec![0xF2, 0x43, 1, 0]);
}

#[test]
fn set_speed_pre_v3_rejects_untabulated_request() {
    let mut probe = new_pre_v3(2, 24);
    let before = probe.transport.commands.len();
    assert_eq!(probe.set_speed(50), Err(DebugProbeError::UnsupportedSpeed(50)));
    assert_eq!(probe.swd_speed_khz, 1800);
    assert_eq!(probe.transport.commands.len(), before);
}

#[test]
fn set_speed_pre_v3_jtag_uses_divider_table() {
    let mut probe = new_pre_v3(2, 24);
    probe.select_protocol(WireProtocol::Jtag).unwrap();
    probe.transport.responses = vec![ok(vec![0x80, 0])];
    assert_eq!(probe.set_speed(10000), Ok(9000));
    assert_eq!(probe.jtag_speed_khz, 9000);
    let cmd = probe.transport.commands.last().unwrap().clone();
    assert_eq!(cmd, vec![0xF2, 0x44, 4, 0]);
}

#[test]
fn set_speed_v3_picks_largest_available() {
    let transport = ScriptedTransport::new(v3_init_script());
    let mut probe = STLink::new_from_transport(transport).expect("init should succeed");
    probe.transport.responses = vec![
        ok(freq_response(4000, &[4000, 8000, 1000])),
        ok(vec![0x80, 0, 0, 0, 0, 0, 0, 0]),
    ];
    assert_eq!(probe.set_speed(5000), Ok(4000));
    assert_eq!(probe.swd_speed_khz, 4000);
}

#[test]
fn set_speed_v3_below_minimum_is_unsupported() {
    let transport = ScriptedTransport::new(v3_init_script());
    let mut probe = STLink::new_from_transport(transport).expect("init should succeed");
    probe.transport.responses = vec![ok(freq_response(4000, &[4000, 8000]))];
    assert_eq!(probe.set_speed(500), Err(DebugProbeError::UnsupportedSpeed(500)));
}

#[test]
fn set_speed_on_newer_hardware_generation_fails() {
    // Hardware generation 4 has no negotiation branch: a typed error,
    // not an abort.
    let mut script = vec![ok(vec![2, 0])];
    script.push(ok(version_response(4, 1)));
    let mut ext = vec![0u8; 12];
    ext[2] = 10;
    script.push(ok(ext));
    script.push(ok(voltage_response(1000, 500)));
    let transport = ScriptedTransport::new(script);
    let mut probe = STLink::new_from_transport(transport).expect("init should succeed");
    assert_eq!(probe.hw_version, 4);
    assert_eq!(
        probe.set_speed(1000),
        Err(DebugProbeError::UnsupportedHardwareGeneration(4))
    );
}

#[test]
fn speed_reports_active_protocol() {
    let mut probe = new_pre_v3(2, 24);
    assert_eq!(probe.speed(), 1800);
    probe.select_protocol(WireProtocol::Jtag).unwrap();
    assert_eq!(probe.speed(), 1120);
    probe.select_protocol(WireProtocol::Swd).unwrap();
    assert_eq!(probe.protocol, WireProtocol::Swd);
}

// --- register access and AP session cache ---

#[test]
fn debug_port_banked_address_rejected_before_io() {
    let mut probe = new_pre_v3(2, 28);
    let before = probe.transport.commands.len();
    assert_eq!(
        probe.read_register(PortType::DebugPort, 0x10),
        Err(DebugProbeError::ProbeSpecific(StlinkError::BlanksNotAllowedOnDPRegister))
    );
    assert_eq!(
        probe.write_register(PortType::DebugPort, 0xF0, 7),
        Err(DebugProbeError::ProbeSpecific(StlinkError::BlanksNotAllowedOnDPRegister))
    );
    assert_eq!(probe.transport.commands.len(), before);
}

#[test]
fn debug_port_unbanked_address_transfers() {
    let mut probe = new_pre_v3(2, 28);
    probe.transport.responses = vec![ok(vec![0x80, 0, 0, 0, 0x78, 0x56, 0x34, 0x12])];
    assert_eq!(probe.read_register(PortType::DebugPort, 0x04), Ok(0x12345678));
    assert_eq!(probe.current_ap, None);
    // Debug Port transfers address the wire port 0xFFFF.
    let cmd = probe.transport.commands.last().unwrap().clone();
    assert_eq!(cmd, vec![0xF2, 0x45, 0xFF, 0xFF, 0x04, 0x00]);
}

#[test]
fn first_access_port_transfer_opens_the_port() {
    let mut probe = new_pre_v3(2, 28);
    let base = probe.transport.commands.len();
    probe.transport.responses = vec![
        ok(vec![0x80, 0]),
        ok(vec![0x80, 0, 0, 0, 1, 0, 0, 0]),
    ];
    assert_eq!(probe.read_register(PortType::AccessPort(1), 0x00), Ok(1));
    assert_eq!(probe.current_ap, Some(1));
    let cmds = &probe.transport.commands[base..];
    assert_eq!(cmds.len(), 2);
    assert_eq!(cmds[0], vec![0xF2, 0x4B, 1]);
    assert_eq!(cmds[1], vec![0xF2, 0x45, 0x01, 0x00, 0x00, 0x00]);
}

#[test]
fn same_access_port_twice_issues_no_session_commands() {
    let mut probe = new_pre_v3(2, 28);
    probe.transport.responses = vec![
        ok(vec![0x80, 0]),
        ok(vec![0x80, 0, 0, 0, 0, 0, 0, 0]),
    ];
    probe.read_register(PortType::AccessPort(1), 0x00).unwrap();
    let base = probe.transport.commands.len();
    probe.transport.responses = vec![ok(vec![0x80, 0, 0, 0, 0, 0, 0, 0])];
    probe.read_register(PortType::AccessPort(1), 0x04).unwrap();
    let cmds = &probe.transport.commands[base..];
    assert_eq!(cmds.len(), 1);
    assert_eq!(cmds[0][1], 0x45);
}

#[test]
fn switching_access_ports_closes_then_opens() {
    let mut probe = new_pre_v3(2, 28);
    probe.transport.responses = vec![
        ok(vec![0x80, 0]),
        ok(vec![0x80, 0]),
    ];
    probe.write_register(PortType::AccessPort(1), 0x00, 5).unwrap();
    assert_eq!(probe.current_ap, Some(1));
    let base = probe.transport.commands.len();
    probe.transport.responses = vec![
        ok(vec![0x80, 0]),
        ok(vec![0x80, 0]),
        ok(vec![0x80, 0, 0, 0, 9, 0, 0, 0]),
    ];
    assert_eq!(probe.read_register(PortType::AccessPort(2), 0x00), Ok(9));
    assert_eq!(probe.current_ap, Some(2));
    let cmds = &probe.transport.commands[base..];
    assert_eq!(cmds.len(), 3);
    assert_eq!(cmds[0], vec![0xF2, 0x4C, 1]);
    assert_eq!(cmds[1], vec![0xF2, 0x4B, 2]);
    assert_eq!(cmds[2][1], 0x45);
}

#[test]
fn write_register_sends_value_little_endian() {
    let mut probe = new_pre_v3(2, 28);
    probe.transport.responses = vec![ok(vec![0x80, 0]), ok(vec![0x80, 0])];
    probe.write_register(PortType::AccessPort(0), 0x04, 0x12345678).unwrap();
    let cmd = probe.transport.commands.last().unwrap().clone();
    assert_eq!(
        cmd,
        vec![0xF2, 0x46, 0x00, 0x00, 0x04, 0x00, 0x78, 0x56, 0x34, 0x12]
    );
}

#[test]
fn multi_ap_needs_recent_firmware_on_old_hardware() {
    let mut probe = new_pre_v3(2, 24);
    let before = probe.transport.commands.len();
    assert_eq!(
        probe.open_ap(1),
        Err(DebugProbeError::ProbeSpecific(StlinkError::JTagDoesNotSupportMultipleAP))
    );
    assert_eq!(
        probe.close_ap(1),
        Err(DebugProbeError::ProbeSpecific(StlinkError::JTagDoesNotSupportMultipleAP))
    );
    assert_eq!(
        probe.read_register(PortType::AccessPort(1), 0x00),
        Err(DebugProbeError::ProbeSpecific(StlinkError::JTagDoesNotSupportMultipleAP))
    );
    assert_eq!(probe.current_ap, None);
    assert_eq!(probe.transport.commands.len(), before);
}

#[test]
fn failed_transfer_status_keeps_session_fields() {
    let mut probe = new_pre_v3(2, 28);
    probe.transport.responses = vec![ok(vec![0x10, 0, 0, 0, 0, 0, 0, 0])];
    assert_eq!(
        probe.read_register(PortType::DebugPort, 0x00),
        Err(DebugProbeError::ProbeSpecific(StlinkError::CommandFailed(Status::SwdApWait)))
    );
    assert_eq!(probe.current_ap, None);
    assert_eq!(probe.swd_speed_khz, 1800);
}

// --- reset pins ---

#[test]
fn target_reset_sends_pulse_and_validates() {
    let mut probe = new_pre_v3(2, 24);
    probe.transport.responses = vec![ok(vec![0x80, 0])];
    assert!(probe.target_reset().is_ok());
    let cmd = probe.transport.commands.last().unwrap().clone();
    assert_eq!(cmd, vec![0xF2, 0x3C, 0x02]);
}

#[test]
fn drive_nreset_levels() {
    let mut probe = new_pre_v3(2, 24);
    probe.transport.responses = vec![ok(vec![0x80, 0]), ok(vec![0x80, 0])];
    probe.drive_nreset(true).unwrap();
    probe.drive_nreset(false).unwrap();
    let n = probe.transport.commands.len();
    assert_eq!(probe.transport.commands[n - 2], vec![0xF2, 0x3C, 0x00]);
    assert_eq!(probe.transport.commands[n - 1], vec![0xF2, 0x3C, 0x01]);
}

#[test]
fn drive_nreset_reports_failed_status() {
    let mut probe = new_pre_v3(2, 24);
    probe.transport.responses = vec![ok(vec![0x42, 0])];
    assert_eq!(
        probe.drive_nreset(true),
        Err(DebugProbeError::ProbeSpecific(StlinkError::CommandFailed(
            Status::JtagUnknownCmd
        )))
    );
}

// --- attach / detach end to end ---

#[test]
fn attach_enters_swd_and_reapplies_speed() {
    let mut probe = new_pre_v3(2, 24);
    let base = probe.transport.commands.len();
    probe.transport.responses = vec![
        ok(vec![2, 0]),
        ok(vec![0x80, 0]),
        ok(vec![0x80, 0]),
    ];
    probe.attach().expect("attach should succeed");
    let cmds = &probe.transport.commands[base..];
    assert_eq!(cmds.len(), 3);
    // Idle check, SWD entry, then the speed re-application.
    assert_eq!(cmds[0], vec![0xF5]);
    assert_eq!(cmds[1], vec![0xF2, 0x30, 0xA3, 0]);
    assert_eq!(cmds[2], vec![0xF2, 0x43, 1, 0]);
    assert_eq!(probe.swd_speed_khz, 1800);
}

#[test]
fn attach_enters_jtag_variant() {
    let mut probe = new_pre_v3(2, 24);
    probe.select_protocol(WireProtocol::Jtag).unwrap();
    let base = probe.transport.commands.len();
    probe.transport.responses = vec![
        ok(vec![2, 0]),
        ok(vec![0x80, 0]),
        ok(vec![0x80, 0]),
    ];
    probe.attach().expect("attach should succeed");
    let cmds = &probe.transport.commands[base..];
    assert_eq!(cmds[1], vec![0xF2, 0x30, 0xA4, 0]);
    assert_eq!(cmds[2], vec![0xF2, 0x44, 32, 0]);
}

#[test]
fn detach_only_checks_idle() {
    let mut probe = new_pre_v3(2, 24);
    let base = probe.transport.commands.len();
    probe.transport.responses = vec![ok(vec![2, 0])];
    probe.detach().expect("detach should succeed");
    let cmds = &probe.transport.commands[base..];
    assert_eq!(cmds.len(), 1);
    assert_eq!(cmds[0], vec![0xF5]);
}

#[test]
fn detach_exits_swim_mode() {
    let mut probe = new_pre_v3(2, 24);
    probe.transport.responses = vec![ok(vec![3, 0]), ok(vec![])];
    probe.detach().expect("detach should succeed");
    let cmd = probe.transport.commands.last().unwrap().clone();
    assert_eq!(cmd, vec![0xF4, 0x01]);
}

#[test]
fn close_discards_teardown_failures() {
    let mut probe = new_pre_v3(2, 24);
    probe.transport.responses = vec![Err(TransportError::Timeout)];
    probe.close();
    assert_eq!(probe.hw_version, 2);
}

#[test]
fn full_session_from_construction_to_detach() {
    // Construct and initialize (idle query, version hw 2 / fw 24, voltage),
    // attach over SWD (idle query, SWD entry, speed re-application), then
    // detach (idle query only).
    let transport = ScriptedTransport::new(vec![
        ok(vec![2, 0]),
        ok(version_response(2, 24)),
        ok(voltage_response(1000, 500)),
        ok(vec![2, 0]),
        ok(vec![0x80, 0]),
        ok(vec![0x80, 0]),
        ok(vec![2, 0]),
    ]);
    let mut probe = STLink::new_from_transport(transport).expect("init should succeed");
    assert_eq!((probe.hw_version, probe.jtag_version), (2, 24));
    probe.attach().expect("attach should succeed");
    probe.detach().expect("detach should succeed");
    let cmds = &probe.transport.commands;
    assert_eq!(cmds.len(), 7);
    assert_eq!(cmds[0], vec![0xF5]);
    assert_eq!(cmds[1], vec![0xF1]);
    assert_eq!(cmds[2], vec![0xF7]);
    assert_eq!(cmds[3], vec![0xF5]);
    assert_eq!(cmds[4], vec![0xF2, 0x30, 0xA3, 0]);
    assert_eq!(cmds[5], vec![0xF2, 0x43, 1, 0]);
    assert_eq!(cmds[6], vec![0xF5]);
    assert_eq!(probe.swd_speed_khz, 1800);
}

// --- flash error vocabulary ---

#[test]
fn flash_errors_carry_their_diagnostics() {
    let e = FlashError::RoutineCallFailed { name: "erase", errorcode: 3 };
    assert!(matches!(
        e,
        FlashError::RoutineCallFailed { name: "erase", errorcode: 3 }
    ));
    let region = FlashRegion { start: 0x0800_0000, end: 0x0810_0000 };
    let e = FlashError::AddressNotInRegion { address: 0x2000_0000, region };
    assert!(matches!(e, FlashError::AddressNotInRegion { address: 0x2000_0000, .. }));
    let e = FlashError::Memory(DebugProbeError::ProbeFirmwareOutdated);
    assert!(matches!(e, FlashError::Memory(DebugProbeError::ProbeFirmwareOutdated)));
    let e = FlashError::MaxPageCountExceeded { maximum_page_count: 4, sector_address: 16 };
    assert!(matches!(e, FlashError::MaxPageCountExceeded { maximum_page_count: 4, .. }));
    assert!(matches!(FlashError::DataOverlap(12), FlashError::DataOverlap(12)));
}
