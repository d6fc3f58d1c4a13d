//! End-to-end driver tests against a scripted chip: the mock implements
//! the transport traits, records every byte the driver clocks out, and
//! plays back response bytes from a script.

use std::cell::RefCell;
use std::collections::VecDeque;
use std::rc::Rc;

use wifinina::commands::socket::{
    interpret_get_socket, ConnectedSocket, Destination, Protocol, SocketStatus,
};
use wifinina::commands::wifi::{WifiScanResults, WifiStatus};
use wifinina::transport::{
    CountdownTimer, InputLine, OutputLine, PinFault, SpiFault, SpiTransfer,
};
use wifinina::{Error, NbError, WifiNina};

struct Chip {
    selected: bool,
    script: VecDeque<u8>,
    written: Vec<u8>,
}

#[derive(Clone)]
struct Shared(Rc<RefCell<Chip>>);

impl Shared {
    fn new() -> Shared {
        Shared(Rc::new(RefCell::new(Chip {
            selected: false,
            script: VecDeque::new(),
            written: Vec::new(),
        })))
    }

    fn feed(&self, bytes: &[u8]) {
        let mut chip = self.0.borrow_mut();
        for b in bytes {
            chip.script.push_back(*b);
        }
    }

    fn written(&self) -> Vec<u8> {
        self.0.borrow().written.clone()
    }
}

struct MockCs(Shared);

impl OutputLine for MockCs {
    fn set_high(&mut self) -> Result<(), PinFault> {
        self.0 .0.borrow_mut().selected = false;
        Ok(())
    }

    fn set_low(&mut self) -> Result<(), PinFault> {
        self.0 .0.borrow_mut().selected = true;
        Ok(())
    }
}

struct MockBusy(Shared);

impl InputLine for MockBusy {
    fn is_high(&mut self) -> Result<bool, PinFault> {
        // The chip acknowledges selection by raising busy, and is idle
        // (busy low) otherwise.
        Ok(self.0 .0.borrow().selected)
    }
}

struct MockSpi(Shared);

impl SpiTransfer for MockSpi {
    fn transfer_byte(&mut self) -> Result<u8, SpiFault> {
        self.0 .0.borrow_mut().script.pop_front().ok_or(SpiFault)
    }

    fn write_byte(&mut self, b: u8) -> Result<(), SpiFault> {
        self.0 .0.borrow_mut().written.push(b);
        Ok(())
    }
}

struct MockTimer;

impl CountdownTimer for MockTimer {
    fn start_ms(&mut self, _ms: u32) {}

    fn expired(&mut self) -> bool {
        true
    }
}

fn driver(chip: &Shared) -> (WifiNina<MockCs, MockBusy, MockTimer>, MockSpi) {
    let wifi = WifiNina::new(MockCs(chip.clone()), MockBusy(chip.clone()), MockTimer).unwrap();
    (wifi, MockSpi(chip.clone()))
}

/// Scans `haystack` for frame starts: a START token followed by the given
/// command byte.
fn frame_starts(haystack: &[u8], cmd: u8) -> Vec<usize> {
    let mut starts = Vec::new();
    for i in 0..haystack.len().saturating_sub(1) {
        if haystack[i] == 0xE0 && haystack[i + 1] == cmd {
            starts.push(i);
        }
    }
    starts
}

#[test]
fn connect_tcp_to_literal_address() {
    let chip = Shared::new();
    let (mut wifi, mut spi) = driver(&chip);
    // GetSocket hands out socket 3; StartClientTcp acknowledges; the first
    // status poll reads Established.
    chip.feed(&[0xE0, 0xBF, 0x01, 0x01, 0x03, 0xEE]);
    chip.feed(&[0xE0, 0xAD, 0x01, 0x01, 0x01, 0xEE]);
    chip.feed(&[0xE0, 0xAF, 0x01, 0x01, 0x04, 0xEE]);

    let socket = wifi.socket_new(&mut spi).unwrap();
    assert_eq!(socket.num(), 3);
    let status = wifi
        .socket_open(
            &mut spi,
            &socket,
            Protocol::Tcp,
            &Destination::Ip([10, 0, 0, 1]),
            80,
        )
        .unwrap();
    assert_eq!(status, SocketStatus::Established);

    let written = chip.written();
    // The whole StartClientTcp frame, already a multiple of four bytes.
    let expected = [
        0xE0, 0x2D, 0x04, 0x04, 0x0A, 0x00, 0x00, 0x01, 0x02, 0x00, 0x50, 0x01, 0x03, 0x01, 0x00,
        0xEE,
    ];
    let starts = frame_starts(&written, 0x2D);
    assert_eq!(starts.len(), 1);
    assert_eq!(&written[starts[0]..starts[0] + expected.len()], &expected);
}

#[test]
fn read_on_idle_socket_would_block() {
    let chip = Shared::new();
    let (mut wifi, mut spi) = driver(&chip);
    // No data available; the follow-up status poll reads Established, so
    // the socket is idle rather than closed.
    chip.feed(&[0xE0, 0xAB, 0x01, 0x02, 0x00, 0x00, 0xEE]);
    chip.feed(&[0xE0, 0xAF, 0x01, 0x01, 0x04, 0xEE]);

    let socket = interpret_get_socket(5).unwrap();
    let result = wifi.socket_read(&mut spi, &socket, 64);
    assert_eq!(result, Err(NbError::WouldBlock));

    let written = chip.written();
    let expected = [0xE0, 0x2B, 0x01, 0x01, 0x05, 0xEE, 0x00, 0x00];
    let starts = frame_starts(&written, 0x2B);
    assert_eq!(starts.len(), 1);
    assert_eq!(&written[..expected.len()], &expected);
}

#[test]
fn read_on_closed_socket_is_eof() {
    let chip = Shared::new();
    let (mut wifi, mut spi) = driver(&chip);
    chip.feed(&[0xE0, 0xAB, 0x01, 0x02, 0x00, 0x00, 0xEE]);
    chip.feed(&[0xE0, 0xAF, 0x01, 0x01, 0x00, 0xEE]);

    let socket = interpret_get_socket(5).unwrap();
    let result = wifi.socket_read(&mut spi, &socket, 64).unwrap();
    assert!(result.is_empty());
}

#[test]
fn read_fetches_available_data() {
    let chip = Shared::new();
    let (mut wifi, mut spi) = driver(&chip);
    // Three bytes available, then a sixteen-bit framed data reply.
    chip.feed(&[0xE0, 0xAB, 0x01, 0x02, 0x03, 0x00, 0xEE]);
    chip.feed(&[0xE0, 0xC5, 0x01, 0x00, 0x03, 0x61, 0x62, 0x63, 0xEE]);

    let socket = interpret_get_socket(2).unwrap();
    let data = wifi.socket_read(&mut spi, &socket, 64).unwrap();
    assert_eq!(data.as_slice(), b"abc");
}

#[test]
fn socket_pool_exhausted() {
    let chip = Shared::new();
    let (mut wifi, mut spi) = driver(&chip);
    chip.feed(&[0xE0, 0xBF, 0x01, 0x01, 0xFF, 0xEE]);
    assert_eq!(
        wifi.socket_new(&mut spi).unwrap_err(),
        Error::NoSocketAvailable
    );
}

#[test]
fn allocated_sockets_are_distinct_until_closed() {
    let chip = Shared::new();
    let (mut wifi, mut spi) = driver(&chip);
    chip.feed(&[0xE0, 0xBF, 0x01, 0x01, 0x03, 0xEE]);
    chip.feed(&[0xE0, 0xBF, 0x01, 0x01, 0x04, 0xEE]);

    let first = wifi.socket_new(&mut spi).unwrap();
    let second = wifi.socket_new(&mut spi).unwrap();
    assert_ne!(first.num(), second.num());

    // Only after the first handle is closed may the chip hand its number
    // out again.
    chip.feed(&[0xE0, 0xAE, 0x01, 0x01, 0x01, 0xEE]);
    chip.feed(&[0xE0, 0xBF, 0x01, 0x01, 0x03, 0xEE]);
    wifi.socket_close(&mut spi, first).unwrap();
    let third = wifi.socket_new(&mut spi).unwrap();
    assert_eq!(third.num(), 3);
    assert_ne!(third.num(), second.num());
}

#[test]
fn closing_a_connected_socket_sends_stop_client() {
    let chip = Shared::new();
    let (mut wifi, mut spi) = driver(&chip);
    let socket = interpret_get_socket(3).unwrap();
    let connected: ConnectedSocket = wifi.socket_resume(socket);

    chip.feed(&[0xE0, 0xAE, 0x01, 0x01, 0x01, 0xEE]);
    connected.close(&mut wifi, &mut spi).unwrap();

    let written = chip.written();
    let expected = [0xE0, 0x2E, 0x01, 0x01, 0x03, 0xEE, 0x00, 0x00];
    assert_eq!(&written[..expected.len()], &expected);
}

#[test]
fn suspend_returns_the_raw_handle() {
    let chip = Shared::new();
    let (mut wifi, _spi) = driver(&chip);
    let socket = interpret_get_socket(9).unwrap();
    let connected = wifi.socket_resume(socket);
    let socket = connected.suspend();
    assert_eq!(socket.num(), 9);
    // Nothing touched the bus along the way.
    assert!(chip.written().is_empty());
}

#[test]
fn write_nine_thousand_bytes_in_three_frames() {
    let chip = Shared::new();
    let (mut wifi, mut spi) = driver(&chip);
    // The chip accepts each chunk in full: 4000, 4000, then 1000 bytes.
    chip.feed(&[0xE0, 0xC4, 0x01, 0x02, 0xA0, 0x0F, 0xEE]);
    chip.feed(&[0xE0, 0xC4, 0x01, 0x02, 0xA0, 0x0F, 0xEE]);
    chip.feed(&[0xE0, 0xC4, 0x01, 0x02, 0xE8, 0x03, 0xEE]);

    let socket = interpret_get_socket(2).unwrap();
    let data = vec![0x55u8; 9_000];
    let total = wifi.socket_write(&mut spi, &socket, &data).unwrap();
    assert_eq!(total, 9_000);

    let written = chip.written();
    let starts = frame_starts(&written, 0x44);
    assert_eq!(starts.len(), 3);
    // Each frame announces its socket byte, then its chunk length as a
    // big-endian sixteen-bit word.
    assert_eq!(&written[starts[0] + 2..starts[0] + 8], &[0x02, 0x00, 0x01, 0x02, 0x0F, 0xA0]);
    assert_eq!(&written[starts[1] + 2..starts[1] + 8], &[0x02, 0x00, 0x01, 0x02, 0x0F, 0xA0]);
    assert_eq!(&written[starts[2] + 2..starts[2] + 8], &[0x02, 0x00, 0x01, 0x02, 0x03, 0xE8]);
}

#[test]
fn firmware_version_exposes_string() {
    let chip = Shared::new();
    let (mut wifi, mut spi) = driver(&chip);
    chip.feed(&[0xE0, 0xB7, 0x01, 0x06, 0x31, 0x2E, 0x37, 0x2E, 0x34, 0x00, 0xEE]);

    let version = wifi.get_firmware_version(&mut spi).unwrap();
    assert_eq!(version.len(), 6);
    // The reported string is "1.7.4" plus the C-string terminator.
    assert_eq!(&version[..5], b"1.7.4");
    assert_eq!(version[5], 0);
    assert_eq!(chip.written(), vec![0xE0, 0x37, 0x00, 0xEE]);
}

#[test]
fn wifi_status_reports_connected() {
    let chip = Shared::new();
    let (mut wifi, mut spi) = driver(&chip);
    chip.feed(&[0xE0, 0xA0, 0x01, 0x01, 0x03, 0xEE]);
    assert_eq!(wifi.wifi_status(&mut spi).unwrap(), WifiStatus::Connected);
}

#[test]
fn wifi_connect_succeeds_on_connected_status() {
    let chip = Shared::new();
    let (mut wifi, mut spi) = driver(&chip);
    // SetNetworkAndPassphrase acknowledged, then the first status poll
    // reads Connected.
    chip.feed(&[0xE0, 0x91, 0x01, 0x01, 0x01, 0xEE]);
    chip.feed(&[0xE0, 0xA0, 0x01, 0x01, 0x03, 0xEE]);
    let status = wifi
        .wifi_connect(&mut spi, b"ssid", Some(b"secret"))
        .unwrap();
    assert_eq!(status, WifiStatus::Connected);
}

#[test]
fn wifi_connect_fails_on_failed_status() {
    let chip = Shared::new();
    let (mut wifi, mut spi) = driver(&chip);
    chip.feed(&[0xE0, 0x90, 0x01, 0x01, 0x01, 0xEE]);
    chip.feed(&[0xE0, 0xA0, 0x01, 0x01, 0x04, 0xEE]);
    let result = wifi.wifi_connect(&mut spi, b"ssid", None);
    assert_eq!(
        result,
        Err(Error::ConnectionFailed(WifiStatus::ConnectFailed))
    );
}

#[test]
fn wifi_scan_reads_ssids() {
    let chip = Shared::new();
    let (mut wifi, mut spi) = driver(&chip);
    // Two networks: "a" and "bc".
    chip.feed(&[0xE0, 0xA7, 0x02, 0x01, 0x61, 0x02, 0x62, 0x63, 0xEE]);

    let mut results = WifiScanResults::default();
    let count = wifi.wifi_scan(&mut spi, &mut results).unwrap();
    assert_eq!(count, 2);
    assert_eq!(results.ssids_count, 2);
    assert_eq!(results.ssids.len(), 2);
    assert_eq!(results.ssids[0].as_slice(), b"a");
    assert_eq!(results.ssids[1].as_slice(), b"bc");
}

#[test]
fn network_info_reads_three_addresses() {
    let chip = Shared::new();
    let (mut wifi, mut spi) = driver(&chip);
    chip.feed(&[
        0xE0, 0xA1, 0x03, 0x04, 192, 168, 1, 7, 0x04, 255, 255, 255, 0, 0x04, 192, 168, 1, 1,
        0xEE,
    ]);
    let info = wifi.network_info(&mut spi).unwrap();
    assert_eq!(info.ip, [192, 168, 1, 7]);
    assert_eq!(info.netmask, [255, 255, 255, 0]);
    assert_eq!(info.gateway_ip, [192, 168, 1, 1]);
}

#[test]
fn resolve_host_name_found() {
    let chip = Shared::new();
    let (mut wifi, mut spi) = driver(&chip);
    chip.feed(&[0xE0, 0xB4, 0x01, 0x01, 0x01, 0xEE]);
    chip.feed(&[0xE0, 0xB5, 0x01, 0x04, 93, 184, 216, 34, 0xEE]);
    let ip = wifi.resolve_host_name(&mut spi, b"example.com").unwrap();
    assert_eq!(ip, Some([93, 184, 216, 34]));
}

#[test]
fn resolve_host_name_not_found() {
    let chip = Shared::new();
    let (mut wifi, mut spi) = driver(&chip);
    chip.feed(&[0xE0, 0xB4, 0x01, 0x01, 0x00, 0xEE]);
    let ip = wifi.resolve_host_name(&mut spi, b"nowhere.invalid").unwrap();
    assert_eq!(ip, None);
}

#[test]
fn ping_reports_milliseconds() {
    let chip = Shared::new();
    let (mut wifi, mut spi) = driver(&chip);
    chip.feed(&[0xE0, 0xBE, 0x01, 0x02, 30, 0, 0xEE]);
    let ms = wifi.ping(&mut spi, &[10, 0, 0, 1], 64).unwrap();
    assert_eq!(ms, 30);
}

#[test]
fn server_select_would_block_without_client() {
    let chip = Shared::new();
    let (mut wifi, mut spi) = driver(&chip);
    chip.feed(&[0xE0, 0xBF, 0x01, 0x01, 0x06, 0xEE]);
    chip.feed(&[0xE0, 0xA8, 0x01, 0x01, 0x01, 0xEE]);
    let server = wifi
        .server_start(&mut spi, Protocol::Tcp, 8080, None)
        .unwrap();
    assert_eq!(server.num(), 6);

    chip.feed(&[0xE0, 0xAB, 0x01, 0x02, 0xFF, 0x00, 0xEE]);
    match wifi.server_select(&mut spi, &server) {
        Err(NbError::WouldBlock) => {}
        _ => panic!("expected WouldBlock with no client waiting"),
    }
}

#[test]
fn server_select_accepts_client() {
    let chip = Shared::new();
    let (mut wifi, mut spi) = driver(&chip);
    chip.feed(&[0xE0, 0xBF, 0x01, 0x01, 0x06, 0xEE]);
    chip.feed(&[0xE0, 0xA8, 0x01, 0x01, 0x01, 0xEE]);
    let server = wifi
        .server_start(&mut spi, Protocol::Tcp, 8080, None)
        .unwrap();

    chip.feed(&[0xE0, 0xAB, 0x01, 0x02, 0x07, 0x00, 0xEE]);
    let client = wifi.server_select(&mut spi, &server).unwrap();
    assert_eq!(client.suspend().num(), 7);
}

#[test]
fn error_token_fails_the_exchange() {
    let chip = Shared::new();
    let (mut wifi, mut spi) = driver(&chip);
    chip.feed(&[0xEF]);
    assert_eq!(wifi.socket_new(&mut spi).unwrap_err(), Error::ErrorResponse);
}

#[test]
fn get_temperature_hands_out_raw_float_bytes() {
    let chip = Shared::new();
    let (mut wifi, mut spi) = driver(&chip);
    // 25.5 as a little-endian 32-bit float.
    chip.feed(&[0xE0, 0x9B, 0x01, 0x04, 0x00, 0x00, 0xCC, 0x41, 0xEE]);
    let raw = wifi.get_temperature(&mut spi).unwrap();
    assert_eq!(f32::from_le_bytes(raw), 25.5);
}

/// A busy line stuck at a fixed level.
struct StuckBusy(bool);

impl InputLine for StuckBusy {
    fn is_high(&mut self) -> Result<bool, PinFault> {
        Ok(self.0)
    }
}

/// An output line whose driver circuit fails.
struct BrokenPin;

impl OutputLine for BrokenPin {
    fn set_high(&mut self) -> Result<(), PinFault> {
        Err(PinFault)
    }

    fn set_low(&mut self) -> Result<(), PinFault> {
        Err(PinFault)
    }
}

#[test]
fn broken_chip_select_pin_fails_construction() {
    match WifiNina::new(BrokenPin, StuckBusy(false), MockTimer) {
        Err(Error::ChipSelectPinError) => {}
        _ => panic!("expected ChipSelectPinError"),
    }
}

#[test]
fn stuck_busy_line_times_out_selection() {
    let chip = Shared::new();
    let mut wifi =
        WifiNina::new(MockCs(chip.clone()), StuckBusy(true), MockTimer).unwrap();
    let mut spi = MockSpi(chip.clone());
    assert_eq!(
        wifi.socket_new(&mut spi).unwrap_err(),
        Error::ChipSelectTimeout
    );
}

#[test]
fn broken_reset_pin_reports_reset_error() {
    let chip = Shared::new();
    let (mut wifi, _spi) = driver(&chip);
    assert_eq!(
        wifi.reset(&mut BrokenPin).unwrap_err(),
        Error::ResetPinError
    );
}

#[test]
fn reset_toggles_the_reset_line() {
    let chip = Shared::new();
    let (mut wifi, _spi) = driver(&chip);
    wifi.reset(&mut MockCs(chip.clone())).unwrap();
}

#[test]
fn silence_before_start_times_out() {
    let chip = Shared::new();
    let (mut wifi, mut spi) = driver(&chip);
    // One junk byte; the timer then expires before a START arrives.
    chip.feed(&[0x00]);
    assert_eq!(
        wifi.socket_new(&mut spi).unwrap_err(),
        Error::ResponseTimeout
    );
}

#[test]
fn spi_fault_surfaces_as_spi_error() {
    let chip = Shared::new();
    let (mut wifi, mut spi) = driver(&chip);
    // The response breaks off mid-frame; the next transfer fails.
    chip.feed(&[0xE0, 0xBF, 0x01]);
    assert_eq!(wifi.socket_new(&mut spi).unwrap_err(), Error::SpiError);
}

#[test]
fn silent_connect_failure_reported() {
    let chip = Shared::new();
    let (mut wifi, mut spi) = driver(&chip);
    // The firmware sends no result parameter when its connect call fails
    // outright.
    chip.feed(&[0xE0, 0xAD, 0x00, 0xEE]);
    let socket = interpret_get_socket(3).unwrap();
    let result = wifi.socket_open(
        &mut spi,
        &socket,
        Protocol::Tcp,
        &Destination::Ip([10, 0, 0, 1]),
        80,
    );
    assert_eq!(
        result.unwrap_err(),
        Error::SocketConnectionFailed(SocketStatus::UnknownStatus)
    );
}

#[test]
fn hostname_destination_resolves_first() {
    let chip = Shared::new();
    let (mut wifi, mut spi) = driver(&chip);
    // The DNS lookup succeeds, connect acknowledges, and the first status
    // poll reads Established.
    chip.feed(&[0xE0, 0xB4, 0x01, 0x01, 0x01, 0xEE]);
    chip.feed(&[0xE0, 0xB5, 0x01, 0x04, 1, 2, 3, 4, 0xEE]);
    chip.feed(&[0xE0, 0xAD, 0x01, 0x01, 0x01, 0xEE]);
    chip.feed(&[0xE0, 0xAF, 0x01, 0x01, 0x04, 0xEE]);
    let socket = interpret_get_socket(3).unwrap();
    let status = wifi
        .socket_open(
            &mut spi,
            &socket,
            Protocol::Tcp,
            &Destination::Hostname(b"example.com".to_vec()),
            80,
        )
        .unwrap();
    assert_eq!(status, SocketStatus::Established);
    // The connect frame carries the resolved address, not the name.
    let written = chip.written();
    let starts = frame_starts(&written, 0x2D);
    assert_eq!(&written[starts[0] + 3..starts[0] + 8], &[0x04, 1, 2, 3, 4]);
}

#[test]
fn unresolved_hostname_reports_closed() {
    let chip = Shared::new();
    let (mut wifi, mut spi) = driver(&chip);
    chip.feed(&[0xE0, 0xB4, 0x01, 0x01, 0x00, 0xEE]);
    let socket = interpret_get_socket(3).unwrap();
    let status = wifi
        .socket_open(
            &mut spi,
            &socket,
            Protocol::Tcp,
            &Destination::Hostname(b"nowhere.invalid".to_vec()),
            80,
        )
        .unwrap();
    assert_eq!(status, SocketStatus::Closed);
}

#[test]
fn empty_write_sends_no_frames() {
    let chip = Shared::new();
    let (mut wifi, mut spi) = driver(&chip);
    let socket = interpret_get_socket(2).unwrap();
    let total = wifi.socket_write(&mut spi, &socket, &[]).unwrap();
    assert_eq!(total, 0);
    assert!(chip.written().is_empty());
}

#[test]
fn set_debug_and_pin_commands_acknowledge() {
    let chip = Shared::new();
    let (mut wifi, mut spi) = driver(&chip);
    chip.feed(&[0xE0, 0x9A, 0x01, 0x01, 0x01, 0xEE]);
    wifi.set_debug(&mut spi, true).unwrap();
    chip.feed(&[0xE0, 0xD0, 0x01, 0x01, 0x01, 0xEE]);
    wifi.pin_set_mode(&mut spi, 25, wifinina::commands::extras::ArduinoPinMode::Output)
        .unwrap();
    chip.feed(&[0xE0, 0xD1, 0x01, 0x01, 0x01, 0xEE]);
    wifi.pin_digital_write(&mut spi, 25, 1).unwrap();
    chip.feed(&[0xE0, 0xD2, 0x01, 0x01, 0x01, 0xEE]);
    wifi.pin_analog_write(&mut spi, 26, 128).unwrap();
}
