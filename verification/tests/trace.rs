//! Tests that drive the display driver against the recording test double
//! and compare the recorded operations with the protocol's fixed sequences.

use inky_phat::protocol::BORDER_WAVEFORM_CONTROL;
use inky_phat::protocol::BUSY_MAX_POLLS;
use inky_phat::protocol::BUSY_POLL_MS;
use inky_phat::protocol::DATA_ENTRY_MODE_SETTING;
use inky_phat::protocol::DISPLAY_UPDATE_CONTROL_1;
use inky_phat::protocol::DISPLAY_UPDATE_CONTROL_2;
use inky_phat::protocol::DRIVER_OUTPUT_CONTROL;
use inky_phat::protocol::MASTER_ACTIVATION;
use inky_phat::protocol::PANEL_COLS;
use inky_phat::protocol::PANEL_ROWS;
use inky_phat::protocol::RESET_HOLD_MS;
use inky_phat::protocol::SET_RAM_X_ADDRESS_COUNTER;
use inky_phat::protocol::SET_RAM_X_ADDRESS_START_END_POSITION;
use inky_phat::protocol::SET_RAM_Y_ADDRESS_COUNTER;
use inky_phat::protocol::SET_RAM_Y_ADDRESS_START_END_POSITION;
use inky_phat::protocol::SW_RESET;
use inky_phat::protocol::WRITE_RAM_BW;
use inky_phat::protocol::WRITE_RAM_RED;
use inky_phat::BusOp;
use inky_phat::InkyError;
use inky_phat::InkyPhat;
use inky_phat::MockInterface;
use inky_phat::PLANE_BYTES;

fn cmd_ops(command: u8) -> Vec<BusOp> {
    vec![
        BusOp::Dc(false),
        BusOp::Cs(false),
        BusOp::Spi(vec![command]),
        BusOp::Cs(true),
    ]
}

fn data_ops(payload: &[u8]) -> Vec<BusOp> {
    vec![
        BusOp::Dc(true),
        BusOp::Cs(false),
        BusOp::Spi(payload.to_vec()),
        BusOp::Cs(true),
    ]
}

fn cmd_data_ops(command: u8, payload: &[u8]) -> Vec<BusOp> {
    let mut ops = cmd_ops(command);
    ops.extend(data_ops(payload));
    ops
}

fn reset_ops() -> Vec<BusOp> {
    vec![
        BusOp::Rst(false),
        BusOp::Delay(RESET_HOLD_MS),
        BusOp::Rst(true),
        BusOp::Delay(RESET_HOLD_MS),
    ]
}

fn busy_ops(asserted_polls: usize) -> Vec<BusOp> {
    let mut ops = Vec::new();
    for _ in 0..asserted_polls {
        ops.push(BusOp::Busy(true));
        ops.push(BusOp::Delay(BUSY_POLL_MS));
    }
    ops.push(BusOp::Busy(false));
    ops
}

fn address_counter_ops(x: u8, y: u16) -> Vec<BusOp> {
    let mut ops = cmd_data_ops(SET_RAM_X_ADDRESS_COUNTER, &[x]);
    ops.extend(cmd_data_ops(
        SET_RAM_Y_ADDRESS_COUNTER,
        &[(y % 256) as u8, (y / 256) as u8],
    ));
    ops
}

fn init_config_ops() -> Vec<BusOp> {
    let mut ops = cmd_data_ops(DRIVER_OUTPUT_CONTROL, &[0xD3, 0x00, 0x00]);
    ops.extend(cmd_data_ops(DATA_ENTRY_MODE_SETTING, &[0x03]));
    ops.extend(cmd_data_ops(SET_RAM_X_ADDRESS_START_END_POSITION, &[0x00, 0x0C]));
    ops.extend(cmd_data_ops(SET_RAM_Y_ADDRESS_START_END_POSITION, &[0x00, 0x00, 0xD3, 0x00]));
    ops.extend(cmd_data_ops(BORDER_WAVEFORM_CONTROL, &[0x05]));
    ops.extend(cmd_data_ops(DISPLAY_UPDATE_CONTROL_1, &[0x00, 0x80]));
    ops.extend(cmd_data_ops(DISPLAY_UPDATE_CONTROL_2, &[0xC7]));
    ops
}

#[test]
fn plane_size_matches_panel_geometry() {
    assert_eq!(
        (PANEL_ROWS as usize) * (PANEL_COLS as usize) / 8,
        PLANE_BYTES
    );
}

#[test]
fn send_data_with_empty_payload_still_frames() {
    let mut driver = InkyPhat::new(MockInterface::new(Vec::new()));
    assert!(driver.send_data(&[]).is_ok());
    assert_eq!(driver.interface().ops(), &data_ops(&[]));
}

#[test]
fn send_command_frames_one_byte() {
    let mut driver = InkyPhat::new(MockInterface::new(Vec::new()));
    assert!(driver.send_command(SW_RESET).is_ok());
    assert_eq!(driver.interface().ops(), &cmd_ops(SW_RESET));
}

#[test]
fn send_data_frames_whole_payload() {
    let mut driver = InkyPhat::new(MockInterface::new(Vec::new()));
    assert!(driver.send_data(&[0x10, 0x20, 0x30]).is_ok());
    assert_eq!(driver.interface().ops(), &data_ops(&[0x10, 0x20, 0x30]));
}

#[test]
fn send_command_data_appends_payload() {
    let mut driver = InkyPhat::new(MockInterface::new(Vec::new()));
    assert!(driver.send_command_data(BORDER_WAVEFORM_CONTROL, Some(&[0x05])).is_ok());
    assert_eq!(
        driver.interface().ops(),
        &cmd_data_ops(BORDER_WAVEFORM_CONTROL, &[0x05])
    );
}

#[test]
fn send_command_data_without_payload_sends_command_only() {
    let mut driver = InkyPhat::new(MockInterface::new(Vec::new()));
    assert!(driver.send_command_data(MASTER_ACTIVATION, None).is_ok());
    assert_eq!(driver.interface().ops(), &cmd_ops(MASTER_ACTIVATION));
}

#[test]
fn reset_pulses_the_line_with_both_holds() {
    let mut driver = InkyPhat::new(MockInterface::new(Vec::new()));
    assert!(driver.reset().is_ok());
    assert_eq!(driver.interface().ops(), &reset_ops());
}

#[test]
fn busy_wait_polls_until_first_clear_sample() {
    let mut driver = InkyPhat::new(MockInterface::new(vec![true, true, false]));
    assert!(driver.busy_wait().is_ok());
    assert_eq!(driver.interface().ops(), &busy_ops(2));
}

#[test]
fn busy_wait_samples_at_least_once() {
    let mut driver = InkyPhat::new(MockInterface::new(Vec::new()));
    assert!(driver.busy_wait().is_ok());
    assert_eq!(driver.interface().ops(), &busy_ops(0));
}

#[test]
fn busy_wait_times_out_on_a_stuck_line() {
    let mut driver = InkyPhat::new(MockInterface::new(vec![true; BUSY_MAX_POLLS + 8]));
    assert!(matches!(driver.busy_wait(), Err(InkyError::BusyTimeout)));
    assert_eq!(driver.interface().ops().len(), 2 * BUSY_MAX_POLLS);
}

#[test]
fn address_counter_splits_y_little_endian() {
    let mut driver = InkyPhat::new(MockInterface::new(Vec::new()));
    assert!(driver.set_ram_address_counter(3, 0x01AB).is_ok());
    let mut expected = cmd_data_ops(SET_RAM_X_ADDRESS_COUNTER, &[3]);
    expected.extend(cmd_data_ops(SET_RAM_Y_ADDRESS_COUNTER, &[0xAB, 0x01]));
    assert_eq!(driver.interface().ops(), &expected);
}

#[test]
fn init_with_ready_controller_emits_exact_sequence() {
    let mut driver = InkyPhat::new(MockInterface::new(Vec::new()));
    assert!(driver.init().is_ok());
    let mut expected = reset_ops();
    expected.extend(busy_ops(0));
    expected.extend(cmd_ops(SW_RESET));
    expected.extend(busy_ops(0));
    expected.extend(init_config_ops());
    assert_eq!(driver.interface().ops(), &expected);
}

#[test]
fn init_with_scripted_busy_polls_twice_per_wait() {
    let script = vec![true, true, false, true, true, false];
    let mut driver = InkyPhat::new(MockInterface::new(script));
    assert!(driver.init().is_ok());
    let mut expected = reset_ops();
    expected.extend(busy_ops(2));
    expected.extend(cmd_ops(SW_RESET));
    expected.extend(busy_ops(2));
    expected.extend(init_config_ops());
    assert_eq!(driver.interface().ops(), &expected);
}

#[test]
fn update_bw_resets_origin_then_writes_plane() {
    let buffer = vec![0xAA; PLANE_BYTES];
    let mut driver = InkyPhat::new(MockInterface::new(Vec::new()));
    assert!(driver.update_bw(&buffer).is_ok());
    let mut expected = address_counter_ops(0, 0);
    expected.extend(cmd_data_ops(WRITE_RAM_BW, &buffer));
    assert_eq!(driver.interface().ops(), &expected);
}

#[test]
fn update_red_resets_origin_then_writes_plane() {
    let buffer = vec![0x55; PLANE_BYTES];
    let mut driver = InkyPhat::new(MockInterface::new(Vec::new()));
    assert!(driver.update_red(&buffer).is_ok());
    let mut expected = address_counter_ops(0, 0);
    expected.extend(cmd_data_ops(WRITE_RAM_RED, &buffer));
    assert_eq!(driver.interface().ops(), &expected);
}

#[test]
fn update_bw_rejects_short_buffer_untouched() {
    let mut driver = InkyPhat::new(MockInterface::new(Vec::new()));
    assert!(matches!(
        driver.update_bw(&[0u8; 10]),
        Err(InkyError::BufferLength)
    ));
    assert!(driver.interface().ops().is_empty());
}

#[test]
fn update_red_rejects_long_buffer_untouched() {
    let buffer = vec![0u8; PLANE_BYTES + 1];
    let mut driver = InkyPhat::new(MockInterface::new(Vec::new()));
    assert!(matches!(driver.update_red(&buffer), Err(InkyError::BufferLength)));
    assert!(driver.interface().ops().is_empty());
}

#[test]
fn display_refresh_activates_then_waits() {
    let mut driver = InkyPhat::new(MockInterface::new(vec![true, false]));
    assert!(driver.display_refresh().is_ok());
    let mut expected = cmd_ops(MASTER_ACTIVATION);
    expected.extend(busy_ops(1));
    assert_eq!(driver.interface().ops(), &expected);
}

#[test]
fn bw_plane_alone_can_be_staged_and_refreshed() {
    let buffer = vec![0xFF; PLANE_BYTES];
    let mut driver = InkyPhat::new(MockInterface::new(Vec::new()));
    assert!(driver.update_bw(&buffer).is_ok());
    assert!(driver.display_refresh().is_ok());
    let mut expected = address_counter_ops(0, 0);
    expected.extend(cmd_data_ops(WRITE_RAM_BW, &buffer));
    expected.extend(cmd_ops(MASTER_ACTIVATION));
    expected.extend(busy_ops(0));
    assert_eq!(driver.interface().ops(), &expected);
}

#[test]
fn red_plane_alone_can_be_staged_and_refreshed() {
    let buffer = vec![0x00; PLANE_BYTES];
    let mut driver = InkyPhat::new(MockInterface::new(Vec::new()));
    assert!(driver.update_red(&buffer).is_ok());
    assert!(driver.display_refresh().is_ok());
    let mut expected = address_counter_ops(0, 0);
    expected.extend(cmd_data_ops(WRITE_RAM_RED, &buffer));
    expected.extend(cmd_ops(MASTER_ACTIVATION));
    expected.extend(busy_ops(0));
    assert_eq!(driver.interface().ops(), &expected);
}

#[test]
fn spi_failure_surfaces_and_releases_chip_select() {
    let mut driver = InkyPhat::new(MockInterface::with_failures(Vec::new(), true, false));
    assert!(matches!(
        driver.send_command(SW_RESET),
        Err(InkyError::Spi(()))
    ));
    // Nothing was written, and chip select was released again on the
    // failing exit path.
    assert_eq!(
        driver.interface().ops(),
        &vec![BusOp::Dc(false), BusOp::Cs(false), BusOp::Cs(true)]
    );
}

#[test]
fn spi_failure_in_data_transfer_releases_chip_select() {
    let mut driver = InkyPhat::new(MockInterface::with_failures(Vec::new(), true, false));
    assert!(matches!(
        driver.send_data(&[0x10, 0x20]),
        Err(InkyError::Spi(()))
    ));
    assert_eq!(
        driver.interface().ops(),
        &vec![BusOp::Dc(true), BusOp::Cs(false), BusOp::Cs(true)]
    );
}

#[test]
fn gpio_failure_surfaces_before_anything_happens() {
    let mut driver = InkyPhat::new(MockInterface::with_failures(Vec::new(), false, true));
    assert!(matches!(driver.reset(), Err(InkyError::Gpio(()))));
    assert!(driver.interface().ops().is_empty());
}

#[test]
fn release_returns_the_interface_with_its_record() {
    let mut driver = InkyPhat::new(MockInterface::new(Vec::new()));
    assert!(driver.send_command(SW_RESET).is_ok());
    let iface = driver.release();
    assert_eq!(iface.ops(), &cmd_ops(SW_RESET));
}
