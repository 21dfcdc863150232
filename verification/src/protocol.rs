//! Byte-level protocol model for the display controller.
//!
//! Every operation the driver performs on the hardware interface is recorded
//! as one event: a level change on a control line, one serial-bus write, one
//! busy-line sample, or one delay. The driver's contracts state exactly which
//! event sequence each call appends to the interface's trace.

use vstd::prelude::*;

verus! {

/// Opcode: driver output control (gate count / scan order).
pub const DRIVER_OUTPUT_CONTROL: u8 = 0x01;
/// Opcode: data entry mode setting (address counter auto-increment).
pub const DATA_ENTRY_MODE_SETTING: u8 = 0x11;
/// Opcode: software reset.
pub const SW_RESET: u8 = 0x12;
/// Opcode: master activation (apply RAM contents to the panel).
pub const MASTER_ACTIVATION: u8 = 0x20;
/// Opcode: display update control 1.
pub const DISPLAY_UPDATE_CONTROL_1: u8 = 0x21;
/// Opcode: display update control 2.
pub const DISPLAY_UPDATE_CONTROL_2: u8 = 0x22;
/// Opcode: write RAM, black/white plane.
pub const WRITE_RAM_BW: u8 = 0x24;
/// Opcode: write RAM, red plane.
pub const WRITE_RAM_RED: u8 = 0x26;
/// Opcode: border waveform control.
pub const BORDER_WAVEFORM_CONTROL: u8 = 0x3C;
/// Opcode: RAM X-address window (start and end byte column).
pub const SET_RAM_X_ADDRESS_START_END_POSITION: u8 = 0x44;
/// Opcode: RAM Y-address window (start and end row).
pub const SET_RAM_Y_ADDRESS_START_END_POSITION: u8 = 0x45;
/// Opcode: RAM X-address counter.
pub const SET_RAM_X_ADDRESS_COUNTER: u8 = 0x4E;
/// Opcode: RAM Y-address counter.
pub const SET_RAM_Y_ADDRESS_COUNTER: u8 = 0x4F;

/// Panel rows.
pub const PANEL_ROWS: u16 = 212;
/// Panel columns.
pub const PANEL_COLS: u16 = 104;
/// Bytes in one plane buffer: 212 rows x 104 columns, one bit per pixel.
pub const PLANE_BYTES: usize = 2756;

/// Hold time of each half of the hardware reset pulse, in milliseconds.
pub const RESET_HOLD_MS: u8 = 100;
/// Poll interval of the busy-line wait, in milliseconds.
pub const BUSY_POLL_MS: u8 = 10;
/// Most busy-line samples one wait takes before giving up: one minute at
/// the poll interval. A stuck busy line yields a timeout failure instead of
/// blocking forever.
pub const BUSY_MAX_POLLS: usize = 6000;

/// One observable interface operation, at the specification level.
///
/// `true` is the electrically high level of a line.
#[verifier::ext_equal]
pub enum BusEvent {
    /// Data/command-select line driven to the given level (low = command).
    Dc(bool),
    /// Chip-select line driven to the given level (low = selected).
    Cs(bool),
    /// Reset line driven to the given level (low = in reset).
    Rst(bool),
    /// Busy-status line sampled, reading the given level (high = busy).
    Busy(bool),
    /// One serial-bus write of the given bytes, as a single transaction.
    Spi(Seq<u8>),
    /// Blocking delay of the given number of milliseconds.
    Delay(u8),
}

/// One recorded interface operation, as a test double stores it.
#[derive(Debug)]
pub enum BusOp {
    /// Data/command-select line driven to the given level (low = command).
    Dc(bool),
    /// Chip-select line driven to the given level (low = selected).
    Cs(bool),
    /// Reset line driven to the given level (low = in reset).
    Rst(bool),
    /// Busy-status line sampled, reading the given level (high = busy).
    Busy(bool),
    /// One serial-bus write of the given bytes, as a single transaction.
    Spi(Vec<u8>),
    /// Blocking delay of the given number of milliseconds.
    Delay(u8),
}

impl View for BusOp {
    type V = BusEvent;

    open spec fn view(&self) -> BusEvent {
        match self {
            BusOp::Dc(level) => BusEvent::Dc(*level),
            BusOp::Cs(level) => BusEvent::Cs(*level),
            BusOp::Rst(level) => BusEvent::Rst(*level),
            BusOp::Busy(level) => BusEvent::Busy(*level),
            BusOp::Spi(bytes) => BusEvent::Spi(bytes@),
            BusOp::Delay(ms) => BusEvent::Delay(*ms),
        }
    }
}

/// Byte-wise equality of two byte vectors.
fn bytes_eq(a: &Vec<u8>, b: &Vec<u8>) -> (r: bool)
    ensures
        r == (a@ == b@),
{
    if a.len() != b.len() {
        return false;
    }
    let mut i: usize = 0;
    while i < a.len()
        invariant
            i <= a.len(),
            a@.len() == b@.len(),
            forall|j: int| 0 <= j < i ==> a@[j] == b@[j],
        decreases a.len() - i,
    {
        if a[i] != b[i] {
            return false;
        }
        i = i + 1;
    }
    proof {
        assert(a@ =~= b@);
    }
    true
}

impl PartialEq for BusOp {
    fn eq(&self, other: &BusOp) -> (r: bool) {
        match (self, other) {
            (BusOp::Dc(a), BusOp::Dc(b)) => a == b,
            (BusOp::Cs(a), BusOp::Cs(b)) => a == b,
            (BusOp::Rst(a), BusOp::Rst(b)) => a == b,
            (BusOp::Busy(a), BusOp::Busy(b)) => a == b,
            (BusOp::Spi(a), BusOp::Spi(b)) => bytes_eq(a, b),
            (BusOp::Delay(a), BusOp::Delay(b)) => a == b,
            _ => false,
        }
    }
}

impl vstd::std_specs::cmp::PartialEqSpecImpl for BusOp {
    open spec fn obeys_eq_spec() -> bool {
        true
    }

    open spec fn eq_spec(&self, other: &BusOp) -> bool {
        self@ == other@
    }
}

/// The trace that a sequence of recorded operations denotes.
pub open spec fn ops_trace(ops: Seq<BusOp>) -> Seq<BusEvent> {
    ops.map_values(|op: BusOp| op@)
}

/// Events of one command transfer: command mode on the data/command line,
/// chip select asserted, exactly the one opcode byte on the bus, chip select
/// released.
pub open spec fn cmd_events(command: u8) -> Seq<BusEvent> {
    seq![
        BusEvent::Dc(false),
        BusEvent::Cs(false),
        BusEvent::Spi(seq![command]),
        BusEvent::Cs(true),
    ]
}

/// Events of one data transfer: data mode on the data/command line, chip
/// select asserted, the whole payload as one bus transaction, chip select
/// released.
pub open spec fn data_events(payload: Seq<u8>) -> Seq<BusEvent> {
    seq![
        BusEvent::Dc(true),
        BusEvent::Cs(false),
        BusEvent::Spi(payload),
        BusEvent::Cs(true),
    ]
}

/// Events of a command followed by its payload.
pub open spec fn cmd_data_events(command: u8, payload: Seq<u8>) -> Seq<BusEvent> {
    cmd_events(command) + data_events(payload)
}

/// Events of the hardware reset pulse: reset low, hold, reset high, hold.
pub open spec fn reset_events() -> Seq<BusEvent> {
    seq![
        BusEvent::Rst(false),
        BusEvent::Delay(RESET_HOLD_MS),
        BusEvent::Rst(true),
        BusEvent::Delay(RESET_HOLD_MS),
    ]
}

/// Events of `polls` busy-line samples that still read asserted, each
/// followed by one poll-interval sleep.
pub open spec fn busy_spin_events(polls: nat) -> Seq<BusEvent>
    decreases polls,
{
    if polls == 0 {
        Seq::empty()
    } else {
        seq![BusEvent::Busy(true), BusEvent::Delay(BUSY_POLL_MS)]
            + busy_spin_events((polls - 1) as nat)
    }
}

/// Events of one complete busy wait: `polls` asserted samples with their
/// sleeps, then the single deasserted sample on which the wait returns.
pub open spec fn busy_wait_events(polls: nat) -> Seq<BusEvent> {
    busy_spin_events(polls) + seq![BusEvent::Busy(false)]
}

/// Low byte of a 16-bit value.
pub open spec fn lo_byte(y: u16) -> u8 {
    (y % 256) as u8
}

/// High byte of a 16-bit value.
pub open spec fn hi_byte(y: u16) -> u8 {
    (y / 256) as u8
}

/// Events that program the RAM address counter: the X-counter command with a
/// one-byte payload, then the Y-counter command with the little-endian
/// two-byte payload.
pub open spec fn address_counter_events(x: u8, y: u16) -> Seq<BusEvent> {
    cmd_data_events(SET_RAM_X_ADDRESS_COUNTER, seq![x])
        + cmd_data_events(SET_RAM_Y_ADDRESS_COUNTER, seq![lo_byte(y), hi_byte(y)])
}

/// Configuration step: driver output control, gate count 212 (0xD3
/// little-endian) and scan order.
pub open spec fn cfg_output_control() -> Seq<BusEvent> {
    cmd_data_events(DRIVER_OUTPUT_CONTROL, seq![0xD3u8, 0x00u8, 0x00u8])
}

/// Configuration step: data entry mode, X then Y auto-increment.
pub open spec fn cfg_entry_mode() -> Seq<BusEvent> {
    cmd_data_events(DATA_ENTRY_MODE_SETTING, seq![0x03u8])
}

/// Configuration step: RAM X window, byte columns 0 through 12.
pub open spec fn cfg_ram_x_window() -> Seq<BusEvent> {
    cmd_data_events(SET_RAM_X_ADDRESS_START_END_POSITION, seq![0x00u8, 0x0Cu8])
}

/// Configuration step: RAM Y window, rows 0 through 211 (0xD3 little-endian).
pub open spec fn cfg_ram_y_window() -> Seq<BusEvent> {
    cmd_data_events(SET_RAM_Y_ADDRESS_START_END_POSITION, seq![0x00u8, 0x00u8, 0xD3u8, 0x00u8])
}

/// Configuration step: border waveform control.
pub open spec fn cfg_border_waveform() -> Seq<BusEvent> {
    cmd_data_events(BORDER_WAVEFORM_CONTROL, seq![0x05u8])
}

/// Configuration step: display update control 1.
pub open spec fn cfg_update_control_1() -> Seq<BusEvent> {
    cmd_data_events(DISPLAY_UPDATE_CONTROL_1, seq![0x00u8, 0x80u8])
}

/// Configuration step: display update control 2.
pub open spec fn cfg_update_control_2() -> Seq<BusEvent> {
    cmd_data_events(DISPLAY_UPDATE_CONTROL_2, seq![0xC7u8])
}

/// The fixed configuration tail of the initialization sequence, after the
/// software reset has completed: output control, data entry mode, RAM
/// window bounds, border waveform, and the two update-control registers,
/// with the byte-exact payloads for the 104x212 panel.
pub open spec fn init_config_events() -> Seq<BusEvent> {
    cfg_output_control() + cfg_entry_mode() + cfg_ram_x_window() + cfg_ram_y_window()
        + cfg_border_waveform() + cfg_update_control_1() + cfg_update_control_2()
}

/// Events of the whole initialization sequence: reset pulse, busy wait,
/// software reset, busy wait, then the fixed configuration tail. The two
/// poll counts depend on how long the controller stays busy.
pub open spec fn init_events(polls_after_reset: nat, polls_after_sw_reset: nat) -> Seq<BusEvent> {
    reset_events()
        + busy_wait_events(polls_after_reset)
        + cmd_events(SW_RESET)
        + busy_wait_events(polls_after_sw_reset)
        + init_config_events()
}

/// Events of one plane transfer: the address counter reset to (0, 0)
/// immediately before the plane's RAM-write command with the full buffer.
pub open spec fn plane_write_events(command: u8, buffer: Seq<u8>) -> Seq<BusEvent> {
    address_counter_events(0, 0) + cmd_data_events(command, buffer)
}

/// How one framed transfer leaves the trace when a pin operation fails:
/// nothing happened at all; only the data/command line moved; or the whole
/// frame went out and the final chip-select release failed.
pub open spec fn frame_pin_failure(
    t0: Seq<BusEvent>,
    t1: Seq<BusEvent>,
    data_mode: bool,
    payload: Seq<u8>,
) -> bool {
    ||| t1 == t0
    ||| t1 == t0 + seq![BusEvent::Dc(data_mode)]
    ||| t1 == t0 + seq![BusEvent::Dc(data_mode), BusEvent::Cs(false), BusEvent::Spi(payload)]
}

/// How one framed transfer leaves the trace when the bus write fails:
/// nothing was written, and chip select was released again — unless that
/// release failed in turn, in which case the line stays asserted.
pub open spec fn frame_bus_failure(t0: Seq<BusEvent>, t1: Seq<BusEvent>, data_mode: bool) -> bool {
    ||| t1 == t0 + seq![BusEvent::Dc(data_mode), BusEvent::Cs(false), BusEvent::Cs(true)]
    ||| t1 == t0 + seq![BusEvent::Dc(data_mode), BusEvent::Cs(false)]
}

/// Pin-failure outcomes of a command-with-payload transfer: the command
/// frame failed, or it completed and the payload frame failed.
pub open spec fn cmd_data_pin_failure(
    t0: Seq<BusEvent>,
    t1: Seq<BusEvent>,
    command: u8,
    payload: Seq<u8>,
) -> bool {
    ||| frame_pin_failure(t0, t1, false, seq![command])
    ||| frame_pin_failure(t0 + cmd_events(command), t1, true, payload)
}

/// Bus-failure outcomes of a command-with-payload transfer.
pub open spec fn cmd_data_bus_failure(t0: Seq<BusEvent>, t1: Seq<BusEvent>, command: u8) -> bool {
    ||| frame_bus_failure(t0, t1, false)
    ||| frame_bus_failure(t0 + cmd_events(command), t1, true)
}

/// Pin-failure outcomes of the reset pulse: the low drive failed at once,
/// or the line was held low and the high drive failed.
pub open spec fn reset_pin_failure(t0: Seq<BusEvent>, t1: Seq<BusEvent>) -> bool {
    ||| t1 == t0
    ||| t1 == t0 + seq![BusEvent::Rst(false), BusEvent::Delay(RESET_HOLD_MS)]
}

/// A busy wait that died on a pin failure: some spin shorter than the
/// bound, then nothing.
pub open spec fn busy_pin_failure(t0: Seq<BusEvent>, t1: Seq<BusEvent>) -> bool {
    exists|polls: nat| polls < BUSY_MAX_POLLS && t1 == t0 + busy_spin_events(polls)
}

/// A busy wait that timed out: the full spin of asserted samples.
pub open spec fn busy_timeout_trace(t0: Seq<BusEvent>, t1: Seq<BusEvent>) -> bool {
    t1 == t0 + busy_spin_events(BUSY_MAX_POLLS as nat)
}

/// Pin-failure outcomes of programming the address counter: the X-counter
/// transfer failed, or it completed and the Y-counter transfer failed.
pub open spec fn address_counter_pin_failure(
    t0: Seq<BusEvent>,
    t1: Seq<BusEvent>,
    x: u8,
    y: u16,
) -> bool {
    ||| cmd_data_pin_failure(t0, t1, SET_RAM_X_ADDRESS_COUNTER, seq![x])
    ||| cmd_data_pin_failure(
        t0 + cmd_data_events(SET_RAM_X_ADDRESS_COUNTER, seq![x]),
        t1,
        SET_RAM_Y_ADDRESS_COUNTER,
        seq![lo_byte(y), hi_byte(y)],
    )
}

/// Bus-failure outcomes of programming the address counter.
pub open spec fn address_counter_bus_failure(
    t0: Seq<BusEvent>,
    t1: Seq<BusEvent>,
    x: u8,
    y: u16,
) -> bool {
    ||| cmd_data_bus_failure(t0, t1, SET_RAM_X_ADDRESS_COUNTER)
    ||| cmd_data_bus_failure(
        t0 + cmd_data_events(SET_RAM_X_ADDRESS_COUNTER, seq![x]),
        t1,
        SET_RAM_Y_ADDRESS_COUNTER,
    )
}

/// Pin-failure outcomes of a plane transfer: the address-counter reset
/// failed, or it completed and the RAM-write transfer failed.
pub open spec fn plane_write_pin_failure(
    t0: Seq<BusEvent>,
    t1: Seq<BusEvent>,
    command: u8,
    buffer: Seq<u8>,
) -> bool {
    ||| address_counter_pin_failure(t0, t1, 0, 0)
    ||| cmd_data_pin_failure(t0 + address_counter_events(0, 0), t1, command, buffer)
}

/// Bus-failure outcomes of a plane transfer.
pub open spec fn plane_write_bus_failure(
    t0: Seq<BusEvent>,
    t1: Seq<BusEvent>,
    command: u8,
) -> bool {
    ||| address_counter_bus_failure(t0, t1, 0, 0)
    ||| cmd_data_bus_failure(t0 + address_counter_events(0, 0), t1, command)
}

/// Pin-failure outcomes of the configuration tail: one of its seven
/// transfers failed after all earlier ones completed.
pub open spec fn init_config_pin_failure(t0: Seq<BusEvent>, t1: Seq<BusEvent>) -> bool {
    ||| cmd_data_pin_failure(t0, t1, DRIVER_OUTPUT_CONTROL, seq![0xD3u8, 0x00u8, 0x00u8])
    ||| cmd_data_pin_failure(
        t0 + cfg_output_control(),
        t1,
        DATA_ENTRY_MODE_SETTING,
        seq![0x03u8],
    )
    ||| cmd_data_pin_failure(
        t0 + cfg_output_control() + cfg_entry_mode(),
        t1,
        SET_RAM_X_ADDRESS_START_END_POSITION,
        seq![0x00u8, 0x0Cu8],
    )
    ||| cmd_data_pin_failure(
        t0 + cfg_output_control() + cfg_entry_mode() + cfg_ram_x_window(),
        t1,
        SET_RAM_Y_ADDRESS_START_END_POSITION,
        seq![0x00u8, 0x00u8, 0xD3u8, 0x00u8],
    )
    ||| cmd_data_pin_failure(
        t0 + cfg_output_control() + cfg_entry_mode() + cfg_ram_x_window() + cfg_ram_y_window(),
        t1,
        BORDER_WAVEFORM_CONTROL,
        seq![0x05u8],
    )
    ||| cmd_data_pin_failure(
        t0 + cfg_output_control() + cfg_entry_mode() + cfg_ram_x_window() + cfg_ram_y_window()
            + cfg_border_waveform(),
        t1,
        DISPLAY_UPDATE_CONTROL_1,
        seq![0x00u8, 0x80u8],
    )
    ||| cmd_data_pin_failure(
        t0 + cfg_output_control() + cfg_entry_mode() + cfg_ram_x_window() + cfg_ram_y_window()
            + cfg_border_waveform() + cfg_update_control_1(),
        t1,
        DISPLAY_UPDATE_CONTROL_2,
        seq![0xC7u8],
    )
}

/// Bus-failure outcomes of the configuration tail.
pub open spec fn init_config_bus_failure(t0: Seq<BusEvent>, t1: Seq<BusEvent>) -> bool {
    ||| cmd_data_bus_failure(t0, t1, DRIVER_OUTPUT_CONTROL)
    ||| cmd_data_bus_failure(t0 + cfg_output_control(), t1, DATA_ENTRY_MODE_SETTING)
    ||| cmd_data_bus_failure(
        t0 + cfg_output_control() + cfg_entry_mode(),
        t1,
        SET_RAM_X_ADDRESS_START_END_POSITION,
    )
    ||| cmd_data_bus_failure(
        t0 + cfg_output_control() + cfg_entry_mode() + cfg_ram_x_window(),
        t1,
        SET_RAM_Y_ADDRESS_START_END_POSITION,
    )
    ||| cmd_data_bus_failure(
        t0 + cfg_output_control() + cfg_entry_mode() + cfg_ram_x_window() + cfg_ram_y_window(),
        t1,
        BORDER_WAVEFORM_CONTROL,
    )
    ||| cmd_data_bus_failure(
        t0 + cfg_output_control() + cfg_entry_mode() + cfg_ram_x_window() + cfg_ram_y_window()
            + cfg_border_waveform(),
        t1,
        DISPLAY_UPDATE_CONTROL_1,
    )
    ||| cmd_data_bus_failure(
        t0 + cfg_output_control() + cfg_entry_mode() + cfg_ram_x_window() + cfg_ram_y_window()
            + cfg_border_waveform() + cfg_update_control_1(),
        t1,
        DISPLAY_UPDATE_CONTROL_2,
    )
}

/// Pin-failure outcomes of the whole initialization sequence: the call
/// stopped inside the fixed sequence, after the steps already completed.
pub open spec fn init_pin_failure(t0: Seq<BusEvent>, t1: Seq<BusEvent>) -> bool {
    ||| reset_pin_failure(t0, t1)
    ||| busy_pin_failure(t0 + reset_events(), t1)
    ||| exists|p1: nat|
        #![auto]
        p1 < BUSY_MAX_POLLS && frame_pin_failure(
            t0 + reset_events() + busy_wait_events(p1),
            t1,
            false,
            seq![SW_RESET],
        )
    ||| exists|p1: nat|
        #![auto]
        p1 < BUSY_MAX_POLLS && busy_pin_failure(
            t0 + reset_events() + busy_wait_events(p1) + cmd_events(SW_RESET),
            t1,
        )
    ||| exists|p1: nat, p2: nat|
        #![auto]
        p1 < BUSY_MAX_POLLS && p2 < BUSY_MAX_POLLS && init_config_pin_failure(
            t0 + reset_events() + busy_wait_events(p1) + cmd_events(SW_RESET)
                + busy_wait_events(p2),
            t1,
        )
}

/// Bus-failure outcomes of the whole initialization sequence.
pub open spec fn init_bus_failure(t0: Seq<BusEvent>, t1: Seq<BusEvent>) -> bool {
    ||| exists|p1: nat|
        #![auto]
        p1 < BUSY_MAX_POLLS && frame_bus_failure(
            t0 + reset_events() + busy_wait_events(p1),
            t1,
            false,
        )
    ||| exists|p1: nat, p2: nat|
        #![auto]
        p1 < BUSY_MAX_POLLS && p2 < BUSY_MAX_POLLS && init_config_bus_failure(
            t0 + reset_events() + busy_wait_events(p1) + cmd_events(SW_RESET)
                + busy_wait_events(p2),
            t1,
        )
}

/// Timeout outcomes of the initialization sequence: one of its two busy
/// waits genuinely spun for the full bound.
pub open spec fn init_timeout_failure(t0: Seq<BusEvent>, t1: Seq<BusEvent>) -> bool {
    ||| busy_timeout_trace(t0 + reset_events(), t1)
    ||| exists|p1: nat|
        #![auto]
        p1 < BUSY_MAX_POLLS && busy_timeout_trace(
            t0 + reset_events() + busy_wait_events(p1) + cmd_events(SW_RESET),
            t1,
        )
}

/// Command-framing law: for every command byte, the transfer drives the
/// data/command line low before chip select goes low, writes exactly the
/// one command byte on the bus while selected, and releases chip select as
/// its final event.
pub proof fn lemma_command_framing(command: u8)
    ensures
        cmd_events(command).len() == 4,
        cmd_events(command)[0] == BusEvent::Dc(false),
        cmd_events(command)[1] == BusEvent::Cs(false),
        cmd_events(command)[2] == BusEvent::Spi(seq![command]),
        seq![command].len() == 1,
        cmd_events(command)[3] == BusEvent::Cs(true),
{
}

/// Data-framing law: for every payload, the transfer drives the
/// data/command line high before chip select goes low, writes the whole
/// payload as one bus transaction while selected, and releases chip select
/// as its final event.
pub proof fn lemma_data_framing(payload: Seq<u8>)
    ensures
        data_events(payload).len() == 4,
        data_events(payload)[0] == BusEvent::Dc(true),
        data_events(payload)[1] == BusEvent::Cs(false),
        data_events(payload)[2] == BusEvent::Spi(payload),
        data_events(payload)[3] == BusEvent::Cs(true),
{
}

/// Busy-wait shape laws: a spin of `polls` samples is `2 * polls` events
/// long, and none of its samples reads deasserted.
pub proof fn lemma_busy_spin_shape(polls: nat)
    ensures
        busy_spin_events(polls).len() == 2 * polls,
        forall|i: int|
            0 <= i < 2 * polls ==> #[trigger] busy_spin_events(polls)[i] != BusEvent::Busy(false),
    decreases polls,
{
    if polls != 0 {
        lemma_busy_spin_shape((polls - 1) as nat);
    }
}

/// Busy-wait law: every complete wait samples the busy line at least once,
/// every sample before the last reads asserted, and the single deasserted
/// sample — the one the wait returns on — is its final event.
pub proof fn lemma_busy_wait_returns_on_first_clear(polls: nat)
    ensures
        busy_wait_events(polls).len() == 2 * polls + 1,
        busy_wait_events(polls).last() == BusEvent::Busy(false),
        forall|i: int|
            0 <= i < 2 * polls ==> #[trigger] busy_wait_events(polls)[i] != BusEvent::Busy(false),
{
    lemma_busy_spin_shape(polls);
    assert forall|i: int| 0 <= i < 2 * polls implies #[trigger] busy_wait_events(polls)[i]
        != BusEvent::Busy(false) by {
        assert(busy_wait_events(polls)[i] == busy_spin_events(polls)[i]);
    }
}

/// Plane-transfer law: every plane transfer starts with the X- and
/// Y-counter commands that reset the controller's write origin to (0, 0),
/// immediately followed by the plane's RAM-write command with its buffer.
pub proof fn lemma_plane_write_resets_origin(command: u8, buffer: Seq<u8>)
    ensures
        plane_write_events(command, buffer) == cmd_data_events(
            SET_RAM_X_ADDRESS_COUNTER,
            seq![0u8],
        ) + cmd_data_events(SET_RAM_Y_ADDRESS_COUNTER, seq![0u8, 0u8]) + cmd_data_events(
            command,
            buffer,
        ),
{
    assert(seq![lo_byte(0), hi_byte(0)] =~= seq![0u8, 0u8]);
    assert(plane_write_events(command, buffer) =~~= cmd_data_events(
        SET_RAM_X_ADDRESS_COUNTER,
        seq![0u8],
    ) + cmd_data_events(SET_RAM_Y_ADDRESS_COUNTER, seq![0u8, 0u8]) + cmd_data_events(
        command,
        buffer,
    ));
}

/// One more asserted busy sample appends one poll-and-sleep pair.
pub proof fn lemma_busy_spin_step(polls: nat)
    ensures
        busy_spin_events(polls + 1) == busy_spin_events(polls) + seq![
            BusEvent::Busy(true),
            BusEvent::Delay(BUSY_POLL_MS),
        ],
    decreases polls,
{
    let pair = seq![BusEvent::Busy(true), BusEvent::Delay(BUSY_POLL_MS)];
    if polls == 0 {
        assert(busy_spin_events(1) =~= busy_spin_events(0) + pair);
    } else {
        lemma_busy_spin_step((polls - 1) as nat);
        assert(busy_spin_events(polls + 1) =~= busy_spin_events(polls) + pair);
    }
}

} // verus!
