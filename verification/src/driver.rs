//! The display-controller driver: protocol channel, reset sequencer, busy
//! synchronizer, RAM address setter, initialization sequencer, framebuffer
//! writer and refresh trigger.

use vstd::prelude::*;

use crate::protocol::BusEvent;
use crate::protocol::PLANE_BYTES;
use crate::protocol::BUSY_POLL_MS;
use crate::protocol::BUSY_MAX_POLLS;
use crate::protocol::RESET_HOLD_MS;
use crate::protocol::SW_RESET;
use crate::protocol::DRIVER_OUTPUT_CONTROL;
use crate::protocol::DATA_ENTRY_MODE_SETTING;
use crate::protocol::SET_RAM_X_ADDRESS_START_END_POSITION;
use crate::protocol::SET_RAM_Y_ADDRESS_START_END_POSITION;
use crate::protocol::SET_RAM_X_ADDRESS_COUNTER;
use crate::protocol::SET_RAM_Y_ADDRESS_COUNTER;
use crate::protocol::BORDER_WAVEFORM_CONTROL;
use crate::protocol::DISPLAY_UPDATE_CONTROL_1;
use crate::protocol::DISPLAY_UPDATE_CONTROL_2;
use crate::protocol::WRITE_RAM_BW;
use crate::protocol::WRITE_RAM_RED;
use crate::protocol::MASTER_ACTIVATION;
use crate::protocol::cmd_events;
use crate::protocol::data_events;
use crate::protocol::cmd_data_events;
use crate::protocol::reset_events;
use crate::protocol::busy_spin_events;
use crate::protocol::busy_wait_events;
use crate::protocol::address_counter_events;
use crate::protocol::cfg_output_control;
use crate::protocol::cfg_entry_mode;
use crate::protocol::cfg_ram_x_window;
use crate::protocol::cfg_ram_y_window;
use crate::protocol::cfg_border_waveform;
use crate::protocol::cfg_update_control_1;
use crate::protocol::cfg_update_control_2;
use crate::protocol::init_config_events;
use crate::protocol::init_events;
use crate::protocol::plane_write_events;
use crate::protocol::lo_byte;
use crate::protocol::hi_byte;
use crate::protocol::frame_pin_failure;
use crate::protocol::frame_bus_failure;
use crate::protocol::cmd_data_pin_failure;
use crate::protocol::cmd_data_bus_failure;
use crate::protocol::reset_pin_failure;
use crate::protocol::busy_pin_failure;
use crate::protocol::busy_timeout_trace;
use crate::protocol::address_counter_pin_failure;
use crate::protocol::address_counter_bus_failure;
use crate::protocol::plane_write_pin_failure;
use crate::protocol::plane_write_bus_failure;
use crate::protocol::init_config_pin_failure;
use crate::protocol::init_config_bus_failure;
use crate::protocol::init_pin_failure;
use crate::protocol::init_bus_failure;
use crate::protocol::init_timeout_failure;

verus! {

/// Failure of a driver operation.
#[derive(Debug)]
pub enum InkyError<SPIE, GPIOE> {
    /// A serial-bus write failed, with the bus transport's failure value.
    Spi(SPIE),
    /// A digital-pin operation failed, with the pin transport's failure value.
    Gpio(GPIOE),
    /// A plane buffer did not hold exactly `PLANE_BYTES` bytes.
    BufferLength,
    /// The busy line stayed asserted for `BUSY_MAX_POLLS` samples.
    BusyTimeout,
}

/// The capability set the driver is generic over: one serial-bus write
/// capability, the three output lines, the busy input line, and a
/// millisecond delay source.
///
/// The specification view is the ordered trace of operations performed so
/// far; each method appends exactly its own event on success and nothing on
/// failure. An implementation adapts real hardware (where the trace is
/// ghost) or records the operations as a test double.
pub trait Interface: Sized {
    /// Failure type of the serial bus.
    type SpiError;

    /// Failure type of the digital pins.
    type GpioError;

    /// The ordered trace of operations performed so far. The default is the
    /// empty trace, so an adapter for real hardware, written outside the
    /// verifier's view, may leave the view unstated; a verified
    /// implementation gives its own.
    open spec fn trace(&self) -> Seq<BusEvent> {
        Seq::empty()
    }

    /// Drive the data/command-select line to the given level
    /// (low = command, high = data).
    fn set_dc(&mut self, high: bool) -> (r: Result<(), Self::GpioError>)
        ensures
            r is Ok ==> final(self).trace() == old(self).trace().push(BusEvent::Dc(high)),
            r is Err ==> final(self).trace() == old(self).trace(),
    ;

    /// Drive the chip-select line to the given level (low = selected).
    fn set_cs(&mut self, high: bool) -> (r: Result<(), Self::GpioError>)
        ensures
            r is Ok ==> final(self).trace() == old(self).trace().push(BusEvent::Cs(high)),
            r is Err ==> final(self).trace() == old(self).trace(),
    ;

    /// Drive the reset line to the given level (low = in reset).
    fn set_reset(&mut self, high: bool) -> (r: Result<(), Self::GpioError>)
        ensures
            r is Ok ==> final(self).trace() == old(self).trace().push(BusEvent::Rst(high)),
            r is Err ==> final(self).trace() == old(self).trace(),
    ;

    /// Sample the busy-status line (high = busy).
    fn read_busy(&mut self) -> (r: Result<bool, Self::GpioError>)
        ensures
            r matches Ok(level) ==> final(self).trace() == old(self).trace().push(
                BusEvent::Busy(level),
            ),
            r is Err ==> final(self).trace() == old(self).trace(),
    ;

    /// Write the given bytes to the serial bus as one transaction.
    fn spi_write(&mut self, data: &[u8]) -> (r: Result<(), Self::SpiError>)
        ensures
            r is Ok ==> final(self).trace() == old(self).trace().push(BusEvent::Spi(data@)),
            r is Err ==> final(self).trace() == old(self).trace(),
    ;

    /// Block for the given number of milliseconds.
    fn delay_ms(&mut self, ms: u8)
        ensures
            final(self).trace() == old(self).trace().push(BusEvent::Delay(ms)),
    ;
}

/// The driver. It exclusively owns the hardware interface for its whole
/// lifetime; no other component may issue bus or pin operations while it
/// lives.
pub struct InkyPhat<IF> {
    iface: IF,
}

impl<IF: Interface> InkyPhat<IF> {
    /// The ordered trace of operations the driver has performed on its
    /// interface.
    pub closed spec fn trace(&self) -> Seq<BusEvent> {
        self.iface.trace()
    }

    /// Take exclusive ownership of the hardware interface.
    pub fn new(iface: IF) -> (driver: Self)
        ensures
            driver.trace() == iface.trace(),
    {
        InkyPhat { iface }
    }

    /// Give the interface back to the caller, ending the session.
    pub fn release(self) -> (iface: IF)
        ensures
            iface.trace() == self.trace(),
    {
        self.iface
    }

    /// Borrow the owned interface, for observation.
    pub fn interface(&self) -> (iface: &IF)
        ensures
            iface.trace() == self.trace(),
    {
        &self.iface
    }

    /// Send one command byte: command mode on the data/command line, chip
    /// select asserted, exactly the one opcode byte on the bus, chip select
    /// released. A failed bus write still releases chip select before the
    /// failure surfaces, unless that release fails in turn.
    pub fn send_command(&mut self, command: u8) -> (r: Result<
        (),
        InkyError<IF::SpiError, IF::GpioError>,
    >)
        ensures
            r is Ok ==> final(self).trace() == old(self).trace() + cmd_events(command),
            r matches Err(e) ==> (e is Spi || e is Gpio),
            (r matches Err(e) && e is Gpio) ==> frame_pin_failure(
                old(self).trace(),
                final(self).trace(),
                false,
                seq![command],
            ),
            (r matches Err(e) && e is Spi) ==> frame_bus_failure(
                old(self).trace(),
                final(self).trace(),
                false,
            ),
    {
        let ghost t0 = self.trace();
        match self.iface.set_dc(false) {
            Ok(()) => {}
            Err(e) => {
                return Err(InkyError::Gpio(e));
            }
        }
        match self.iface.set_cs(false) {
            Ok(()) => {}
            Err(e) => {
                proof {
                    assert(self.trace() =~= t0 + seq![BusEvent::Dc(false)]);
                }
                return Err(InkyError::Gpio(e));
            }
        }
        let mut buf: Vec<u8> = Vec::new();
        buf.push(command);
        match self.iface.spi_write(buf.as_slice()) {
            Ok(()) => {}
            Err(e) => {
                // Release chip select before surfacing the bus failure; if
                // the release fails too, the line stays asserted.
                match self.iface.set_cs(true) {
                    Ok(()) => {
                        proof {
                            assert(self.trace() =~= t0 + seq![
                                BusEvent::Dc(false),
                                BusEvent::Cs(false),
                                BusEvent::Cs(true),
                            ]);
                        }
                    }
                    Err(_) => {
                        proof {
                            assert(self.trace() =~= t0 + seq![
                                BusEvent::Dc(false),
                                BusEvent::Cs(false),
                            ]);
                        }
                    }
                }
                return Err(InkyError::Spi(e));
            }
        }
        match self.iface.set_cs(true) {
            Ok(()) => {}
            Err(e) => {
                proof {
                    assert(self.trace() =~= t0 + seq![
                        BusEvent::Dc(false),
                        BusEvent::Cs(false),
                        BusEvent::Spi(seq![command]),
                    ]);
                }
                return Err(InkyError::Gpio(e));
            }
        }
        proof {
            assert(self.trace() =~= t0 + cmd_events(command));
        }
        Ok(())
    }

    /// Send a payload: data mode on the data/command line, chip select
    /// asserted, the whole payload as one bus transaction, chip select
    /// released. A failed bus write still releases chip select before the
    /// failure surfaces, unless that release fails in turn.
    pub fn send_data(&mut self, data: &[u8]) -> (r: Result<
        (),
        InkyError<IF::SpiError, IF::GpioError>,
    >)
        ensures
            r is Ok ==> final(self).trace() == old(self).trace() + data_events(data@),
            r matches Err(e) ==> (e is Spi || e is Gpio),
            (r matches Err(e) && e is Gpio) ==> frame_pin_failure(
                old(self).trace(),
                final(self).trace(),
                true,
                data@,
            ),
            (r matches Err(e) && e is Spi) ==> frame_bus_failure(
                old(self).trace(),
                final(self).trace(),
                true,
            ),
    {
        let ghost t0 = self.trace();
        match self.iface.set_dc(true) {
            Ok(()) => {}
            Err(e) => {
                return Err(InkyError::Gpio(e));
            }
        }
        match self.iface.set_cs(false) {
            Ok(()) => {}
            Err(e) => {
                proof {
                    assert(self.trace() =~= t0 + seq![BusEvent::Dc(true)]);
                }
                return Err(InkyError::Gpio(e));
            }
        }
        match self.iface.spi_write(data) {
            Ok(()) => {}
            Err(e) => {
                // Release chip select before surfacing the bus failure; if
                // the release fails too, the line stays asserted.
                match self.iface.set_cs(true) {
                    Ok(()) => {
                        proof {
                            assert(self.trace() =~= t0 + seq![
                                BusEvent::Dc(true),
                                BusEvent::Cs(false),
                                BusEvent::Cs(true),
                            ]);
                        }
                    }
                    Err(_) => {
                        proof {
                            assert(self.trace() =~= t0 + seq![
                                BusEvent::Dc(true),
                                BusEvent::Cs(false),
                            ]);
                        }
                    }
                }
                return Err(InkyError::Spi(e));
            }
        }
        match self.iface.set_cs(true) {
            Ok(()) => {}
            Err(e) => {
                proof {
                    assert(self.trace() =~= t0 + seq![
                        BusEvent::Dc(true),
                        BusEvent::Cs(false),
                        BusEvent::Spi(data@),
                    ]);
                }
                return Err(InkyError::Gpio(e));
            }
        }
        proof {
            assert(self.trace() =~= t0 + data_events(data@));
        }
        Ok(())
    }

    /// Send a command, then its payload if one is present.
    pub fn send_command_data(&mut self, command: u8, data: Option<&[u8]>) -> (r: Result<
        (),
        InkyError<IF::SpiError, IF::GpioError>,
    >)
        ensures
            r is Ok ==> final(self).trace() == old(self).trace() + (match data {
                Some(d) => cmd_data_events(command, d@),
                None => cmd_events(command),
            }),
            r matches Err(e) ==> (e is Spi || e is Gpio),
            (r matches Err(e) && e is Gpio) ==> (match data {
                Some(d) => cmd_data_pin_failure(
                    old(self).trace(),
                    final(self).trace(),
                    command,
                    d@,
                ),
                None => frame_pin_failure(
                    old(self).trace(),
                    final(self).trace(),
                    false,
                    seq![command],
                ),
            }),
            (r matches Err(e) && e is Spi) ==> (match data {
                Some(d) => cmd_data_bus_failure(old(self).trace(), final(self).trace(), command),
                None => frame_bus_failure(old(self).trace(), final(self).trace(), false),
            }),
    {
        let ghost t0 = self.trace();
        match self.send_command(command) {
            Ok(()) => {}
            Err(e) => {
                return Err(e);
            }
        }
        if let Some(d) = data {
            match self.send_data(d) {
                Ok(()) => {}
                Err(e) => {
                    return Err(e);
                }
            }
            proof {
                assert(self.trace() =~= t0 + cmd_data_events(command, d@));
            }
        }
        Ok(())
    }

    /// Drive the hardware reset line through its timed low/high pulse: reset
    /// low, hold, reset high, hold. This is the only mechanism that returns
    /// the controller to a known power-up state.
    pub fn reset(&mut self) -> (r: Result<(), InkyError<IF::SpiError, IF::GpioError>>)
        ensures
            r is Ok ==> final(self).trace() == old(self).trace() + reset_events(),
            r matches Err(e) ==> e is Gpio,
            r is Err ==> reset_pin_failure(old(self).trace(), final(self).trace()),
    {
        let ghost t0 = self.trace();
        match self.iface.set_reset(false) {
            Ok(()) => {}
            Err(e) => {
                return Err(InkyError::Gpio(e));
            }
        }
        self.iface.delay_ms(RESET_HOLD_MS);
        match self.iface.set_reset(true) {
            Ok(()) => {}
            Err(e) => {
                proof {
                    assert(self.trace() =~= t0 + seq![
                        BusEvent::Rst(false),
                        BusEvent::Delay(RESET_HOLD_MS),
                    ]);
                }
                return Err(InkyError::Gpio(e));
            }
        }
        self.iface.delay_ms(RESET_HOLD_MS);
        proof {
            assert(self.trace() =~= t0 + reset_events());
        }
        Ok(())
    }

    /// Block until the busy-status line deasserts: sample it, and while it
    /// reads asserted, sleep one poll interval and sample again. Returns on
    /// the first deasserted sample. The wait is bounded: after
    /// `BUSY_MAX_POLLS` asserted samples it gives up with a timeout failure
    /// instead of blocking forever.
    pub fn busy_wait(&mut self) -> (r: Result<(), InkyError<IF::SpiError, IF::GpioError>>)
        ensures
            r is Ok ==> exists|polls: nat|
                polls < BUSY_MAX_POLLS && final(self).trace() == old(self).trace()
                    + busy_wait_events(polls),
            r matches Err(e) ==> (e is Gpio || e is BusyTimeout),
            (r matches Err(e) && e is BusyTimeout) ==> busy_timeout_trace(
                old(self).trace(),
                final(self).trace(),
            ),
            (r matches Err(e) && e is Gpio) ==> busy_pin_failure(
                old(self).trace(),
                final(self).trace(),
            ),
    {
        let ghost t0 = self.trace();
        let mut attempt: usize = 0;
        while attempt < BUSY_MAX_POLLS
            invariant
                attempt <= BUSY_MAX_POLLS,
                t0 == old(self).trace(),
                self.trace() == t0 + busy_spin_events(attempt as nat),
            decreases BUSY_MAX_POLLS - attempt,
        {
            let busy = match self.iface.read_busy() {
                Ok(level) => level,
                Err(e) => {
                    proof {
                        assert(self.trace() == t0 + busy_spin_events(attempt as nat));
                    }
                    return Err(InkyError::Gpio(e));
                }
            };
            if !busy {
                proof {
                    assert(self.trace() =~= t0 + busy_wait_events(attempt as nat));
                }
                return Ok(());
            }
            self.iface.delay_ms(BUSY_POLL_MS);
            proof {
                crate::protocol::lemma_busy_spin_step(attempt as nat);
            }
            attempt = attempt + 1;
        }
        proof {
            assert(self.trace() == t0 + busy_spin_events(BUSY_MAX_POLLS as nat));
        }
        Err(InkyError::BusyTimeout)
    }

    /// Program the controller's RAM address counter: the X-counter command
    /// with its one-byte payload, then the Y-counter command with the
    /// little-endian two-byte payload.
    pub fn set_ram_address_counter(&mut self, x: u8, y: u16) -> (r: Result<
        (),
        InkyError<IF::SpiError, IF::GpioError>,
    >)
        ensures
            r is Ok ==> final(self).trace() == old(self).trace() + address_counter_events(x, y),
            r matches Err(e) ==> (e is Spi || e is Gpio),
            (r matches Err(e) && e is Gpio) ==> address_counter_pin_failure(
                old(self).trace(),
                final(self).trace(),
                x,
                y,
            ),
            (r matches Err(e) && e is Spi) ==> address_counter_bus_failure(
                old(self).trace(),
                final(self).trace(),
                x,
                y,
            ),
    {
        let ghost t0 = self.trace();
        let mut payload_x: Vec<u8> = Vec::new();
        payload_x.push(x);
        proof {
            assert(payload_x@ =~= seq![x]);
        }
        match self.send_command_data(SET_RAM_X_ADDRESS_COUNTER, Some(payload_x.as_slice())) {
            Ok(()) => {}
            Err(e) => {
                return Err(e);
            }
        }
        let lo: u8 = (y % 256) as u8;
        let hi: u8 = (y / 256) as u8;
        let mut payload_y: Vec<u8> = Vec::new();
        payload_y.push(lo);
        payload_y.push(hi);
        proof {
            assert(payload_y@ =~= seq![lo_byte(y), hi_byte(y)]);
        }
        match self.send_command_data(SET_RAM_Y_ADDRESS_COUNTER, Some(payload_y.as_slice())) {
            Ok(()) => {}
            Err(e) => {
                return Err(e);
            }
        }
        proof {
            assert(self.trace() =~= t0 + address_counter_events(x, y));
        }
        Ok(())
    }

    /// Run the fixed power-up sequence, in strict order: reset pulse, busy
    /// wait, software reset, busy wait, then the configuration commands with
    /// the byte-exact payloads for the 104x212 panel. On failure the call
    /// stops inside the fixed sequence — nothing later is emitted — and the
    /// controller is left partially configured; the caller must start over
    /// with a fresh `reset` and `init`.
    pub fn init(&mut self) -> (r: Result<(), InkyError<IF::SpiError, IF::GpioError>>)
        ensures
            r is Ok ==> exists|polls_reset: nat, polls_sw: nat|
                final(self).trace() == old(self).trace() + init_events(polls_reset, polls_sw),
            r matches Err(e) ==> (e is Spi || e is Gpio || e is BusyTimeout),
            (r matches Err(e) && e is Gpio) ==> init_pin_failure(
                old(self).trace(),
                final(self).trace(),
            ),
            (r matches Err(e) && e is Spi) ==> init_bus_failure(
                old(self).trace(),
                final(self).trace(),
            ),
            (r matches Err(e) && e is BusyTimeout) ==> init_timeout_failure(
                old(self).trace(),
                final(self).trace(),
            ),
    {
        let ghost t0 = self.trace();
        let ghost mut acc: Seq<BusEvent> = Seq::empty();
        match self.reset() {
            Ok(()) => {}
            Err(e) => {
                return Err(e);
            }
        }
        proof {
            acc = reset_events();
            assert(self.trace() == t0 + acc);
        }
        let ghost tb1 = self.trace();
        match self.busy_wait() {
            Ok(()) => {}
            Err(e) => {
                proof {
                    if e is Gpio {
                        assert(init_pin_failure(t0, self.trace()));
                    }
                    if e is BusyTimeout {
                        assert(init_timeout_failure(t0, self.trace()));
                    }
                }
                return Err(e);
            }
        }
        let ghost polls_reset = choose|polls: nat|
            polls < BUSY_MAX_POLLS && self.trace() == tb1 + busy_wait_events(polls);
        proof {
            assert(polls_reset < BUSY_MAX_POLLS && self.trace() == tb1 + busy_wait_events(
                polls_reset,
            ));
            assert(self.trace() =~= t0 + (acc + busy_wait_events(polls_reset)));
            acc = acc + busy_wait_events(polls_reset);
            assert(t0 + acc =~= t0 + reset_events() + busy_wait_events(polls_reset));
        }
        match self.send_command(SW_RESET) {
            Ok(()) => {}
            Err(e) => {
                proof {
                    if e is Gpio {
                        assert(init_pin_failure(t0, self.trace()));
                    }
                    if e is Spi {
                        assert(init_bus_failure(t0, self.trace()));
                    }
                }
                return Err(e);
            }
        }
        proof {
            assert(self.trace() =~= t0 + (acc + cmd_events(SW_RESET)));
            acc = acc + cmd_events(SW_RESET);
            assert(t0 + acc =~= t0 + reset_events() + busy_wait_events(polls_reset) + cmd_events(
                SW_RESET,
            ));
        }
        let ghost tb2 = self.trace();
        match self.busy_wait() {
            Ok(()) => {}
            Err(e) => {
                proof {
                    if e is Gpio {
                        assert(init_pin_failure(t0, self.trace()));
                    }
                    if e is BusyTimeout {
                        assert(init_timeout_failure(t0, self.trace()));
                    }
                }
                return Err(e);
            }
        }
        let ghost polls_sw = choose|polls: nat|
            polls < BUSY_MAX_POLLS && self.trace() == tb2 + busy_wait_events(polls);
        let ghost cfg_base = t0 + reset_events() + busy_wait_events(polls_reset) + cmd_events(
            SW_RESET,
        ) + busy_wait_events(polls_sw);
        proof {
            assert(polls_sw < BUSY_MAX_POLLS && self.trace() == tb2 + busy_wait_events(polls_sw));
            assert(self.trace() =~= t0 + (acc + busy_wait_events(polls_sw)));
            acc = acc + busy_wait_events(polls_sw);
            assert(t0 + acc =~= cfg_base);
        }

        // Gate count 212 (0xD3 little-endian) and scan order.
        let mut payload: Vec<u8> = Vec::new();
        payload.push(0xD3);
        payload.push(0x00);
        payload.push(0x00);
        proof {
            assert(payload@ =~= seq![0xD3u8, 0x00u8, 0x00u8]);
        }
        match self.send_command_data(DRIVER_OUTPUT_CONTROL, Some(payload.as_slice())) {
            Ok(()) => {}
            Err(e) => {
                proof {
                    if e is Gpio {
                        assert(init_config_pin_failure(cfg_base, self.trace()));
                        assert(init_pin_failure(t0, self.trace()));
                    }
                    if e is Spi {
                        assert(init_config_bus_failure(cfg_base, self.trace()));
                        assert(init_bus_failure(t0, self.trace()));
                    }
                }
                return Err(e);
            }
        }
        proof {
            assert(self.trace() =~= t0 + (acc + cfg_output_control()));
            acc = acc + cfg_output_control();
            assert(t0 + acc =~= cfg_base + cfg_output_control());
        }

        // Data entry mode: X increment, then Y increment.
        let mut payload: Vec<u8> = Vec::new();
        payload.push(0x03);
        proof {
            assert(payload@ =~= seq![0x03u8]);
        }
        match self.send_command_data(DATA_ENTRY_MODE_SETTING, Some(payload.as_slice())) {
            Ok(()) => {}
            Err(e) => {
                proof {
                    if e is Gpio {
                        assert(init_config_pin_failure(cfg_base, self.trace()));
                        assert(init_pin_failure(t0, self.trace()));
                    }
                    if e is Spi {
                        assert(init_config_bus_failure(cfg_base, self.trace()));
                        assert(init_bus_failure(t0, self.trace()));
                    }
                }
                return Err(e);
            }
        }
        proof {
            assert(self.trace() =~= t0 + (acc + cfg_entry_mode()));
            acc = acc + cfg_entry_mode();
            assert(t0 + acc =~= cfg_base + cfg_output_control() + cfg_entry_mode());
        }

        // RAM X window: byte columns 0 through 12 for 104 pixels.
        let mut payload: Vec<u8> = Vec::new();
        payload.push(0x00);
        payload.push(0x0C);
        proof {
            assert(payload@ =~= seq![0x00u8, 0x0Cu8]);
        }
        match self.send_command_data(SET_RAM_X_ADDRESS_START_END_POSITION, Some(
            payload.as_slice(),
        )) {
            Ok(()) => {}
            Err(e) => {
                proof {
                    if e is Gpio {
                        assert(init_config_pin_failure(cfg_base, self.trace()));
                        assert(init_pin_failure(t0, self.trace()));
                    }
                    if e is Spi {
                        assert(init_config_bus_failure(cfg_base, self.trace()));
                        assert(init_bus_failure(t0, self.trace()));
                    }
                }
                return Err(e);
            }
        }
        proof {
            assert(self.trace() =~= t0 + (acc + cfg_ram_x_window()));
            acc = acc + cfg_ram_x_window();
            assert(t0 + acc =~= cfg_base + cfg_output_control() + cfg_entry_mode()
                + cfg_ram_x_window());
        }

        // RAM Y window: rows 0 through 211 (0xD3 little-endian).
        let mut payload: Vec<u8> = Vec::new();
        payload.push(0x00);
        payload.push(0x00);
        payload.push(0xD3);
        payload.push(0x00);
        proof {
            assert(payload@ =~= seq![0x00u8, 0x00u8, 0xD3u8, 0x00u8]);
        }
        match self.send_command_data(SET_RAM_Y_ADDRESS_START_END_POSITION, Some(
            payload.as_slice(),
        )) {
            Ok(()) => {}
            Err(e) => {
                proof {
                    if e is Gpio {
                        assert(init_config_pin_failure(cfg_base, self.trace()));
                        assert(init_pin_failure(t0, self.trace()));
                    }
                    if e is Spi {
                        assert(init_config_bus_failure(cfg_base, self.trace()));
                        assert(init_bus_failure(t0, self.trace()));
                    }
                }
                return Err(e);
            }
        }
        proof {
            assert(self.trace() =~= t0 + (acc + cfg_ram_y_window()));
            acc = acc + cfg_ram_y_window();
            assert(t0 + acc =~= cfg_base + cfg_output_control() + cfg_entry_mode()
                + cfg_ram_x_window() + cfg_ram_y_window());
        }

        // Border waveform: colour of the very edge of the panel.
        let mut payload: Vec<u8> = Vec::new();
        payload.push(0x05);
        proof {
            assert(payload@ =~= seq![0x05u8]);
        }
        match self.send_command_data(BORDER_WAVEFORM_CONTROL, Some(payload.as_slice())) {
            Ok(()) => {}
            Err(e) => {
                proof {
                    if e is Gpio {
                        assert(init_config_pin_failure(cfg_base, self.trace()));
                        assert(init_pin_failure(t0, self.trace()));
                    }
                    if e is Spi {
                        assert(init_config_bus_failure(cfg_base, self.trace()));
                        assert(init_bus_failure(t0, self.trace()));
                    }
                }
                return Err(e);
            }
        }
        proof {
            assert(self.trace() =~= t0 + (acc + cfg_border_waveform()));
            acc = acc + cfg_border_waveform();
            assert(t0 + acc =~= cfg_base + cfg_output_control() + cfg_entry_mode()
                + cfg_ram_x_window() + cfg_ram_y_window() + cfg_border_waveform());
        }

        // Display update control 1.
        let mut payload: Vec<u8> = Vec::new();
        payload.push(0x00);
        payload.push(0x80);
        proof {
            assert(payload@ =~= seq![0x00u8, 0x80u8]);
        }
        match self.send_command_data(DISPLAY_UPDATE_CONTROL_1, Some(payload.as_slice())) {
            Ok(()) => {}
            Err(e) => {
                proof {
                    if e is Gpio {
                        assert(init_config_pin_failure(cfg_base, self.trace()));
                        assert(init_pin_failure(t0, self.trace()));
                    }
                    if e is Spi {
                        assert(init_config_bus_failure(cfg_base, self.trace()));
                        assert(init_bus_failure(t0, self.trace()));
                    }
                }
                return Err(e);
            }
        }
        proof {
            assert(self.trace() =~= t0 + (acc + cfg_update_control_1()));
            acc = acc + cfg_update_control_1();
            assert(t0 + acc =~= cfg_base + cfg_output_control() + cfg_entry_mode()
                + cfg_ram_x_window() + cfg_ram_y_window() + cfg_border_waveform()
                + cfg_update_control_1());
        }

        // Display update control 2.
        let mut payload: Vec<u8> = Vec::new();
        payload.push(0xC7);
        proof {
            assert(payload@ =~= seq![0xC7u8]);
        }
        match self.send_command_data(DISPLAY_UPDATE_CONTROL_2, Some(payload.as_slice())) {
            Ok(()) => {}
            Err(e) => {
                proof {
                    if e is Gpio {
                        assert(init_config_pin_failure(cfg_base, self.trace()));
                        assert(init_pin_failure(t0, self.trace()));
                    }
                    if e is Spi {
                        assert(init_config_bus_failure(cfg_base, self.trace()));
                        assert(init_bus_failure(t0, self.trace()));
                    }
                }
                return Err(e);
            }
        }
        proof {
            assert(self.trace() =~= t0 + (acc + cfg_update_control_2()));
            acc = acc + cfg_update_control_2();
            assert(acc =~= (reset_events() + busy_wait_events(polls_reset) + cmd_events(SW_RESET)
                + busy_wait_events(polls_sw)) + init_config_events());
            assert(self.trace() == t0 + init_events(polls_reset, polls_sw));
        }
        Ok(())
    }

    /// Transfer one plane: reset the RAM address counter to (0, 0), then
    /// send the plane's RAM-write command with the full buffer. A buffer
    /// that does not hold exactly `PLANE_BYTES` bytes is rejected before
    /// anything touches the hardware.
    fn update_plane(&mut self, command: u8, buffer: &[u8]) -> (r: Result<
        (),
        InkyError<IF::SpiError, IF::GpioError>,
    >)
        ensures
            buffer@.len() == PLANE_BYTES && r is Ok ==> final(self).trace() == old(self).trace()
                + plane_write_events(command, buffer@),
            buffer@.len() != PLANE_BYTES ==> (r matches Err(e) && e is BufferLength)
                && final(self).trace() == old(self).trace(),
            r matches Err(e) ==> ((e is BufferLength <==> buffer@.len() != PLANE_BYTES)
                && !(e is BusyTimeout)),
            (r matches Err(e) && e is Gpio) ==> plane_write_pin_failure(
                old(self).trace(),
                final(self).trace(),
                command,
                buffer@,
            ),
            (r matches Err(e) && e is Spi) ==> plane_write_bus_failure(
                old(self).trace(),
                final(self).trace(),
                command,
            ),
    {
        if buffer.len() != PLANE_BYTES {
            return Err(InkyError::BufferLength);
        }
        let ghost t0 = self.trace();
        match self.set_ram_address_counter(0, 0) {
            Ok(()) => {}
            Err(e) => {
                return Err(e);
            }
        }
        match self.send_command_data(command, Some(buffer)) {
            Ok(()) => {}
            Err(e) => {
                return Err(e);
            }
        }
        proof {
            assert(self.trace() =~= t0 + plane_write_events(command, buffer@));
        }
        Ok(())
    }

    /// Stage the black/white plane: address counter to (0, 0), then the
    /// black/white RAM-write command with the full buffer. No redraw is
    /// triggered; that is deferred to `display_refresh`.
    pub fn update_bw(&mut self, buffer: &[u8]) -> (r: Result<
        (),
        InkyError<IF::SpiError, IF::GpioError>,
    >)
        ensures
            buffer@.len() == PLANE_BYTES && r is Ok ==> final(self).trace() == old(self).trace()
                + plane_write_events(WRITE_RAM_BW, buffer@),
            buffer@.len() != PLANE_BYTES ==> (r matches Err(e) && e is BufferLength)
                && final(self).trace() == old(self).trace(),
            r matches Err(e) ==> ((e is BufferLength <==> buffer@.len() != PLANE_BYTES)
                && !(e is BusyTimeout)),
            (r matches Err(e) && e is Gpio) ==> plane_write_pin_failure(
                old(self).trace(),
                final(self).trace(),
                WRITE_RAM_BW,
                buffer@,
            ),
            (r matches Err(e) && e is Spi) ==> plane_write_bus_failure(
                old(self).trace(),
                final(self).trace(),
                WRITE_RAM_BW,
            ),
    {
        self.update_plane(WRITE_RAM_BW, buffer)
    }

    /// Stage the red plane: address counter to (0, 0), then the red
    /// RAM-write command with the full buffer. No redraw is triggered; that
    /// is deferred to `display_refresh`.
    pub fn update_red(&mut self, buffer: &[u8]) -> (r: Result<
        (),
        InkyError<IF::SpiError, IF::GpioError>,
    >)
        ensures
            buffer@.len() == PLANE_BYTES && r is Ok ==> final(self).trace() == old(self).trace()
                + plane_write_events(WRITE_RAM_RED, buffer@),
            buffer@.len() != PLANE_BYTES ==> (r matches Err(e) && e is BufferLength)
                && final(self).trace() == old(self).trace(),
            r matches Err(e) ==> ((e is BufferLength <==> buffer@.len() != PLANE_BYTES)
                && !(e is BusyTimeout)),
            (r matches Err(e) && e is Gpio) ==> plane_write_pin_failure(
                old(self).trace(),
                final(self).trace(),
                WRITE_RAM_RED,
                buffer@,
            ),
            (r matches Err(e) && e is Spi) ==> plane_write_bus_failure(
                old(self).trace(),
                final(self).trace(),
                WRITE_RAM_RED,
            ),
    {
        self.update_plane(WRITE_RAM_RED, buffer)
    }

    /// Trigger the physical redraw: the master-activation command, then a
    /// busy wait for the refresh to complete. Blocking and slow; its
    /// duration is set by the panel's refresh physics.
    pub fn display_refresh(&mut self) -> (r: Result<
        (),
        InkyError<IF::SpiError, IF::GpioError>,
    >)
        ensures
            r is Ok ==> exists|polls: nat|
                polls < BUSY_MAX_POLLS && final(self).trace() == old(self).trace() + (cmd_events(
                    MASTER_ACTIVATION,
                ) + busy_wait_events(polls)),
            r matches Err(e) ==> (e is Spi || e is Gpio || e is BusyTimeout),
            (r matches Err(e) && e is Spi) ==> frame_bus_failure(
                old(self).trace(),
                final(self).trace(),
                false,
            ),
            (r matches Err(e) && e is Gpio) ==> (frame_pin_failure(
                old(self).trace(),
                final(self).trace(),
                false,
                seq![MASTER_ACTIVATION],
            ) || busy_pin_failure(
                old(self).trace() + cmd_events(MASTER_ACTIVATION),
                final(self).trace(),
            )),
            (r matches Err(e) && e is BusyTimeout) ==> busy_timeout_trace(
                old(self).trace() + cmd_events(MASTER_ACTIVATION),
                final(self).trace(),
            ),
    {
        let ghost t0 = self.trace();
        match self.send_command(MASTER_ACTIVATION) {
            Ok(()) => {}
            Err(e) => {
                return Err(e);
            }
        }
        let ghost tb = self.trace();
        match self.busy_wait() {
            Ok(()) => {}
            Err(e) => {
                return Err(e);
            }
        }
        proof {
            let polls = choose|polls: nat|
                polls < BUSY_MAX_POLLS && self.trace() == tb + busy_wait_events(polls);
            assert(self.trace() =~= t0 + (cmd_events(MASTER_ACTIVATION) + busy_wait_events(
                polls,
            )));
        }
        Ok(())
    }
}

} // verus!
