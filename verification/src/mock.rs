//! A recording test double for the hardware interface.
//!
//! It performs no hardware operation: each operation is recorded instead,
//! and the busy line replays a scripted sequence of samples. Its trace is
//! exactly the recorded operations, so a test can drive the real driver
//! logic and then compare the record against the trace the driver's
//! contracts promise. Beyond the interface contract, its methods promise
//! success while fault injection is off, and tie each busy sample to the
//! front of the remaining script.

use vstd::prelude::*;

use crate::driver::Interface;
use crate::protocol::BusEvent;
use crate::protocol::BusOp;
use crate::protocol::ops_trace;

verus! {

/// Recording one more operation appends its event to the denoted trace.
proof fn lemma_ops_trace_push(ops: Seq<BusOp>, op: BusOp)
    ensures
        ops_trace(ops.push(op)) == ops_trace(ops).push(op@),
{
    assert(ops_trace(ops.push(op)) =~= ops_trace(ops).push(op@));
}

/// The test double. Fault injection: with `fail_spi` set every bus write
/// fails, with `fail_gpio` set every pin operation fails; a failed
/// operation records nothing.
pub struct MockInterface {
    ops: Vec<BusOp>,
    busy_script: Vec<bool>,
    busy_pos: usize,
    fail_spi: bool,
    fail_gpio: bool,
}

impl MockInterface {
    /// Whether bus-write fault injection is on.
    pub closed spec fn spi_failing(&self) -> bool {
        self.fail_spi
    }

    /// Whether pin fault injection is on.
    pub closed spec fn gpio_failing(&self) -> bool {
        self.fail_gpio
    }

    /// The busy samples not yet replayed, next sample first. Once it is
    /// empty, the busy line reads deasserted forever.
    pub closed spec fn script(&self) -> Seq<bool> {
        if self.busy_pos <= self.busy_script.len() {
            self.busy_script@.skip(self.busy_pos as int)
        } else {
            Seq::empty()
        }
    }

    /// A double whose busy line replays `busy_script`, then reads
    /// deasserted forever; no operation fails.
    pub fn new(busy_script: Vec<bool>) -> (m: Self)
        ensures
            m.trace() == Seq::<BusEvent>::empty(),
            !m.spi_failing(),
            !m.gpio_failing(),
            m.script() == busy_script@,
    {
        let m = MockInterface {
            ops: Vec::new(),
            busy_script,
            busy_pos: 0,
            fail_spi: false,
            fail_gpio: false,
        };
        proof {
            assert(m.trace() =~= Seq::<BusEvent>::empty());
            assert(m.script() =~= m.busy_script@);
        }
        m
    }

    /// A double with fault injection switched on as given.
    pub fn with_failures(busy_script: Vec<bool>, fail_spi: bool, fail_gpio: bool) -> (m: Self)
        ensures
            m.trace() == Seq::<BusEvent>::empty(),
            m.spi_failing() == fail_spi,
            m.gpio_failing() == fail_gpio,
            m.script() == busy_script@,
    {
        let m = MockInterface { ops: Vec::new(), busy_script, busy_pos: 0, fail_spi, fail_gpio };
        proof {
            assert(m.trace() =~= Seq::<BusEvent>::empty());
            assert(m.script() =~= m.busy_script@);
        }
        m
    }

    /// The recorded operations, oldest first.
    pub fn ops(&self) -> (r: &Vec<BusOp>)
        ensures
            ops_trace(r@) == self.trace(),
    {
        &self.ops
    }
}

impl Interface for MockInterface {
    type SpiError = ();

    type GpioError = ();

    closed spec fn trace(&self) -> Seq<BusEvent> {
        ops_trace(self.ops@)
    }

    fn set_dc(&mut self, high: bool) -> (r: Result<(), ()>)
        ensures
            !old(self).gpio_failing() ==> r is Ok,
            final(self).spi_failing() == old(self).spi_failing(),
            final(self).gpio_failing() == old(self).gpio_failing(),
            final(self).script() == old(self).script(),
    {
        if self.fail_gpio {
            return Err(());
        }
        self.ops.push(BusOp::Dc(high));
        proof {
            lemma_ops_trace_push(old(self).ops@, BusOp::Dc(high));
        }
        Ok(())
    }

    fn set_cs(&mut self, high: bool) -> (r: Result<(), ()>)
        ensures
            !old(self).gpio_failing() ==> r is Ok,
            final(self).spi_failing() == old(self).spi_failing(),
            final(self).gpio_failing() == old(self).gpio_failing(),
            final(self).script() == old(self).script(),
    {
        if self.fail_gpio {
            return Err(());
        }
        self.ops.push(BusOp::Cs(high));
        proof {
            lemma_ops_trace_push(old(self).ops@, BusOp::Cs(high));
        }
        Ok(())
    }

    fn set_reset(&mut self, high: bool) -> (r: Result<(), ()>)
        ensures
            !old(self).gpio_failing() ==> r is Ok,
            final(self).spi_failing() == old(self).spi_failing(),
            final(self).gpio_failing() == old(self).gpio_failing(),
            final(self).script() == old(self).script(),
    {
        if self.fail_gpio {
            return Err(());
        }
        self.ops.push(BusOp::Rst(high));
        proof {
            lemma_ops_trace_push(old(self).ops@, BusOp::Rst(high));
        }
        Ok(())
    }

    fn read_busy(&mut self) -> (r: Result<bool, ()>)
        ensures
            !old(self).gpio_failing() ==> r is Ok,
            (r is Ok && old(self).script().len() > 0) ==> (r matches Ok(level) && level == old(
                self,
            ).script()[0]) && final(self).script() == old(self).script().drop_first(),
            (r is Ok && old(self).script().len() == 0) ==> (r matches Ok(level) && !level)
                && final(self).script() == old(self).script(),
            final(self).spi_failing() == old(self).spi_failing(),
            final(self).gpio_failing() == old(self).gpio_failing(),
            r is Err ==> final(self).script() == old(self).script(),
    {
        if self.fail_gpio {
            return Err(());
        }
        let level: bool = if self.busy_pos < self.busy_script.len() {
            let sample = self.busy_script[self.busy_pos];
            self.busy_pos = self.busy_pos + 1;
            proof {
                assert(sample == old(self).script()[0]);
                assert(self.script() =~= old(self).script().drop_first());
            }
            sample
        } else {
            false
        };
        self.ops.push(BusOp::Busy(level));
        proof {
            lemma_ops_trace_push(old(self).ops@, BusOp::Busy(level));
        }
        Ok(level)
    }

    fn spi_write(&mut self, data: &[u8]) -> (r: Result<(), ()>)
        ensures
            !old(self).spi_failing() ==> r is Ok,
            final(self).spi_failing() == old(self).spi_failing(),
            final(self).gpio_failing() == old(self).gpio_failing(),
            final(self).script() == old(self).script(),
    {
        if self.fail_spi {
            return Err(());
        }
        let bytes = vstd::slice::slice_to_vec(data);
        self.ops.push(BusOp::Spi(bytes));
        proof {
            lemma_ops_trace_push(old(self).ops@, BusOp::Spi(bytes));
        }
        Ok(())
    }

    fn delay_ms(&mut self, ms: u8)
        ensures
            final(self).spi_failing() == old(self).spi_failing(),
            final(self).gpio_failing() == old(self).gpio_failing(),
            final(self).script() == old(self).script(),
    {
        self.ops.push(BusOp::Delay(ms));
        proof {
            lemma_ops_trace_push(old(self).ops@, BusOp::Delay(ms));
        }
    }
}

} // verus!
