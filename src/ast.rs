use vstd::prelude::*;
use crate::irq::Nvic;

verus! {

/// Address of the AST's register block.
pub const AST_BASE: u32 = 0x400F_0800;

/// Interrupt lines of the AST's alarm, periodic and overflow events.
pub const ASTALARM_IRQ: u32 = 39;
pub const ASTPER_IRQ: u32 = 40;
pub const ASTOVF_IRQ: u32 = 41;

/// Status and interrupt bits of the alarm, periodic and overflow events.
pub const ALARM_BIT: u32 = 0x100;
pub const PERIODIC_BIT: u32 = 0x1_0000;
pub const OVERFLOW_BIT: u32 = 0x1;

/// Status bits: a register write is in progress / the clock is switching.
pub const BUSY_BIT: u32 = 0x100_0000;
pub const CLOCK_BUSY_BIT: u32 = 0x1000_0000;

/// The clock sources the AST can count.
#[derive(Copy, Clone, PartialEq, Eq, Structural, Debug)]
pub enum Clock {
    ClockRCSys,
    ClockOsc32,
    ClockAPB,
    ClockGclk2,
    Clock1K,
}

pub open spec fn clock_select(clock: Clock) -> u32 {
    match clock {
        Clock::ClockRCSys => 0,
        Clock::ClockOsc32 => 1,
        Clock::ClockAPB => 2,
        Clock::ClockGclk2 => 3,
        Clock::Clock1K => 4,
    }
}

/// The state behind the AST's registers: control, counter, status, the
/// enabled interrupts, wake sources, alarm, periodic interval and clock.
#[derive(Copy, Clone, PartialEq, Eq, Structural, Debug)]
pub struct AstRegisters {
    pub cr: u32,
    pub cv: u32,
    pub sr: u32,
    pub imr: u32,
    pub wer: u32,
    pub ar0: u32,
    pub pir0: u32,
    pub clock: u32,
}

/// The SAM4L's asynchronous timer, used as the kernel's alarm. In this
/// model register writes take effect at once, so nothing waits on the
/// busy flags.
pub struct Ast {
    regs: AstRegisters,
    callback: Option<usize>,
}

impl Ast {
    pub closed spec fn regs_spec(&self) -> AstRegisters {
        self.regs
    }

    pub closed spec fn client_spec(&self) -> Option<usize> {
        self.callback
    }

    pub fn new() -> (r: Ast)
        ensures
            r.regs_spec() == (AstRegisters { cr: 0, cv: 0, sr: 0, imr: 0, wer: 0, ar0: 0, pir0: 0, clock: 0 }),
            r.client_spec().is_none(),
    {
        Ast { regs: AstRegisters { cr: 0, cv: 0, sr: 0, imr: 0, wer: 0, ar0: 0, pir0: 0, clock: 0 }, callback: None }
    }

    pub fn registers(&self) -> (r: AstRegisters)
        ensures
            r == self.regs_spec(),
    {
        self.regs
    }

    /// The peripheral's side: what it changed in its registers.
    pub fn set_registers(&mut self, regs: AstRegisters)
        ensures
            final(self).regs_spec() == regs,
            final(self).client_spec() == old(self).client_spec(),
    {
        self.regs = regs;
    }

    /// Sets the client, runs the AST from the 32 kHz oscillator at 16 kHz,
    /// lets the alarm wake the chip and clears any pending alarm.
    pub fn configure(&mut self, nvic: &mut Nvic, client: usize)
        requires
            old(nvic).wf(),
        ensures
            final(nvic).wf(),
            final(nvic).pending_spec() == old(nvic).pending_spec().update(ASTALARM_IRQ as int, false),
            final(nvic).enabled_spec() == old(nvic).enabled_spec(),
            final(self).client_spec() == Some(client),
            final(self).regs_spec() == (AstRegisters {
                clock: (clock_select(Clock::ClockOsc32) << 8u32) | 1,
                wer: old(self).regs_spec().wer | ALARM_BIT,
                sr: old(self).regs_spec().sr & !ALARM_BIT,
                ..old(self).regs_spec()
            }),
    {
        self.callback = Some(client);
        self.select_clock(Clock::ClockOsc32);
        self.set_prescalar(0);
        self.enable_alarm_wake();
        self.clear_alarm(nvic);
        proof {
            let cr = old(self).regs_spec().cr;
            assert(cr | ((0u8 as u32) << 16u32) == cr) by (bit_vector);
        }
    }

    pub fn clock_busy(&self) -> (r: bool)
        ensures
            r == (self.regs_spec().sr & CLOCK_BUSY_BIT != 0),
    {
        self.regs.sr & CLOCK_BUSY_BIT != 0
    }

    pub fn set_client(&mut self, client: usize)
        ensures
            final(self).client_spec() == Some(client),
            final(self).regs_spec() == old(self).regs_spec(),
    {
        self.callback = Some(client);
    }

    pub fn busy(&self) -> (r: bool)
        ensures
            r == (self.regs_spec().sr & BUSY_BIT != 0),
    {
        self.regs.sr & BUSY_BIT != 0
    }

    /// Clears the alarm status bit and the pending alarm interrupt.
    pub fn clear_alarm(&mut self, nvic: &mut Nvic)
        requires
            old(nvic).wf(),
        ensures
            final(nvic).wf(),
            final(nvic).pending_spec() == old(nvic).pending_spec().update(ASTALARM_IRQ as int, false),
            final(nvic).enabled_spec() == old(nvic).enabled_spec(),
            final(self).client_spec() == old(self).client_spec(),
            final(self).regs_spec() == (AstRegisters { sr: old(self).regs_spec().sr & !ALARM_BIT, ..old(self).regs_spec() }),
    {
        self.regs.sr = self.regs.sr & !ALARM_BIT;
        nvic.clear_pending(ASTALARM_IRQ);
    }

    /// Clears the periodic status bit.
    pub fn clear_periodic(&mut self)
        ensures
            final(self).client_spec() == old(self).client_spec(),
            final(self).regs_spec() == (AstRegisters { sr: old(self).regs_spec().sr & !PERIODIC_BIT, ..old(self).regs_spec() }),
    {
        self.regs.sr = self.regs.sr & !PERIODIC_BIT;
    }

    /// Switches the counter to `clock`: disables the clock, selects the
    /// source, enables the clock again.
    pub fn select_clock(&mut self, clock: Clock)
        ensures
            final(self).client_spec() == old(self).client_spec(),
            final(self).regs_spec() == (AstRegisters { clock: (clock_select(clock) << 8u32) | 1, ..old(self).regs_spec() }),
    {
        self.regs.clock = self.regs.clock & !1u32;
        let select: u32 = match clock {
            Clock::ClockRCSys => 0,
            Clock::ClockOsc32 => 1,
            Clock::ClockAPB => 2,
            Clock::ClockGclk2 => 3,
            Clock::Clock1K => 4,
        };
        self.regs.clock = select << 8u32;
        self.regs.clock = self.regs.clock | 1;
    }

    pub fn enable(&mut self)
        ensures
            final(self).client_spec() == old(self).client_spec(),
            final(self).regs_spec() == (AstRegisters { cr: old(self).regs_spec().cr | 1, ..old(self).regs_spec() }),
    {
        self.regs.cr = self.regs.cr | 1;
    }

    pub fn is_enabled(&self) -> (r: bool)
        ensures
            r == (self.regs_spec().cr & 1 == 1),
    {
        self.regs.cr & 1 == 1
    }

    pub fn disable(&mut self)
        ensures
            final(self).client_spec() == old(self).client_spec(),
            final(self).regs_spec() == (AstRegisters { cr: old(self).regs_spec().cr & !1u32, ..old(self).regs_spec() }),
    {
        self.regs.cr = self.regs.cr & !1u32;
    }

    /// Adds the prescaler selection `val` to the control register.
    pub fn set_prescalar(&mut self, val: u8)
        ensures
            final(self).client_spec() == old(self).client_spec(),
            final(self).regs_spec() == (AstRegisters {
                cr: old(self).regs_spec().cr | ((val as u32) << 16u32),
                ..old(self).regs_spec()
            }),
    {
        self.regs.cr = self.regs.cr | ((val as u32) << 16u32);
    }

    pub fn enable_alarm_irq(&mut self, nvic: &mut Nvic)
        requires
            old(nvic).wf(),
        ensures
            final(nvic).wf(),
            final(nvic).enabled_spec() == old(nvic).enabled_spec().update(ASTALARM_IRQ as int, true),
            final(nvic).pending_spec() == old(nvic).pending_spec(),
            final(self).client_spec() == old(self).client_spec(),
            final(self).regs_spec() == (AstRegisters { imr: old(self).regs_spec().imr | ALARM_BIT, ..old(self).regs_spec() }),
    {
        nvic.enable(ASTALARM_IRQ);
        self.regs.imr = self.regs.imr | ALARM_BIT;
    }

    pub fn disable_alarm_irq(&mut self)
        ensures
            final(self).client_spec() == old(self).client_spec(),
            final(self).regs_spec() == (AstRegisters { imr: old(self).regs_spec().imr & !ALARM_BIT, ..old(self).regs_spec() }),
    {
        self.regs.imr = self.regs.imr & !ALARM_BIT;
    }

    pub fn enable_ovf_irq(&mut self, nvic: &mut Nvic)
        requires
            old(nvic).wf(),
        ensures
            final(nvic).wf(),
            final(nvic).enabled_spec() == old(nvic).enabled_spec().update(ASTOVF_IRQ as int, true),
            final(nvic).pending_spec() == old(nvic).pending_spec(),
            final(self).client_spec() == old(self).client_spec(),
            final(self).regs_spec() == (AstRegisters { imr: old(self).regs_spec().imr | OVERFLOW_BIT, ..old(self).regs_spec() }),
    {
        nvic.enable(ASTOVF_IRQ);
        self.regs.imr = self.regs.imr | OVERFLOW_BIT;
    }

    pub fn disable_ovf_irq(&mut self)
        ensures
            final(self).client_spec() == old(self).client_spec(),
            final(self).regs_spec() == (AstRegisters { imr: old(self).regs_spec().imr & !OVERFLOW_BIT, ..old(self).regs_spec() }),
    {
        self.regs.imr = self.regs.imr & !OVERFLOW_BIT;
    }

    pub fn enable_periodic_irq(&mut self, nvic: &mut Nvic)
        requires
            old(nvic).wf(),
        ensures
            final(nvic).wf(),
            final(nvic).enabled_spec() == old(nvic).enabled_spec().update(ASTPER_IRQ as int, true),
            final(nvic).pending_spec() == old(nvic).pending_spec(),
            final(self).client_spec() == old(self).client_spec(),
            final(self).regs_spec() == (AstRegisters { imr: old(self).regs_spec().imr | PERIODIC_BIT, ..old(self).regs_spec() }),
    {
        nvic.enable(ASTPER_IRQ);
        self.regs.imr = self.regs.imr | PERIODIC_BIT;
    }

    pub fn disable_periodic_irq(&mut self)
        ensures
            final(self).client_spec() == old(self).client_spec(),
            final(self).regs_spec() == (AstRegisters { imr: old(self).regs_spec().imr & !PERIODIC_BIT, ..old(self).regs_spec() }),
    {
        self.regs.imr = self.regs.imr & !PERIODIC_BIT;
    }

    pub fn enable_alarm_wake(&mut self)
        ensures
            final(self).client_spec() == old(self).client_spec(),
            final(self).regs_spec() == (AstRegisters { wer: old(self).regs_spec().wer | ALARM_BIT, ..old(self).regs_spec() }),
    {
        self.regs.wer = self.regs.wer | ALARM_BIT;
    }

    pub fn set_periodic_interval(&mut self, interval: u32)
        ensures
            final(self).client_spec() == old(self).client_spec(),
            final(self).regs_spec() == (AstRegisters { pir0: interval, ..old(self).regs_spec() }),
    {
        self.regs.pir0 = interval;
    }

    pub fn get_counter(&self) -> (r: u32)
        ensures
            r == self.regs_spec().cv,
    {
        self.regs.cv
    }

    pub fn set_counter(&mut self, value: u32)
        ensures
            final(self).client_spec() == old(self).client_spec(),
            final(self).regs_spec() == (AstRegisters { cv: value, ..old(self).regs_spec() }),
    {
        self.regs.cv = value;
    }

    /// Clears the alarm and returns the client to tell that it fired.
    pub fn handle_interrupt(&mut self, nvic: &mut Nvic) -> (r: Option<usize>)
        requires
            old(nvic).wf(),
        ensures
            final(nvic).wf(),
            final(nvic).pending_spec() == old(nvic).pending_spec().update(ASTALARM_IRQ as int, false),
            final(nvic).enabled_spec() == old(nvic).enabled_spec(),
            r == old(self).client_spec(),
            final(self).client_spec() == old(self).client_spec(),
            final(self).regs_spec() == (AstRegisters { sr: old(self).regs_spec().sr & !ALARM_BIT, ..old(self).regs_spec() }),
    {
        self.clear_alarm(nvic);
        self.callback
    }

    /// Whether the counter runs.
    pub fn is_armed(&self) -> (r: bool)
        ensures
            r == (self.regs_spec().cr & 1 == 1),
    {
        self.is_enabled()
    }

    /// The current time: the counter.
    pub fn now(&self) -> (r: u32)
        ensures
            r == self.regs_spec().cv,
    {
        self.regs.cv
    }

    /// Arms the alarm for `tics`: stops the counter, sets the alarm value,
    /// clears a pending alarm, unmasks the alarm interrupt and runs the
    /// counter again.
    pub fn set_alarm(&mut self, nvic: &mut Nvic, tics: u32)
        requires
            old(nvic).wf(),
        ensures
            final(nvic).wf(),
            final(nvic).pending_spec() == old(nvic).pending_spec().update(ASTALARM_IRQ as int, false),
            final(nvic).enabled_spec() == old(nvic).enabled_spec().update(ASTALARM_IRQ as int, true),
            final(self).client_spec() == old(self).client_spec(),
            final(self).regs_spec() == (AstRegisters {
                ar0: tics,
                sr: old(self).regs_spec().sr & !ALARM_BIT,
                imr: old(self).regs_spec().imr | ALARM_BIT,
                cr: (old(self).regs_spec().cr & !1u32) | 1,
                ..old(self).regs_spec()
            }),
    {
        self.disable();
        self.regs.ar0 = tics;
        self.clear_alarm(nvic);
        self.enable_alarm_irq(nvic);
        self.enable();
    }

    pub fn get_alarm(&self) -> (r: u32)
        ensures
            r == self.regs_spec().ar0,
    {
        self.regs.ar0
    }
}

} // verus!
