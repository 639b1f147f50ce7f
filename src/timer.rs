use vstd::prelude::*;
use crate::irq::{Nvic, NUM_LINES};

verus! {

/// Spacing of the timers' register blocks.
pub const SIZE: u32 = 0x1000;

/// Address of the first timer's register block.
pub const TIMER_BASE: u32 = 0x4000_8000;

/// Interrupt lines of the three timers.
pub const TIMER0_IRQ: u32 = 8;
pub const TIMER1_IRQ: u32 = 9;
pub const TIMER2_IRQ: u32 = 10;

/// The alarm captures the counter into CC0 and compares against CC1.
pub const ALARM_CAPTURE: usize = 0;
pub const ALARM_COMPARE: usize = 1;

/// Interrupt-enable bit of the alarm's compare event.
pub const ALARM_INTERRUPT_BIT: u32 = 0x2_0000;

#[derive(Copy, Clone, PartialEq, Eq, Structural, Debug)]
pub enum Location {
    TIMER0,
    TIMER1,
    TIMER2,
}

pub open spec fn location_index(location: Location) -> u32 {
    match location {
        Location::TIMER0 => 0,
        Location::TIMER1 => 1,
        Location::TIMER2 => 2,
    }
}

/// Address of the register block of the timer at `location`.
pub fn timer_base(location: Location) -> (r: u32)
    ensures
        r == TIMER_BASE + location_index(location) * SIZE,
{
    let index: u32 = match location {
        Location::TIMER0 => 0,
        Location::TIMER1 => 1,
        Location::TIMER2 => 2,
    };
    TIMER_BASE + index * SIZE
}

/// The state behind a timer's registers: whether it counts, its counter,
/// the compare events, shortcuts, enabled interrupts, mode, bit width,
/// prescaler and the four capture/compare registers.
#[derive(Copy, Clone, Debug)]
pub struct TimerRegisters {
    pub running: bool,
    pub counter: u32,
    pub event_compare: [u32; 4],
    pub shorts: u32,
    pub inten: u32,
    pub mode: u32,
    pub bitmode: u32,
    pub prescaler: u32,
    pub cc: [u32; 4],
}

impl TimerRegisters {
    /// The state after reset: stopped, everything zero.
    pub fn new() -> (r: TimerRegisters)
        ensures
            r == TimerRegisters::new_spec(),
            !r.running,
            r.counter == 0,
            r.event_compare@ == seq![0u32, 0, 0, 0],
            r.shorts == 0,
            r.inten == 0,
            r.mode == 0,
            r.bitmode == 0,
            r.prescaler == 0,
            r.cc@ == seq![0u32, 0, 0, 0],
    {
        let r = TimerRegisters {
            running: false,
            counter: 0,
            event_compare: [0, 0, 0, 0],
            shorts: 0,
            inten: 0,
            mode: 0,
            bitmode: 0,
            prescaler: 0,
            cc: [0, 0, 0, 0],
        };
        assert(r.event_compare@ =~= seq![0u32, 0, 0, 0]);
        assert(r.cc@ =~= seq![0u32, 0, 0, 0]);
        r
    }
}

/// Receives the compare events of a timer: a bitmask of which of the four
/// compares fired.
pub trait CompareClient {
    fn compare(&self, bitmask: u8);
}

/// A timer of the nRF51 used as a plain counter with four compares.
pub struct Timer {
    which: Location,
    nvic: u32,
    client: Option<usize>,
    regs: TimerRegisters,
}

/// Which capture/compare register `which` selects: 0 to 2 as given, any
/// larger value the last one.
pub open spec fn cc_index(which: u8) -> int {
    if which <= 2 {
        which as int
    } else {
        3
    }
}

/// The compare events of `events` as a bitmask, bit `i` for event `i`.
pub open spec fn fired_mask(events: Seq<u32>) -> u8 {
    partial_mask(events, 4)
}

impl Timer {
    pub closed spec fn regs_spec(&self) -> TimerRegisters {
        self.regs
    }

    /// The peripheral's side: what it changed in its registers (the
    /// counter advancing, compare events firing).
    pub fn set_registers(&mut self, regs: TimerRegisters)
        ensures
            final(self).regs_spec() == regs,
            final(self).same_setup(old(self)),
    {
        self.regs = regs;
    }

    pub closed spec fn client_spec(&self) -> Option<usize> {
        self.client
    }

    pub closed spec fn nvic_spec(&self) -> u32 {
        self.nvic
    }

    pub closed spec fn location_spec(&self) -> Location {
        self.which
    }

    /// The same timer, line and client as `other`.
    pub open spec fn same_setup(&self, other: &Timer) -> bool {
        &&& self.client_spec() == other.client_spec()
        &&& self.nvic_spec() == other.nvic_spec()
        &&& self.location_spec() == other.location_spec()
    }

    fn timer(&self) -> (r: &TimerRegisters)
        ensures
            *r == self.regs_spec(),
    {
        &self.regs
    }

    /// The timer at `location`, whose interrupt line is `nvic`, in its
    /// reset state and without a client.
    pub fn new(location: Location, nvic: u32) -> (r: Timer)
        ensures
            r.location_spec() == location,
            r.nvic_spec() == nvic,
            r.client_spec().is_none(),
            r.regs_spec() == TimerRegisters::new_spec(),
    {
        Timer { which: location, nvic, client: None, regs: TimerRegisters::new() }
    }

    pub fn registers(&self) -> (r: TimerRegisters)
        ensures
            r == self.regs_spec(),
    {
        *self.timer()
    }

    pub fn location(&self) -> (r: Location)
        ensures
            r == self.location_spec(),
    {
        self.which
    }

    pub fn set_client(&mut self, client: usize)
        ensures
            final(self).client_spec() == Some(client),
            final(self).regs_spec() == old(self).regs_spec(),
            final(self).nvic_spec() == old(self).nvic_spec(),
            final(self).location_spec() == old(self).location_spec(),
    {
        self.client = Some(client);
    }

    pub fn start(&mut self)
        ensures
            final(self).regs_spec() == (TimerRegisters { running: true, ..old(self).regs_spec() }),
            final(self).same_setup(old(self)),
    {
        self.regs.running = true;
    }

    /// Stops the timer and keeps the value.
    pub fn stop(&mut self)
        ensures
            final(self).regs_spec() == (TimerRegisters { running: false, ..old(self).regs_spec() }),
            final(self).same_setup(old(self)),
    {
        self.regs.running = false;
    }

    /// Stops the timer and clears the value.
    pub fn shutdown(&mut self)
        ensures
            final(self).regs_spec() == (TimerRegisters { running: false, counter: 0, ..old(self).regs_spec() }),
            final(self).same_setup(old(self)),
    {
        self.regs.running = false;
        self.regs.counter = 0;
    }

    /// Clears the value.
    pub fn clear(&mut self)
        ensures
            final(self).regs_spec() == (TimerRegisters { counter: 0, ..old(self).regs_spec() }),
            final(self).same_setup(old(self)),
    {
        self.regs.counter = 0;
    }

    /// Captures the counter into the capture/compare register `which`
    /// selects, and returns it.
    pub fn capture(&mut self, which: u8) -> (r: u32)
        ensures
            r == old(self).regs_spec().counter,
            final(self).regs_spec().cc@ == old(self).regs_spec().cc@.update(cc_index(which), r),
            final(self).regs_spec() == (TimerRegisters { cc: final(self).regs_spec().cc, ..old(self).regs_spec() }),
            final(self).same_setup(old(self)),
    {
        let i: usize = if which <= 2 {
            which as usize
        } else {
            3
        };
        let v = self.regs.counter;
        self.regs.cc[i] = v;
        self.regs.cc[i]
    }

    /// Captures the counter without returning it.
    pub fn capture_to(&mut self, which: u8)
        ensures
            final(self).regs_spec().cc@ == old(self).regs_spec().cc@.update(cc_index(which), old(self).regs_spec().counter),
            final(self).regs_spec() == (TimerRegisters { cc: final(self).regs_spec().cc, ..old(self).regs_spec() }),
            final(self).same_setup(old(self)),
    {
        let _ = self.capture(which);
    }

    pub fn get_shortcuts(&self) -> (r: u32)
        ensures
            r == self.regs_spec().shorts,
    {
        self.timer().shorts
    }

    pub fn set_shortcuts(&mut self, shortcut: u32)
        ensures
            final(self).regs_spec() == (TimerRegisters { shorts: shortcut, ..old(self).regs_spec() }),
            final(self).same_setup(old(self)),
    {
        self.regs.shorts = shortcut;
    }

    fn set_cc(&mut self, i: usize, val: u32)
        requires
            i < 4,
        ensures
            final(self).regs_spec().cc@ == old(self).regs_spec().cc@.update(i as int, val),
            final(self).regs_spec() == (TimerRegisters { cc: final(self).regs_spec().cc, ..old(self).regs_spec() }),
            final(self).same_setup(old(self)),
    {
        self.regs.cc[i] = val;
    }

    pub fn get_cc0(&self) -> (r: u32)
        ensures
            r == self.regs_spec().cc@[0],
    {
        self.timer().cc[0]
    }

    pub fn set_cc0(&mut self, val: u32)
        ensures
            final(self).regs_spec().cc@ == old(self).regs_spec().cc@.update(0, val),
            final(self).regs_spec() == (TimerRegisters { cc: final(self).regs_spec().cc, ..old(self).regs_spec() }),
            final(self).same_setup(old(self)),
    {
        self.set_cc(0, val);
    }

    pub fn get_cc1(&self) -> (r: u32)
        ensures
            r == self.regs_spec().cc@[1],
    {
        self.timer().cc[1]
    }

    pub fn set_cc1(&mut self, val: u32)
        ensures
            final(self).regs_spec().cc@ == old(self).regs_spec().cc@.update(1, val),
            final(self).regs_spec() == (TimerRegisters { cc: final(self).regs_spec().cc, ..old(self).regs_spec() }),
            final(self).same_setup(old(self)),
    {
        self.set_cc(1, val);
    }

    pub fn get_cc2(&self) -> (r: u32)
        ensures
            r == self.regs_spec().cc@[2],
    {
        self.timer().cc[2]
    }

    pub fn set_cc2(&mut self, val: u32)
        ensures
            final(self).regs_spec().cc@ == old(self).regs_spec().cc@.update(2, val),
            final(self).regs_spec() == (TimerRegisters { cc: final(self).regs_spec().cc, ..old(self).regs_spec() }),
            final(self).same_setup(old(self)),
    {
        self.set_cc(2, val);
    }

    pub fn get_cc3(&self) -> (r: u32)
        ensures
            r == self.regs_spec().cc@[3],
    {
        self.timer().cc[3]
    }

    pub fn set_cc3(&mut self, val: u32)
        ensures
            final(self).regs_spec().cc@ == old(self).regs_spec().cc@.update(3, val),
            final(self).regs_spec() == (TimerRegisters { cc: final(self).regs_spec().cc, ..old(self).regs_spec() }),
            final(self).same_setup(old(self)),
    {
        self.set_cc(3, val);
    }

    /// Enables the compare interrupts whose bits (0 to 3) are set in `interrupts`.
    pub fn enable_interrupts(&mut self, interrupts: u32)
        ensures
            final(self).regs_spec() == (TimerRegisters {
                inten: old(self).regs_spec().inten | (interrupts << 16u32),
                ..old(self).regs_spec()
            }),
            final(self).same_setup(old(self)),
    {
        self.regs.inten = self.regs.inten | (interrupts << 16u32);
    }

    /// Disables the compare interrupts whose bits (0 to 3) are set in `interrupts`.
    pub fn disable_interrupts(&mut self, interrupts: u32)
        ensures
            final(self).regs_spec() == (TimerRegisters {
                inten: old(self).regs_spec().inten & !(interrupts << 16u32),
                ..old(self).regs_spec()
            }),
            final(self).same_setup(old(self)),
    {
        self.regs.inten = self.regs.inten & !(interrupts << 16u32);
    }

    pub fn enable_nvic(&self, nvic: &mut Nvic)
        requires
            old(nvic).wf(),
            self.nvic_spec() < NUM_LINES,
        ensures
            final(nvic).wf(),
            final(nvic).enabled_spec() == old(nvic).enabled_spec().update(self.nvic_spec() as int, true),
            final(nvic).pending_spec() == old(nvic).pending_spec(),
    {
        nvic.enable(self.nvic);
    }

    pub fn disable_nvic(&self, nvic: &mut Nvic)
        requires
            old(nvic).wf(),
            self.nvic_spec() < NUM_LINES,
        ensures
            final(nvic).wf(),
            final(nvic).enabled_spec() == old(nvic).enabled_spec().update(self.nvic_spec() as int, false),
            final(nvic).pending_spec() == old(nvic).pending_spec(),
    {
        nvic.disable(self.nvic);
    }

    /// Sets the prescaler; only its bottom four bits are valid.
    pub fn set_prescaler(&mut self, val: u8)
        ensures
            final(self).regs_spec() == (TimerRegisters { prescaler: (val & 0xf) as u32, ..old(self).regs_spec() }),
            final(self).same_setup(old(self)),
    {
        self.regs.prescaler = (val & 0xf) as u32;
    }

    pub fn get_prescaler(&self) -> (r: u8)
        ensures
            r == self.regs_spec().prescaler as u8,
    {
        #[verifier::truncate] (self.timer().prescaler as u8)
    }

    /// Clears the timer's pending interrupt; with a client, collects the
    /// compare events that fired into a bitmask, clears them, and returns
    /// the client with the bitmask to hand it.
    pub fn handle_interrupt(&mut self, nvic: &mut Nvic) -> (r: Option<(usize, u8)>)
        requires
            old(nvic).wf(),
            old(self).nvic_spec() < NUM_LINES,
        ensures
            final(nvic).wf(),
            final(nvic).pending_spec() == old(nvic).pending_spec().update(old(self).nvic_spec() as int, false),
            final(nvic).enabled_spec() == old(nvic).enabled_spec(),
            final(self).same_setup(old(self)),
            old(self).client_spec().is_none() ==> r.is_none() && final(self).regs_spec() == old(self).regs_spec(),
            old(self).client_spec().is_some() ==> r == Some((old(self).client_spec().unwrap(), fired_mask(old(self).regs_spec().event_compare@)))
                && final(self).regs_spec().event_compare@ == seq![0u32, 0, 0, 0]
                && final(self).regs_spec() == (TimerRegisters { event_compare: final(self).regs_spec().event_compare, ..old(self).regs_spec() }),
    {
        nvic.clear_pending(self.nvic);
        match self.client {
            Some(client) => {
                let ghost events = self.regs.event_compare@;
                let mut val: u8 = 0;
                let mut i: usize = 0;
                while i < 4
                    invariant
                        i <= 4,
                        self.client == old(self).client,
                        self.nvic == old(self).nvic,
                        self.which == old(self).which,
                        self.regs == (TimerRegisters { event_compare: self.regs.event_compare, ..old(self).regs }),
                        forall|j: int| 0 <= j < i ==> self.regs.event_compare@[j] == 0,
                        forall|j: int| i <= j < 4 ==> self.regs.event_compare@[j] == events[j],
                        events == old(self).regs.event_compare@,
                        val == partial_mask(events, i as int),
                    decreases 4 - i,
                {
                    proof {
                        lemma_or_zero(val);
                        lemma_shifted_out(i as u32, self.regs.inten);
                    }
                    if self.regs.event_compare[i] != 0 {
                        val = val | (1u8 << (i as u8));
                        self.regs.event_compare[i] = 0;
                        self.disable_interrupts((1u32 << ((i + 16) as u32)));
                    }
                    i = i + 1;
                }
                assert(self.regs.event_compare@ =~= seq![0u32, 0, 0, 0]);
                Some((client, val))
            },
            None => None,
        }
    }
}

/// The bitmask of the first `i` compare events of `events`.
pub open spec fn partial_mask(events: Seq<u32>, i: int) -> u8
    decreases i,
{
    if i <= 0 {
        0
    } else {
        (partial_mask(events, i - 1) | if events[i - 1] != 0 { (1u8 << ((i - 1) as u8)) as u8 } else { 0u8 }) as u8
    }
}

/// A compare bit shifted once more by 16 leaves the word: clearing it
/// changes nothing.
proof fn lemma_shifted_out(i: u32, x: u32)
    requires
        i < 4,
    ensures
        x & !((1u32 << ((i + 16) as u32)) << 16u32) == x,
{
    assert(i < 4 ==> x & !((1u32 << ((i + 16) as u32)) << 16u32) == x) by (bit_vector);
}

proof fn lemma_or_zero(x: u8)
    ensures
        x | 0u8 == x,
{
    assert(x | 0u8 == x) by (bit_vector);
}

impl TimerRegisters {
    pub open spec fn new_spec() -> TimerRegisters {
        TimerRegisters {
            running: false,
            counter: 0,
            event_compare: [0, 0, 0, 0],
            shorts: 0,
            inten: 0,
            mode: 0,
            bitmode: 0,
            prescaler: 0,
            cc: [0, 0, 0, 0],
        }
    }
}

/// A timer of the nRF51 used as the kernel's alarm: a 32-bit counter at
/// 16 kHz that captures into CC0 and fires when it reaches CC1.
pub struct TimerAlarm {
    which: Location,
    nvic: u32,
    client: Option<usize>,
    regs: TimerRegisters,
}

impl TimerAlarm {
    pub closed spec fn regs_spec(&self) -> TimerRegisters {
        self.regs
    }

    /// The peripheral's side: what it changed in its registers (the
    /// counter advancing, compare events firing).
    pub fn set_registers(&mut self, regs: TimerRegisters)
        ensures
            final(self).regs_spec() == regs,
            final(self).same_setup(old(self)),
    {
        self.regs = regs;
    }

    pub closed spec fn client_spec(&self) -> Option<usize> {
        self.client
    }

    pub closed spec fn nvic_spec(&self) -> u32 {
        self.nvic
    }

    pub closed spec fn location_spec(&self) -> Location {
        self.which
    }

    /// The same timer, line and client as `other`.
    pub open spec fn same_setup(&self, other: &TimerAlarm) -> bool {
        &&& self.client_spec() == other.client_spec()
        &&& self.nvic_spec() == other.nvic_spec()
        &&& self.location_spec() == other.location_spec()
    }

    fn timer(&self) -> (r: &TimerRegisters)
        ensures
            *r == self.regs_spec(),
    {
        &self.regs
    }

    pub fn new(location: Location, nvic: u32) -> (r: TimerAlarm)
        ensures
            r.location_spec() == location,
            r.nvic_spec() == nvic,
            r.client_spec().is_none(),
            r.regs_spec() == TimerRegisters::new_spec(),
    {
        TimerAlarm { which: location, nvic, client: None, regs: TimerRegisters::new() }
    }

    pub fn registers(&self) -> (r: TimerRegisters)
        ensures
            r == self.regs_spec(),
    {
        *self.timer()
    }

    /// Clears the alarm, then the counter.
    pub fn clear(&mut self, nvic: &mut Nvic)
        requires
            old(nvic).wf(),
            old(self).nvic_spec() < NUM_LINES,
        ensures
            final(nvic).wf(),
            final(nvic).pending_spec() == old(nvic).pending_spec().update(old(self).nvic_spec() as int, false),
            final(nvic).enabled_spec() == old(nvic).enabled_spec(),
            final(self).same_setup(old(self)),
            final(self).regs_spec().event_compare@ == old(self).regs_spec().event_compare@.update(ALARM_COMPARE as int, 0),
            final(self).regs_spec() == (TimerRegisters {
                event_compare: final(self).regs_spec().event_compare,
                inten: old(self).regs_spec().inten & !ALARM_INTERRUPT_BIT,
                counter: 0,
                ..old(self).regs_spec()
            }),
    {
        self.clear_alarm(nvic);
        self.regs.counter = 0;
    }

    /// Clears the compare event, disables its interrupt and clears the
    /// pending interrupt.
    pub fn clear_alarm(&mut self, nvic: &mut Nvic)
        requires
            old(nvic).wf(),
            old(self).nvic_spec() < NUM_LINES,
        ensures
            final(nvic).wf(),
            final(nvic).pending_spec() == old(nvic).pending_spec().update(old(self).nvic_spec() as int, false),
            final(nvic).enabled_spec() == old(nvic).enabled_spec(),
            final(self).same_setup(old(self)),
            final(self).regs_spec().event_compare@ == old(self).regs_spec().event_compare@.update(ALARM_COMPARE as int, 0),
            final(self).regs_spec() == (TimerRegisters {
                event_compare: final(self).regs_spec().event_compare,
                inten: old(self).regs_spec().inten & !ALARM_INTERRUPT_BIT,
                ..old(self).regs_spec()
            }),
    {
        self.regs.event_compare[ALARM_COMPARE] = 0;
        self.disable_interrupts();
        nvic.clear_pending(self.nvic);
    }

    pub fn set_client(&mut self, client: usize)
        ensures
            final(self).client_spec() == Some(client),
            final(self).regs_spec() == old(self).regs_spec(),
            final(self).nvic_spec() == old(self).nvic_spec(),
            final(self).location_spec() == old(self).location_spec(),
    {
        self.client = Some(client);
    }

    /// Starts counting 32 bits wide at 16 kHz (the 16 MHz clock scaled
    /// down by 2^10).
    pub fn start(&mut self)
        ensures
            final(self).regs_spec() == (TimerRegisters {
                bitmode: 3,
                prescaler: 10,
                running: true,
                ..old(self).regs_spec()
            }),
            final(self).same_setup(old(self)),
    {
        self.regs.bitmode = 3;
        self.regs.prescaler = 10;
        self.regs.running = true;
    }

    pub fn stop(&mut self)
        ensures
            final(self).regs_spec() == (TimerRegisters { running: false, ..old(self).regs_spec() }),
            final(self).same_setup(old(self)),
    {
        self.regs.running = false;
    }

    /// Clears the alarm and returns the client to tell that it fired.
    pub fn handle_interrupt(&mut self, nvic: &mut Nvic) -> (r: Option<usize>)
        requires
            old(nvic).wf(),
            old(self).nvic_spec() < NUM_LINES,
        ensures
            final(nvic).wf(),
            final(nvic).pending_spec() == old(nvic).pending_spec().update(old(self).nvic_spec() as int, false),
            final(nvic).enabled_spec() == old(nvic).enabled_spec(),
            final(self).same_setup(old(self)),
            r == old(self).client_spec(),
            final(self).regs_spec().event_compare@ == old(self).regs_spec().event_compare@.update(ALARM_COMPARE as int, 0),
            final(self).regs_spec() == (TimerRegisters {
                event_compare: final(self).regs_spec().event_compare,
                inten: old(self).regs_spec().inten & !ALARM_INTERRUPT_BIT,
                ..old(self).regs_spec()
            }),
    {
        self.clear_alarm(nvic);
        self.client
    }

    pub fn enable_interrupts(&mut self)
        ensures
            final(self).regs_spec() == (TimerRegisters {
                inten: old(self).regs_spec().inten | ALARM_INTERRUPT_BIT,
                ..old(self).regs_spec()
            }),
            final(self).same_setup(old(self)),
    {
        self.regs.inten = self.regs.inten | ALARM_INTERRUPT_BIT;
    }

    pub fn disable_interrupts(&mut self)
        ensures
            final(self).regs_spec() == (TimerRegisters {
                inten: old(self).regs_spec().inten & !ALARM_INTERRUPT_BIT,
                ..old(self).regs_spec()
            }),
            final(self).same_setup(old(self)),
    {
        self.regs.inten = self.regs.inten & !ALARM_INTERRUPT_BIT;
    }

    /// Whether the alarm's interrupt is the only one enabled.
    pub fn interrupts_enabled(&self) -> (r: bool)
        ensures
            r == (self.regs_spec().inten == ALARM_INTERRUPT_BIT),
    {
        self.timer().inten == ALARM_INTERRUPT_BIT
    }

    pub fn enable_nvic(&self, nvic: &mut Nvic)
        requires
            old(nvic).wf(),
            self.nvic_spec() < NUM_LINES,
        ensures
            final(nvic).wf(),
            final(nvic).enabled_spec() == old(nvic).enabled_spec().update(self.nvic_spec() as int, true),
            final(nvic).pending_spec() == old(nvic).pending_spec(),
    {
        nvic.enable(self.nvic);
    }

    pub fn disable_nvic(&self, nvic: &mut Nvic)
        requires
            old(nvic).wf(),
            self.nvic_spec() < NUM_LINES,
        ensures
            final(nvic).wf(),
            final(nvic).enabled_spec() == old(nvic).enabled_spec().update(self.nvic_spec() as int, false),
            final(nvic).pending_spec() == old(nvic).pending_spec(),
    {
        nvic.disable(self.nvic);
    }

    /// Captures the counter into CC0 and returns it.
    pub fn value(&mut self) -> (r: u32)
        ensures
            r == old(self).regs_spec().counter,
            final(self).regs_spec().cc@ == old(self).regs_spec().cc@.update(ALARM_CAPTURE as int, r),
            final(self).regs_spec() == (TimerRegisters { cc: final(self).regs_spec().cc, ..old(self).regs_spec() }),
            final(self).same_setup(old(self)),
    {
        let v = self.regs.counter;
        self.regs.cc[ALARM_CAPTURE] = v;
        self.regs.cc[ALARM_CAPTURE]
    }

    /// Stops the alarm from firing.
    pub fn disable(&mut self)
        ensures
            final(self).regs_spec() == (TimerRegisters {
                inten: old(self).regs_spec().inten & !ALARM_INTERRUPT_BIT,
                ..old(self).regs_spec()
            }),
            final(self).same_setup(old(self)),
    {
        self.disable_interrupts();
    }

    pub fn is_armed(&self) -> (r: bool)
        ensures
            r == (self.regs_spec().inten == ALARM_INTERRUPT_BIT),
    {
        self.interrupts_enabled()
    }

    /// The current time: the captured counter.
    pub fn now(&mut self) -> (r: u32)
        ensures
            r == old(self).regs_spec().counter,
            final(self).regs_spec().cc@ == old(self).regs_spec().cc@.update(ALARM_CAPTURE as int, r),
            final(self).regs_spec() == (TimerRegisters { cc: final(self).regs_spec().cc, ..old(self).regs_spec() }),
            final(self).same_setup(old(self)),
    {
        self.value()
    }

    /// Arms the alarm to fire when the counter reaches `tics`.
    pub fn set_alarm(&mut self, nvic: &mut Nvic, tics: u32)
        requires
            old(nvic).wf(),
            old(self).nvic_spec() < NUM_LINES,
        ensures
            final(nvic).wf(),
            final(nvic).pending_spec() == old(nvic).pending_spec().update(old(self).nvic_spec() as int, false),
            final(nvic).enabled_spec() == old(nvic).enabled_spec(),
            final(self).same_setup(old(self)),
            final(self).regs_spec().cc@ == old(self).regs_spec().cc@.update(ALARM_COMPARE as int, tics),
            final(self).regs_spec().event_compare@ == old(self).regs_spec().event_compare@.update(ALARM_COMPARE as int, 0),
            final(self).regs_spec() == (TimerRegisters {
                cc: final(self).regs_spec().cc,
                event_compare: final(self).regs_spec().event_compare,
                inten: (old(self).regs_spec().inten & !ALARM_INTERRUPT_BIT) | ALARM_INTERRUPT_BIT,
                ..old(self).regs_spec()
            }),
    {
        self.disable_interrupts();
        self.regs.cc[ALARM_COMPARE] = tics;
        self.clear_alarm(nvic);
        self.enable_interrupts();
        proof {
            let x = old(self).regs_spec().inten;
            assert((x & !ALARM_INTERRUPT_BIT) & !ALARM_INTERRUPT_BIT == x & !ALARM_INTERRUPT_BIT) by (bit_vector);
        }
    }

    /// The time the alarm is set for.
    pub fn get_alarm(&self) -> (r: u32)
        ensures
            r == self.regs_spec().cc@[ALARM_COMPARE as int],
    {
        self.timer().cc[ALARM_COMPARE]
    }
}

} // verus!
