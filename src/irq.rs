use vstd::prelude::*;
use crate::ring_buffer::RingBuffer;

verus! {

/// Capacity of the deferred-interrupt queue.
pub const IQ_SIZE: usize = 100;

/// Number of interrupt lines of the controller.
pub const NUM_LINES: usize = 80;

/// The interrupt controller: for each line, whether it is enabled and
/// whether an interrupt is pending on it.
pub struct Nvic {
    enabled: Vec<bool>,
    pending: Vec<bool>,
}

impl Nvic {
    pub closed spec fn enabled_spec(&self) -> Seq<bool> {
        self.enabled@
    }

    pub closed spec fn pending_spec(&self) -> Seq<bool> {
        self.pending@
    }

    pub open spec fn wf(&self) -> bool {
        self.enabled_spec().len() == NUM_LINES && self.pending_spec().len() == NUM_LINES
    }

    /// All lines disabled, none pending.
    pub fn new() -> (r: Nvic)
        ensures
            r.wf(),
            forall|i: int| 0 <= i < NUM_LINES ==> !r.enabled_spec()[i] && !r.pending_spec()[i],
    {
        Nvic { enabled: vec![false; NUM_LINES], pending: vec![false; NUM_LINES] }
    }

    pub fn enable(&mut self, line: u32)
        requires
            old(self).wf(),
            line < NUM_LINES,
        ensures
            final(self).wf(),
            final(self).enabled_spec() == old(self).enabled_spec().update(line as int, true),
            final(self).pending_spec() == old(self).pending_spec(),
    {
        self.enabled.set(line as usize, true);
    }

    pub fn disable(&mut self, line: u32)
        requires
            old(self).wf(),
            line < NUM_LINES,
        ensures
            final(self).wf(),
            final(self).enabled_spec() == old(self).enabled_spec().update(line as int, false),
            final(self).pending_spec() == old(self).pending_spec(),
    {
        self.enabled.set(line as usize, false);
    }

    /// Marks an interrupt as pending on `line` (what the hardware does
    /// when the peripheral signals).
    pub fn set_pending(&mut self, line: u32)
        requires
            old(self).wf(),
            line < NUM_LINES,
        ensures
            final(self).wf(),
            final(self).pending_spec() == old(self).pending_spec().update(line as int, true),
            final(self).enabled_spec() == old(self).enabled_spec(),
    {
        self.pending.set(line as usize, true);
    }

    pub fn clear_pending(&mut self, line: u32)
        requires
            old(self).wf(),
            line < NUM_LINES,
        ensures
            final(self).wf(),
            final(self).pending_spec() == old(self).pending_spec().update(line as int, false),
            final(self).enabled_spec() == old(self).enabled_spec(),
    {
        self.pending.set(line as usize, false);
    }

    pub fn is_enabled(&self, line: u32) -> (r: bool)
        requires
            self.wf(),
            line < NUM_LINES,
        ensures
            r == self.enabled_spec()[line as int],
    {
        self.enabled[line as usize]
    }

    pub fn is_pending(&self, line: u32) -> (r: bool)
        requires
            self.wf(),
            line < NUM_LINES,
        ensures
            r == self.pending_spec()[line as int],
    {
        self.pending[line as usize]
    }
}

/// The queue through which interrupt top halves hand interrupt lines to
/// the kernel's main loop.
pub struct InterruptQueue {
    ring: RingBuffer<u32>,
}

impl InterruptQueue {
    /// The queued lines, oldest first.
    pub closed spec fn view(&self) -> Seq<u32> {
        self.ring@
    }

    pub closed spec fn wf(&self) -> bool {
        self.ring.wf() && self.ring.capacity_spec() == IQ_SIZE
    }

    pub fn new() -> (r: InterruptQueue)
        ensures
            r.wf(),
            r@ == Seq::<u32>::empty(),
    {
        InterruptQueue { ring: RingBuffer::new(vec![0u32; IQ_SIZE]) }
    }

    /// The top half of an interrupt on `line`: masks the line and queues it
    /// for the bottom half. Returns false when the queue was full, which
    /// the caller must treat as fatal; the line is masked either way.
    pub fn top_half(&mut self, nvic: &mut Nvic, line: u32) -> (r: bool)
        requires
            old(self).wf(),
            old(nvic).wf(),
            line < NUM_LINES,
        ensures
            final(self).wf(),
            final(nvic).wf(),
            final(nvic).enabled_spec() == old(nvic).enabled_spec().update(line as int, false),
            final(nvic).pending_spec() == old(nvic).pending_spec(),
            r == (old(self)@.len() < IQ_SIZE),
            r ==> final(self)@ == old(self)@.push(line),
            !r ==> final(self)@ == old(self)@,
    {
        nvic.disable(line);
        self.ring.enqueue(line)
    }

    pub fn has_pending_interrupts(&self) -> (r: bool)
        requires
            self.wf(),
        ensures
            r == (self@.len() > 0),
    {
        self.ring.has_elements()
    }

    /// Takes the oldest queued line, if any.
    pub fn next_interrupt(&mut self) -> (r: Option<u32>)
        requires
            old(self).wf(),
        ensures
            final(self).wf(),
            old(self)@.len() == 0 ==> r.is_none() && final(self)@ == old(self)@,
            old(self)@.len() > 0 ==> r == Some(old(self)@[0]) && final(self)@ == old(self)@.drop_first(),
    {
        self.ring.dequeue()
    }
}

/// Which bottom half serves an interrupt line of the SAM4L.
#[derive(Copy, Clone, PartialEq, Eq, Structural, Debug)]
pub enum Handler {
    Flash,
    Dma(u8),
    Gpio(u8),
    Ast,
    I2c(u8),
    Usart(u8),
    Unhandled,
}

/// The SAM4L's assignment of interrupt lines to bottom halves: the flash
/// controller, DMA channels 0-5, GPIO ports A-C (four lines each), the
/// AST alarm, the I2C masters 0-3 and USARTs 2 and 3.
pub open spec fn handler_of(line: u32) -> Handler {
    if line == 0 {
        Handler::Flash
    } else if 1 <= line <= 6 {
        Handler::Dma((line - 1) as u8)
    } else if 25 <= line <= 36 {
        Handler::Gpio(((line - 25) / 4) as u8)
    } else if line == 39 {
        Handler::Ast
    } else if line == 61 {
        Handler::I2c(0)
    } else if line == 63 {
        Handler::I2c(1)
    } else if line == 77 {
        Handler::I2c(2)
    } else if line == 78 {
        Handler::I2c(3)
    } else if line == 67 {
        Handler::Usart(2)
    } else if line == 68 {
        Handler::Usart(3)
    } else {
        Handler::Unhandled
    }
}

pub fn handler_for(line: u32) -> (r: Handler)
    ensures
        r == handler_of(line),
{
    if line == 0 {
        Handler::Flash
    } else if 1 <= line && line <= 6 {
        Handler::Dma((line - 1) as u8)
    } else if 25 <= line && line <= 36 {
        Handler::Gpio(((line - 25) / 4) as u8)
    } else if line == 39 {
        Handler::Ast
    } else if line == 61 {
        Handler::I2c(0)
    } else if line == 63 {
        Handler::I2c(1)
    } else if line == 77 {
        Handler::I2c(2)
    } else if line == 78 {
        Handler::I2c(3)
    } else if line == 67 {
        Handler::Usart(2)
    } else if line == 68 {
        Handler::Usart(3)
    } else {
        Handler::Unhandled
    }
}

/// Drains the queue in arrival order: for each line, the bottom half to
/// run. The caller runs them in that order and unmasks each line after its
/// bottom half.
pub fn service_pending_interrupts(queue: &mut InterruptQueue) -> (r: Vec<(u32, Handler)>)
    requires
        old(queue).wf(),
    ensures
        final(queue).wf(),
        final(queue)@ == Seq::<u32>::empty(),
        r@.len() == old(queue)@.len(),
        forall|i: int| 0 <= i < r@.len() ==> #[trigger] r@[i] == (old(queue)@[i], handler_of(old(queue)@[i])),
{
    let ghost q0 = queue@;
    let mut out: Vec<(u32, Handler)> = Vec::new();
    while queue.has_pending_interrupts()
        invariant
            queue.wf(),
            out@.len() + queue@.len() == q0.len(),
            queue@ == q0.subrange(out@.len() as int, q0.len() as int),
            forall|i: int| 0 <= i < out@.len() ==> #[trigger] out@[i] == (q0[i], handler_of(q0[i])),
        decreases queue@.len(),
    {
        let ghost done = out@.len() as int;
        match queue.next_interrupt() {
            Some(line) => {
                assert(line == q0[done]);
                out.push((line, handler_for(line)));
                assert(queue@ =~= q0.subrange(out@.len() as int, q0.len() as int));
            },
            None => {},
        }
    }
    assert(queue@ =~= Seq::<u32>::empty());
    out
}

/// Length of the queue after each event of `schedule` (an arrival when
/// true, a chance for the bottom half to serve one line when false),
/// starting empty: an arrival is queued unless `capacity` lines are
/// already, a service removes one line if there is one.
pub open spec fn backlog(schedule: Seq<bool>, capacity: nat, t: nat) -> nat
    decreases t,
{
    if t == 0 {
        0
    } else {
        let b = backlog(schedule, capacity, (t - 1) as nat);
        if schedule[t - 1] {
            if b < capacity {
                b + 1
            } else {
                b
            }
        } else if b > 0 {
            (b - 1) as nat
        } else {
            0
        }
    }
}

/// Number of events in `schedule[i..j)` equal to `kind`.
pub open spec fn count_events(schedule: Seq<bool>, kind: bool, i: int, j: int) -> int
    decreases j - i,
{
    if j <= i {
        0
    } else {
        count_events(schedule, kind, i, j - 1) + if schedule[j - 1] == kind { 1int } else { 0 }
    }
}

/// Arrivals never outpace service by more than `capacity`: in every
/// stretch of the schedule, arrivals exceed service chances by at most
/// `capacity`.
pub open spec fn service_keeps_up(schedule: Seq<bool>, capacity: nat) -> bool {
    forall|i: int, j: int|
        0 <= i <= j <= schedule.len() ==> #[trigger] count_events(schedule, true, i, j) <= count_events(
            schedule,
            false,
            i,
            j,
        ) + capacity
}

proof fn lemma_backlog_window(schedule: Seq<bool>, capacity: nat, t: nat)
    requires
        t <= schedule.len(),
    ensures
        exists|i: int|
            0 <= i <= t && backlog(schedule, capacity, t) <= count_events(schedule, true, i, t as int)
                - count_events(schedule, false, i, t as int),
    decreases t,
{
    if t == 0 {
        assert(backlog(schedule, capacity, 0) <= count_events(schedule, true, 0, 0) - count_events(schedule, false, 0, 0));
    } else {
        let p = (t - 1) as nat;
        lemma_backlog_window(schedule, capacity, p);
        let i = choose|i: int|
            0 <= i <= p && backlog(schedule, capacity, p) <= count_events(schedule, true, i, p as int)
                - count_events(schedule, false, i, p as int);
        if !schedule[t - 1] && backlog(schedule, capacity, p) == 0 {
            assert(backlog(schedule, capacity, t) <= count_events(schedule, true, t as int, t as int)
                - count_events(schedule, false, t as int, t as int));
        } else {
            assert(backlog(schedule, capacity, t) <= count_events(schedule, true, i, t as int)
                - count_events(schedule, false, i, t as int));
        }
    }
}

/// The deferred-interrupt queue never overflows when service keeps up
/// with arrivals: every arrival of such a schedule finds room in the queue.
pub proof fn lemma_no_overflow(schedule: Seq<bool>, capacity: nat)
    requires
        service_keeps_up(schedule, capacity),
    ensures
        forall|t: int|
            0 <= t < schedule.len() && #[trigger] schedule[t] ==> backlog(schedule, capacity, t as nat) < capacity,
{
    assert forall|t: int| 0 <= t < schedule.len() && #[trigger] schedule[t] implies backlog(
        schedule,
        capacity,
        t as nat,
    ) < capacity by {
        lemma_backlog_window(schedule, capacity, t as nat);
        let i = choose|i: int|
            0 <= i <= t && backlog(schedule, capacity, t as nat) <= count_events(schedule, true, i, t)
                - count_events(schedule, false, i, t);
        assert(count_events(schedule, true, i, t + 1) <= count_events(schedule, false, i, t + 1) + capacity);
    }
}

} // verus!
