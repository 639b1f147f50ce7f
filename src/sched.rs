use vstd::prelude::*;
use crate::process::{Process, State, Callback, brk_result, FRAME_BYTES, log2_floor, svc_number_at};

verus! {

/// Systick ticks of one quantum of user-mode execution.
pub const QUANTUM_TICKS: u32 = 10000;

/// Below this many remaining ticks the scheduler gives up the quantum
/// rather than enter user mode.
pub const MIN_REMAINING_TICKS: u32 = 500;

/// MPU access bits of the data region: read/write.
pub const DATA_ACCESS: u32 = 0b011;

/// MPU access bits of the text region: read/execute.
pub const TEXT_ACCESS: u32 = 0b111;

pub const MEMOP: u8 = 0;
pub const YIELD: u8 = 1;
pub const SUBSCRIBE: u8 = 2;
pub const COMMAND: u8 = 3;
pub const ALLOW: u8 = 4;

/// R0 after a syscall refused for a bad range (-1 as a word).
pub const ERR_RANGE: u32 = 0xffff_ffff;

/// R0 after a memory syscall of an unknown subtype (-2 as a word).
pub const ERR_UNKNOWN_SUBTYPE: u32 = 0xffff_fffe;

/// MPU settings for one entry into user mode: region 0 over data,
/// region 1 over text, each as start address and size code.
#[derive(Copy, Clone, PartialEq, Eq, Structural, Debug)]
pub struct MpuRegions {
    pub data_start: u32,
    pub data_len: u32,
    pub text_start: u32,
    pub text_len: u32,
}

/// What one pass of the scheduling loop for a process decided.
#[derive(Copy, Clone, PartialEq, Eq, Structural, Debug)]
pub enum Step {
    /// Interrupts are pending or the quantum is nearly spent: return to
    /// the top-level scheduler.
    Preempted,
    /// The process yielded and has no callback queued: nothing to run.
    Idle,
    /// A queued callback was pushed onto the user stack; the process is
    /// now running and enters it on the next pass.
    CallbackPushed,
    /// Program the MPU with these regions and enter user mode.
    RunUser(MpuRegions),
    /// The saved stack lies outside the process's memory: fatal.
    Fault,
}

/// What to do after user mode returned to the kernel.
#[derive(Copy, Clone, PartialEq, Eq, Structural, Debug)]
pub enum Dispatch {
    /// No syscall was made (time slice expired or a fault): return to the
    /// top-level scheduler.
    Stop,
    /// A syscall was made while the saved stack lies outside the
    /// process's memory: fatal.
    Fault,
    /// The syscall was handled in the kernel; go on with the loop.
    Continue,
    /// Hand a subscription to the driver; write its result into R0.
    Subscribe { driver: u32, subdriver: u32, callback_ptr: u32, appdata: u32 },
    /// Hand a command to the driver; write its result into R0.
    Command { driver: u32, command: u32, arg: u32 },
    /// Share the (checked) buffer with the driver; write its result into R0.
    Allow { driver: u32, allow_num: u32, start: u32, len: u32 },
}

/// Whether the scheduler must give up the processor before running user code.
pub open spec fn must_preempt(pending_interrupts: bool, systick_overflowed: bool, systick_value: u32) -> bool {
    pending_interrupts || systick_overflowed || systick_value <= MIN_REMAINING_TICKS
}

/// The MPU regions of a process.
pub open spec fn regions_of(p: &Process) -> MpuRegions {
    MpuRegions {
        data_start: p.mem_start_spec() as u32,
        data_len: 12,
        text_start: p.text_start_spec() as u32,
        text_len: (log2_floor(p.text_spec().len()) - 1) as u32,
    }
}

/// One pass of the scheduling loop, up to entering user mode: the
/// preemption check, then by state either the regions to run the process
/// with, or the delivery of its next queued callback.
pub fn next_step(process: &mut Process, pending_interrupts: bool, systick_overflowed: bool, systick_value: u32) -> (r: Step)
    requires
        old(process).wf(),
    ensures
        final(process).wf(),
        must_preempt(pending_interrupts, systick_overflowed, systick_value) ==> r == Step::Preempted,
        r == Step::Preempted ==> must_preempt(pending_interrupts, systick_overflowed, systick_value),
        r != Step::CallbackPushed ==> *final(process) == *old(process),
        // A process runs user code only in the running state; a yielded
        // process with nothing queued never does.
        (r is RunUser) ==> old(process).state_spec() == State::Running,
        (r is RunUser) ==> r == Step::RunUser(regions_of(old(process))),
        old(process).state_spec() == State::Yielded && old(process).pending().len() == 0
            ==> !(r is RunUser) && !(r is CallbackPushed),
        !must_preempt(pending_interrupts, systick_overflowed, systick_value) ==> {
            if old(process).state_spec() == State::Running {
                if old(process).cur_stack_spec() < old(process).mem_start_spec() {
                    r == Step::Fault
                } else {
                    r is RunUser
                }
            } else if old(process).pending().len() == 0 {
                r == Step::Idle
            } else if !old(process).room_for_frame() {
                r == Step::Fault
            } else {
                r == Step::CallbackPushed
            }
        },
        r == Step::CallbackPushed ==> {
            let cb = old(process).pending()[0];
            &&& final(process).state_spec() == State::Running
            &&& final(process).pending() == old(process).pending().drop_first()
            &&& final(process).cur_stack_spec() == old(process).cur_stack_spec() - FRAME_BYTES
            &&& final(process).frame_in_memory()
            &&& final(process).frame_word(0) == cb.r0
            &&& final(process).frame_word(1) == cb.r1
            &&& final(process).frame_word(2) == cb.r2
            &&& final(process).frame_word(3) == cb.r3
            &&& final(process).frame_word(5) == old(process).yield_pc_spec() | 1
            &&& final(process).frame_word(6) == cb.pc | 1
            &&& final(process).frame_word(7) == old(process).psr_spec()
            &&& final(process).same_breaks(old(process))
            &&& final(process).yield_pc_spec() == old(process).yield_pc_spec()
            &&& final(process).psr_spec() == old(process).psr_spec()
        },
{
    if pending_interrupts || systick_overflowed || systick_value <= MIN_REMAINING_TICKS {
        return Step::Preempted;
    }
    match process.state() {
        State::Running => {
            if process.cur_stack() < process.mem_start() {
                return Step::Fault;
            }
            let (data_start, data_len, text_start, text_len) = process.memory_regions();
            Step::RunUser(MpuRegions { data_start, data_len, text_start, text_len })
        },
        State::Yielded => {
            if !process.has_callbacks() {
                return Step::Idle;
            }
            if !process.has_room_for_frame() {
                return Step::Fault;
            }
            let cb = match process.dequeue_callback() {
                Some(cb) => cb,
                None => return Step::Idle,
            };
            process.set_state(State::Running);
            process.push_callback(cb);
            Step::CallbackPushed
        },
    }
}

/// The word a memory syscall leaves in R0: 0 for a successful `brk`, the
/// new break for a successful `sbrk`, -1 for a refused one, -2 for an
/// unknown subtype.
pub open spec fn memop_word(p: &Process) -> u32 {
    let subtype = p.frame_word(0);
    let arg = p.frame_word(1);
    if subtype == 0 {
        match brk_result(p.mem_start_spec(), p.mem_end_spec(), p.kernel_break_spec(), p.app_break_spec(), arg as int) {
            Ok(_) => 0,
            Err(_) => ERR_RANGE,
        }
    } else if subtype == 1 {
        let target = p.app_break_spec() + (arg as i32);
        match brk_result(p.mem_start_spec(), p.mem_end_spec(), p.kernel_break_spec(), p.app_break_spec(), target) {
            Ok(_) => target as u32,
            Err(_) => ERR_RANGE,
        }
    } else {
        ERR_UNKNOWN_SUBTYPE
    }
}

/// The application break after a memory syscall.
pub open spec fn memop_break(p: &Process) -> int {
    let subtype = p.frame_word(0);
    let arg = p.frame_word(1);
    let target = if subtype == 0 {
        arg as int
    } else {
        p.app_break_spec() + (arg as i32)
    };
    if (subtype == 0 || subtype == 1) && brk_result(
        p.mem_start_spec(),
        p.mem_end_spec(),
        p.kernel_break_spec(),
        p.app_break_spec(),
        target,
    ) is Ok {
        target
    } else {
        p.app_break_spec()
    }
}

/// The syscall number of the instruction the process trapped on.
pub open spec fn svc_of(p: &Process) -> Option<u8> {
    svc_number_at(p.text_spec(), p.text_start_spec(), p.frame_word(6) as int)
}

/// Decides what follows a return from user mode. Without a syscall the
/// scheduler stops; a syscall with the stack outside memory is fatal.
/// Memory syscalls move the break and answer in R0; `yield` puts the
/// process into the yielded state and pops its frame; subscribe,
/// command and allow go to a driver (allow only for a buffer inside the
/// process's memory, else R0 gets -1); other numbers are ignored.
pub fn handle_syscall(process: &mut Process, syscall_fired: bool) -> (r: Dispatch)
    requires
        old(process).wf(),
    ensures
        final(process).wf(),
        !syscall_fired ==> r == Dispatch::Stop && *final(process) == *old(process),
        syscall_fired && !old(process).frame_in_memory() ==> r == Dispatch::Fault && *final(process) == *old(process),
        syscall_fired && old(process).cur_stack_spec() < old(process).mem_start_spec() ==> r == Dispatch::Fault,
        syscall_fired && old(process).frame_in_memory() ==> {
            let p = &*old(process);
            let q = &*final(process);
            let svc = svc_of(p);
            if svc == Some(MEMOP) {
                &&& r == Dispatch::Continue
                &&& q.memory_spec() == crate::word::put_word(p.memory_spec(), p.offset_of(p.cur_stack_spec()), memop_word(p))
                &&& q.frame_word(0) == memop_word(p)
                &&& q.app_break_spec() == memop_break(p)
                &&& q.kernel_break_spec() == p.kernel_break_spec()
                &&& q.mem_start_spec() == p.mem_start_spec()
                &&& q.container_count_spec() == p.container_count_spec()
                &&& q.text_spec() == p.text_spec()
                &&& q.text_start_spec() == p.text_start_spec()
                &&& q.yield_pc_spec() == p.yield_pc_spec()
                &&& q.psr_spec() == p.psr_spec()
                &&& q.cur_stack_spec() == p.cur_stack_spec()
                &&& q.state_spec() == p.state_spec()
                &&& q.pending() == p.pending()
            } else if svc == Some(YIELD) {
                &&& r == Dispatch::Continue
                &&& q.state_spec() == State::Yielded
                &&& q.cur_stack_spec() == p.cur_stack_spec() + FRAME_BYTES
                &&& q.yield_pc_spec() == p.frame_word(6)
                &&& q.psr_spec() == p.frame_word(7)
                &&& q.memory_spec() == p.memory_spec()
                &&& q.same_breaks(p)
                &&& q.pending() == p.pending()
            } else if svc == Some(SUBSCRIBE) {
                &&& r == Dispatch::Subscribe {
                    driver: p.frame_word(0),
                    subdriver: p.frame_word(1),
                    callback_ptr: p.frame_word(2),
                    appdata: p.frame_word(3),
                }
                &&& *q == *p
            } else if svc == Some(COMMAND) {
                &&& r == Dispatch::Command { driver: p.frame_word(0), command: p.frame_word(1), arg: p.frame_word(2) }
                &&& *q == *p
            } else if svc == Some(ALLOW) {
                if p.mem_start_spec() <= p.frame_word(2) && p.frame_word(2) + p.frame_word(3) <= p.mem_end_spec() {
                    &&& r == Dispatch::Allow {
                        driver: p.frame_word(0),
                        allow_num: p.frame_word(1),
                        start: p.frame_word(2),
                        len: p.frame_word(3),
                    }
                    &&& *q == *p
                } else {
                    &&& r == Dispatch::Continue
                    &&& q.frame_word(0) == ERR_RANGE
                    &&& q.memory_spec() == crate::word::put_word(p.memory_spec(), p.offset_of(p.cur_stack_spec()), ERR_RANGE)
                    &&& q.same_breaks(p)
                    &&& q.yield_pc_spec() == p.yield_pc_spec()
                    &&& q.psr_spec() == p.psr_spec()
                    &&& q.cur_stack_spec() == p.cur_stack_spec()
                    &&& q.state_spec() == p.state_spec()
                    &&& q.pending() == p.pending()
                }
            } else {
                r == Dispatch::Continue && *q == *p
            }
        },
{
    if !syscall_fired {
        return Dispatch::Stop;
    }
    if !process.has_frame() {
        return Dispatch::Fault;
    }
    let svc = process.svc_number();
    match svc {
        Some(n) => {
            if n == MEMOP {
                let subtype = process.r0();
                let arg = process.r1();
                if subtype == 0 {
                    match process.brk(arg) {
                        Ok(_) => process.set_r0_word(0),
                        Err(_) => process.set_r0_word(ERR_RANGE),
                    }
                } else if subtype == 1 {
                    let delta: i32 = #[verifier::truncate] (arg as i32);
                    let target: i64 = process.app_break() as i64 + delta as i64;
                    match process.sbrk(delta) {
                        Ok(_) => process.set_r0_word(#[verifier::truncate] (target as u32)),
                        Err(_) => process.set_r0_word(ERR_RANGE),
                    }
                } else {
                    process.set_r0_word(ERR_UNKNOWN_SUBTYPE);
                }
                Dispatch::Continue
            } else if n == YIELD {
                process.set_state(State::Yielded);
                process.pop_syscall_stack();
                Dispatch::Continue
            } else if n == SUBSCRIBE {
                Dispatch::Subscribe {
                    driver: process.r0(),
                    subdriver: process.r1(),
                    callback_ptr: process.r2(),
                    appdata: process.r3(),
                }
            } else if n == COMMAND {
                Dispatch::Command { driver: process.r0(), command: process.r1(), arg: process.r2() }
            } else if n == ALLOW {
                let start = process.r2();
                let len = process.r3();
                if process.in_exposed_bounds(start, len) {
                    Dispatch::Allow { driver: process.r0(), allow_num: process.r1(), start, len }
                } else {
                    process.set_r0_word(ERR_RANGE);
                    Dispatch::Continue
                }
            } else {
                Dispatch::Continue
            }
        },
        None => Dispatch::Continue,
    }
}

/// Every loaded process of the table is well formed.
pub open spec fn table_wf(procs: Seq<Option<Process>>) -> bool {
    forall|i: int| 0 <= i < procs.len() && (#[trigger] procs[i]).is_some() ==> procs[i].unwrap().wf()
}

/// Queues `callback` for the process with id `appid` in the process
/// table. False when there is no such process, or its queue is full; the
/// table is then unchanged.
pub fn schedule(procs: &mut Vec<Option<Process>>, callback: Callback, appid: usize) -> (r: bool)
    requires
        table_wf(old(procs)@),
    ensures
        table_wf(final(procs)@),
        final(procs)@.len() == old(procs)@.len(),
        r == (appid < old(procs)@.len() && old(procs)@[appid as int].is_some()
            && old(procs)@[appid as int].unwrap().pending().len() < crate::process::CALLBACK_CAPACITY),
        !r ==> final(procs)@ == old(procs)@,
        r ==> {
            let p = old(procs)@[appid as int].unwrap();
            let q = final(procs)@[appid as int].unwrap();
            &&& final(procs)@[appid as int].is_some()
            &&& q.pending() == p.pending().push(callback)
            &&& q.state_spec() == p.state_spec()
            &&& q.cur_stack_spec() == p.cur_stack_spec()
            &&& q.memory_spec() == p.memory_spec()
            &&& q.same_breaks(&p)
            &&& forall|i: int| 0 <= i < old(procs)@.len() && i != appid ==> #[trigger] final(procs)@[i] == old(procs)@[i]
        },
{
    if appid >= procs.len() {
        return false;
    }
    let mut slot: Option<Process> = None;
    procs.set_and_swap(appid, &mut slot);
    let (r, back) = match slot {
        Some(mut p) => {
            let r = p.enqueue_callback(callback);
            (r, Some(p))
        },
        None => (false, None),
    };
    let mut back = back;
    procs.set_and_swap(appid, &mut back);
    proof {
        if !r {
            assert(procs@ =~= old(procs)@);
        }
        assert forall|i: int| 0 <= i < procs@.len() && (#[trigger] procs@[i]).is_some() implies procs@[i].unwrap().wf() by {
            if i != appid {
                assert(procs@[i] == old(procs)@[i]);
            }
        }
    }
    r
}

} // verus!
