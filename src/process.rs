use vstd::prelude::*;
use crate::ring_buffer::RingBuffer;
use vstd::arithmetic::power2::{pow2, lemma_pow2_unfold, lemma2_to64};
use crate::loader::{LoadInfo, load_info_of, layout_fits, loaded_memory, fill_zero, align8, code_offset, check_layout, load, HEADER_BYTES};
use crate::word::{word_at, put_word, write_bytes, lemma_put_word_all, read_word, write_word, copy_bytes};

verus! {

/// Largest address of the 32-bit machine.
pub const ADDR_MAX: u32 = 0xffff_ffff;

/// Number of callbacks a process can have queued.
pub const CALLBACK_CAPACITY: usize = 10;

/// Bytes of process memory reserved for each queued callback slot.
pub const CALLBACK_SLOT_BYTES: u32 = 24;

/// Bytes of one machine word (and of one container pointer).
pub const WORD_BYTES: u32 = 4;

/// Bytes of the frame the CPU stacks on exception entry: eight words.
pub const FRAME_BYTES: u32 = 32;

/// Program status register value with only the Thumb bit set.
pub const INITIAL_PSR: u32 = 0x0100_0000;

/// Gap between the end of initialised data and the initial stack pointer.
pub const STACK_SIZE: u32 = 512;

#[derive(Copy, Clone, PartialEq, Eq, Structural, Debug)]
pub enum Error {
    NoSuchApp,
    OutOfMemory,
    AddressOutOfBounds,
}

#[derive(Copy, Clone, PartialEq, Eq, Structural, Debug)]
pub enum State {
    Running,
    Yielded,
}

/// A user-mode activation record: four argument words and a target.
#[derive(Copy, Clone, PartialEq, Eq, Structural, Debug)]
pub struct Callback {
    pub r0: u32,
    pub r1: u32,
    pub r2: u32,
    pub r3: u32,
    pub pc: u32,
}

/// A loaded application: its RAM (as bytes, starting at address
/// `mem_start`), its text image in flash (starting at `text_start`), the
/// two break pointers, the saved user-mode context, and its callback queue.
pub struct Process {
    memory: Vec<u8>,
    mem_start: u32,
    app_memory_break: u32,
    kernel_memory_break: u32,
    container_count: u32,
    text: Vec<u8>,
    text_start: u32,
    cur_stack: u32,
    yield_pc: u32,
    psr: u32,
    state: State,
    callbacks: RingBuffer<Callback>,
}

/// Largest `k` with `2^k <= n` (0 for `n < 2`).
pub open spec fn log2_floor(n: nat) -> nat
    decreases n,
{
    if n < 2 {
        0
    } else {
        1 + log2_floor(n / 2)
    }
}

impl Process {
    pub closed spec fn mem_start_spec(&self) -> int {
        self.mem_start as int
    }

    pub open spec fn mem_end_spec(&self) -> int {
        self.mem_start_spec() + self.memory_spec().len()
    }

    pub closed spec fn app_break_spec(&self) -> int {
        self.app_memory_break as int
    }

    pub closed spec fn kernel_break_spec(&self) -> int {
        self.kernel_memory_break as int
    }

    pub closed spec fn container_count_spec(&self) -> int {
        self.container_count as int
    }

    pub closed spec fn memory_spec(&self) -> Seq<u8> {
        self.memory@
    }

    pub closed spec fn text_spec(&self) -> Seq<u8> {
        self.text@
    }

    pub closed spec fn text_start_spec(&self) -> int {
        self.text_start as int
    }

    pub closed spec fn cur_stack_spec(&self) -> int {
        self.cur_stack as int
    }

    pub closed spec fn yield_pc_spec(&self) -> u32 {
        self.yield_pc
    }

    pub closed spec fn psr_spec(&self) -> u32 {
        self.psr
    }

    pub closed spec fn state_spec(&self) -> State {
        self.state
    }

    pub closed spec fn queue_spec(&self) -> RingBuffer<Callback> {
        self.callbacks
    }

    /// The process's memory layout holds together:
    /// `mem_start <= app_break <= kernel_break <= mem_end`, the container
    /// pointer table sits above the kernel break, and every region fits in
    /// the 32-bit address space.
    pub open spec fn wf(&self) -> bool {
        &&& self.mem_end_spec() <= ADDR_MAX
        &&& self.mem_start_spec() <= self.app_break_spec()
        &&& self.app_break_spec() <= self.kernel_break_spec()
        &&& self.kernel_break_spec() + WORD_BYTES * self.container_count_spec() <= self.mem_end_spec()
        &&& self.text_start_spec() + self.text_spec().len() <= ADDR_MAX
        &&& self.text_spec().len() >= 4
        &&& self.queue_spec().wf()
        &&& self.queue_spec().capacity_spec() == CALLBACK_CAPACITY
    }

    /// Offset in `memory` of the byte at address `addr`.
    pub open spec fn offset_of(&self, addr: int) -> int {
        addr - self.mem_start_spec()
    }

    /// The `k`-th word of the frame at the saved user stack pointer.
    pub open spec fn frame_word(&self, k: int) -> u32 {
        word_at(self.memory_spec(), self.offset_of(self.cur_stack_spec()) + WORD_BYTES * k)
    }

    /// The frame at the saved stack pointer lies wholly inside the process's memory.
    pub open spec fn frame_in_memory(&self) -> bool {
        self.mem_start_spec() <= self.cur_stack_spec() && self.cur_stack_spec() + FRAME_BYTES
            <= self.mem_end_spec()
    }

    /// The fields that the memory-break operations leave alone.
    pub open spec fn same_context(&self, other: &Process) -> bool {
        &&& self.mem_start_spec() == other.mem_start_spec()
        &&& self.memory_spec() == other.memory_spec()
        &&& self.container_count_spec() == other.container_count_spec()
        &&& self.text_spec() == other.text_spec()
        &&& self.text_start_spec() == other.text_start_spec()
        &&& self.cur_stack_spec() == other.cur_stack_spec()
        &&& self.yield_pc_spec() == other.yield_pc_spec()
        &&& self.psr_spec() == other.psr_spec()
        &&& self.state_spec() == other.state_spec()
        &&& self.queue_spec() == other.queue_spec()
    }

    pub fn mem_start(&self) -> (r: u32)
        ensures
            r == self.mem_start_spec(),
    {
        self.mem_start
    }

    pub fn mem_end(&self) -> (r: u32)
        requires
            self.wf(),
        ensures
            r == self.mem_end_spec(),
    {
        self.mem_start + self.memory.len() as u32
    }

    pub fn app_break(&self) -> (r: u32)
        ensures
            r == self.app_break_spec(),
    {
        self.app_memory_break
    }

    pub fn kernel_break(&self) -> (r: u32)
        ensures
            r == self.kernel_break_spec(),
    {
        self.kernel_memory_break
    }

    pub fn cur_stack(&self) -> (r: u32)
        ensures
            r == self.cur_stack_spec(),
    {
        self.cur_stack
    }

    pub fn yield_pc(&self) -> (r: u32)
        ensures
            r == self.yield_pc_spec(),
    {
        self.yield_pc
    }

    pub fn psr(&self) -> (r: u32)
        ensures
            r == self.psr_spec(),
    {
        self.psr
    }

    pub fn memory(&self) -> (r: &Vec<u8>)
        ensures
            r@ == self.memory_spec(),
    {
        &self.memory
    }

    /// MPU settings for the process: data start, data size code, text
    /// start, and the text size code `floor(log2(text_len)) - 1`.
    pub fn memory_regions(&self) -> (r: (u32, u32, u32, u32))
        requires
            self.wf(),
        ensures
            r.0 == self.mem_start_spec(),
            r.1 == 12,
            r.2 == self.text_start_spec(),
            r.3 == log2_floor(self.text_spec().len()) - 1,
    {
        let len = self.text.len();
        proof {
            lemma2_to64();
            lemma_log2_floor_below(len as nat, 32);
            lemma_log2_floor_at_least_two(len as nat);
        }
        let mut n: usize = len;
        let mut k: u32 = 0;
        while n > 1
            invariant
                1 <= n <= len,
                len == self.text@.len(),
                k + log2_floor(n as nat) == log2_floor(len as nat),
                log2_floor(len as nat) < 32,
            decreases n,
        {
            n = n / 2;
            k = k + 1;
        }
        (self.mem_start, 12, self.text_start, k - 1)
    }

    /// Moves the application break to `new_break`, returning the old break.
    /// Fails with `AddressOutOfBounds` outside `[mem_start, mem_end)` and
    /// with `OutOfMemory` at or above the kernel break.
    pub fn brk(&mut self, new_break: u32) -> (r: Result<u32, Error>)
        requires
            old(self).wf(),
        ensures
            final(self).wf(),
            final(self).same_context(old(self)),
            final(self).kernel_break_spec() == old(self).kernel_break_spec(),
            r == brk_result(old(self).mem_start_spec(), old(self).mem_end_spec(),
                old(self).kernel_break_spec(), old(self).app_break_spec(), new_break as int),
            r.is_ok() ==> final(self).app_break_spec() == new_break,
            r.is_err() ==> final(self).app_break_spec() == old(self).app_break_spec(),
    {
        let mem_end = self.mem_end();
        if new_break < self.mem_start || new_break >= mem_end {
            Err(Error::AddressOutOfBounds)
        } else if new_break >= self.kernel_memory_break {
            Err(Error::OutOfMemory)
        } else {
            let old_break = self.app_memory_break;
            self.app_memory_break = new_break;
            Ok(old_break)
        }
    }

    /// Moves the application break by `increment` bytes, returning the old
    /// break; fails as `brk` does for the resulting address.
    pub fn sbrk(&mut self, increment: i32) -> (r: Result<u32, Error>)
        requires
            old(self).wf(),
        ensures
            final(self).wf(),
            final(self).same_context(old(self)),
            final(self).kernel_break_spec() == old(self).kernel_break_spec(),
            r == brk_result(old(self).mem_start_spec(), old(self).mem_end_spec(),
                old(self).kernel_break_spec(), old(self).app_break_spec(),
                old(self).app_break_spec() + increment),
            r.is_ok() ==> final(self).app_break_spec() == old(self).app_break_spec() + increment,
            r.is_err() ==> final(self).app_break_spec() == old(self).app_break_spec(),
    {
        let target: i64 = self.app_memory_break as i64 + increment as i64;
        if target < 0 || target > ADDR_MAX as i64 {
            Err(Error::AddressOutOfBounds)
        } else {
            self.brk(target as u32)
        }
    }

    /// Whether `[start, start + size)` lies inside the process's memory.
    pub fn in_exposed_bounds(&self, start: u32, size: u32) -> (r: bool)
        requires
            self.wf(),
        ensures
            r == (self.mem_start_spec() <= start && start + size <= self.mem_end_spec()),
    {
        let end: u64 = start as u64 + size as u64;
        start >= self.mem_start && end <= self.mem_end() as u64
    }

    /// Reserves `size` bytes at the top of the application's free memory
    /// for the kernel by lowering the kernel break; returns the start
    /// address of the reserved bytes, or `None` (with nothing changed) if
    /// that would cross the application break.
    pub fn allocate(&mut self, size: u32) -> (r: Option<u32>)
        requires
            old(self).wf(),
        ensures
            final(self).wf(),
            final(self).same_context(old(self)),
            final(self).app_break_spec() == old(self).app_break_spec(),
            r.is_some() == (old(self).kernel_break_spec() - size >= old(self).app_break_spec()),
            r.is_some() ==> r.unwrap() == old(self).kernel_break_spec() - size
                && final(self).kernel_break_spec() == r.unwrap(),
            r.is_none() ==> final(self).kernel_break_spec() == old(self).kernel_break_spec(),
    {
        if size > self.kernel_memory_break - self.app_memory_break {
            None
        } else {
            self.kernel_memory_break = self.kernel_memory_break - size;
            Some(self.kernel_memory_break)
        }
    }
}

impl Process {
    /// `new` is `old` after a callback frame for `cb` was built eight words
    /// below the saved stack pointer and the stack pointer moved onto it.
    pub open spec fn pushed_callback(old: &Process, cb: Callback, new: &Process) -> bool {
        let o = old.offset_of(old.cur_stack_spec()) - FRAME_BYTES;
        &&& new.cur_stack_spec() == old.cur_stack_spec() - FRAME_BYTES
        &&& new.memory_spec() == callback_frame(old.memory_spec(), o, cb, old.yield_pc_spec(), old.psr_spec())
        &&& new.mem_start_spec() == old.mem_start_spec()
        &&& new.app_break_spec() == old.app_break_spec()
        &&& new.kernel_break_spec() == old.kernel_break_spec()
        &&& new.container_count_spec() == old.container_count_spec()
        &&& new.text_spec() == old.text_spec()
        &&& new.text_start_spec() == old.text_start_spec()
        &&& new.yield_pc_spec() == old.yield_pc_spec()
        &&& new.psr_spec() == old.psr_spec()
        &&& new.state_spec() == old.state_spec()
        &&& new.queue_spec() == old.queue_spec()
    }

    /// `new` is `old` after the syscall frame at the saved stack pointer was
    /// popped: its PC became the yield point, its PSR the saved status.
    pub open spec fn popped_frame(old: &Process, new: &Process) -> bool {
        &&& new.cur_stack_spec() == old.cur_stack_spec() + FRAME_BYTES
        &&& new.yield_pc_spec() == old.frame_word(6)
        &&& new.psr_spec() == old.frame_word(7)
        &&& new.memory_spec() == old.memory_spec()
        &&& new.mem_start_spec() == old.mem_start_spec()
        &&& new.app_break_spec() == old.app_break_spec()
        &&& new.kernel_break_spec() == old.kernel_break_spec()
        &&& new.container_count_spec() == old.container_count_spec()
        &&& new.text_spec() == old.text_spec()
        &&& new.text_start_spec() == old.text_start_spec()
        &&& new.state_spec() == old.state_spec()
        &&& new.queue_spec() == old.queue_spec()
    }

    /// There is room for a callback frame below the saved stack pointer.
    pub open spec fn room_for_frame(&self) -> bool {
        self.mem_start_spec() + FRAME_BYTES <= self.cur_stack_spec() <= self.mem_end_spec()
    }

    /// Builds a frame below the saved user stack pointer that makes the
    /// process enter `callback.pc` with the callback's four arguments, and
    /// return to the saved yield point when the callback returns.
    pub fn push_callback(&mut self, callback: Callback)
        requires
            old(self).wf(),
            old(self).room_for_frame(),
        ensures
            final(self).wf(),
            Process::pushed_callback(old(self), callback, final(self)),
            final(self).frame_in_memory(),
            final(self).frame_word(0) == callback.r0,
            final(self).frame_word(1) == callback.r1,
            final(self).frame_word(2) == callback.r2,
            final(self).frame_word(3) == callback.r3,
            final(self).frame_word(5) == old(self).yield_pc_spec() | 1,
            final(self).frame_word(6) == callback.pc | 1,
            final(self).frame_word(7) == old(self).psr_spec(),
    {
        let o: usize = (self.cur_stack - FRAME_BYTES - self.mem_start) as usize;
        let ghost m0 = self.memory@;
        proof {
            lemma_callback_frame(m0, o as int, callback, self.yield_pc, self.psr);
        }
        write_word(&mut self.memory, o + 28, self.psr);
        write_word(&mut self.memory, o + 24, callback.pc | 1);
        write_word(&mut self.memory, o + 20, self.yield_pc | 1);
        write_word(&mut self.memory, o, callback.r0);
        write_word(&mut self.memory, o + 4, callback.r1);
        write_word(&mut self.memory, o + 8, callback.r2);
        write_word(&mut self.memory, o + 12, callback.r3);
        self.cur_stack = self.cur_stack - FRAME_BYTES;
    }

    /// Pops the syscall frame at the saved stack pointer, keeping its PC as
    /// the yield point and its PSR as the saved status.
    pub fn pop_syscall_stack(&mut self)
        requires
            old(self).wf(),
            old(self).frame_in_memory(),
        ensures
            final(self).wf(),
            Process::popped_frame(old(self), final(self)),
    {
        let o: usize = (self.cur_stack - self.mem_start) as usize;
        self.yield_pc = read_word(&self.memory, o + 24);
        self.psr = read_word(&self.memory, o + 28);
        self.cur_stack = self.cur_stack + FRAME_BYTES;
    }

    fn frame_read(&self, k: usize) -> (r: u32)
        requires
            self.wf(),
            self.frame_in_memory(),
            k < 8,
        ensures
            r == self.frame_word(k as int),
    {
        let o: usize = (self.cur_stack - self.mem_start) as usize;
        read_word(&self.memory, o + 4 * k)
    }

    /// The saved link register of the user frame.
    pub fn lr(&self) -> (r: u32)
        requires
            self.wf(),
            self.frame_in_memory(),
        ensures
            r == self.frame_word(5),
    {
        self.frame_read(5)
    }

    pub fn r0(&self) -> (r: u32)
        requires
            self.wf(),
            self.frame_in_memory(),
        ensures
            r == self.frame_word(0),
    {
        self.frame_read(0)
    }

    pub fn r1(&self) -> (r: u32)
        requires
            self.wf(),
            self.frame_in_memory(),
        ensures
            r == self.frame_word(1),
    {
        self.frame_read(1)
    }

    pub fn r2(&self) -> (r: u32)
        requires
            self.wf(),
            self.frame_in_memory(),
        ensures
            r == self.frame_word(2),
    {
        self.frame_read(2)
    }

    pub fn r3(&self) -> (r: u32)
        requires
            self.wf(),
            self.frame_in_memory(),
        ensures
            r == self.frame_word(3),
    {
        self.frame_read(3)
    }

    /// Writes `val` (as a two's-complement word) into the user's saved R0.
    pub fn set_r0(&mut self, val: i32)
        requires
            old(self).wf(),
            old(self).frame_in_memory(),
        ensures
            final(self).wf(),
            final(self).memory_spec() == put_word(old(self).memory_spec(),
                old(self).offset_of(old(self).cur_stack_spec()), val as u32),
            final(self).frame_word(0) == val as u32,
            final(self).frame_in_memory(),
            final(self).cur_stack_spec() == old(self).cur_stack_spec(),
            final(self).same_breaks(old(self)),
            final(self).yield_pc_spec() == old(self).yield_pc_spec(),
            final(self).psr_spec() == old(self).psr_spec(),
            final(self).state_spec() == old(self).state_spec(),
            final(self).queue_spec() == old(self).queue_spec(),
    {
        self.set_r0_word(#[verifier::truncate] (val as u32));
    }

    /// Writes the word `val` into the user's saved R0.
    pub fn set_r0_word(&mut self, val: u32)
        requires
            old(self).wf(),
            old(self).frame_in_memory(),
        ensures
            final(self).wf(),
            final(self).memory_spec() == put_word(old(self).memory_spec(),
                old(self).offset_of(old(self).cur_stack_spec()), val),
            final(self).frame_word(0) == val,
            final(self).frame_in_memory(),
            final(self).cur_stack_spec() == old(self).cur_stack_spec(),
            final(self).same_breaks(old(self)),
            final(self).yield_pc_spec() == old(self).yield_pc_spec(),
            final(self).psr_spec() == old(self).psr_spec(),
            final(self).state_spec() == old(self).state_spec(),
            final(self).queue_spec() == old(self).queue_spec(),
    {
        let o: usize = (self.cur_stack - self.mem_start) as usize;
        proof {
            lemma_put_word_all(self.memory@, o as int, val);
        }
        write_word(&mut self.memory, o, val);
    }

    /// The memory layout and text are those of `other`.
    pub open spec fn same_breaks(&self, other: &Process) -> bool {
        &&& self.mem_start_spec() == other.mem_start_spec()
        &&& self.app_break_spec() == other.app_break_spec()
        &&& self.kernel_break_spec() == other.kernel_break_spec()
        &&& self.container_count_spec() == other.container_count_spec()
        &&& self.text_spec() == other.text_spec()
        &&& self.text_start_spec() == other.text_start_spec()
    }

    /// The immediate byte of the supervisor-call instruction just before
    /// the saved user PC, or `None` when that instruction is not inside the
    /// process's text.
    pub fn svc_number(&self) -> (r: Option<u8>)
        requires
            self.wf(),
            self.frame_in_memory(),
        ensures
            r == svc_number_at(self.text_spec(), self.text_start_spec(), self.frame_word(6) as int),
    {
        let pc = self.frame_read(6);
        if pc >= 2 && pc - 2 >= self.text_start && ((pc - 2 - self.text_start) as usize) + 2 <= self.text.len() {
            Some(self.text[(pc - 2 - self.text_start) as usize])
        } else {
            None
        }
    }
}

/// The syscall number encoded by the two-byte instruction before `pc` in
/// `text` (loaded at `text_start`): its low, first byte.
pub open spec fn svc_number_at(text: Seq<u8>, text_start: int, pc: int) -> Option<u8> {
    let off = pc - 2 - text_start;
    if 0 <= off && off + 2 <= text.len() {
        Some(text[off])
    } else {
        None
    }
}

/// `m` with a callback frame written at byte offset `o`: words 0..3 the
/// callback's arguments, word 5 the return point, word 6 the entry point
/// (both with the Thumb bit), word 7 the status register.
pub open spec fn callback_frame(m: Seq<u8>, o: int, cb: Callback, yield_pc: u32, psr: u32) -> Seq<u8> {
    let m7 = put_word(m, o + 28, psr);
    let m6 = put_word(m7, o + 24, cb.pc | 1);
    let m5 = put_word(m6, o + 20, yield_pc | 1);
    let m0 = put_word(m5, o, cb.r0);
    let m1 = put_word(m0, o + 4, cb.r1);
    let m2 = put_word(m1, o + 8, cb.r2);
    put_word(m2, o + 12, cb.r3)
}

proof fn lemma_callback_frame(m: Seq<u8>, o: int, cb: Callback, yield_pc: u32, psr: u32)
    requires
        0 <= o,
        o + 32 <= m.len(),
    ensures
        callback_frame(m, o, cb, yield_pc, psr).len() == m.len(),
        word_at(callback_frame(m, o, cb, yield_pc, psr), o) == cb.r0,
        word_at(callback_frame(m, o, cb, yield_pc, psr), o + 4) == cb.r1,
        word_at(callback_frame(m, o, cb, yield_pc, psr), o + 8) == cb.r2,
        word_at(callback_frame(m, o, cb, yield_pc, psr), o + 12) == cb.r3,
        word_at(callback_frame(m, o, cb, yield_pc, psr), o + 20) == yield_pc | 1,
        word_at(callback_frame(m, o, cb, yield_pc, psr), o + 24) == cb.pc | 1,
        word_at(callback_frame(m, o, cb, yield_pc, psr), o + 28) == psr,
{
    let m7 = put_word(m, o + 28, psr);
    let m6 = put_word(m7, o + 24, cb.pc | 1);
    let m5 = put_word(m6, o + 20, yield_pc | 1);
    let m0 = put_word(m5, o, cb.r0);
    let m1 = put_word(m0, o + 4, cb.r1);
    let m2 = put_word(m1, o + 8, cb.r2);
    lemma_put_word_all(m, o + 28, psr);
    lemma_put_word_all(m7, o + 24, cb.pc | 1);
    lemma_put_word_all(m6, o + 20, yield_pc | 1);
    lemma_put_word_all(m5, o, cb.r0);
    lemma_put_word_all(m0, o + 4, cb.r1);
    lemma_put_word_all(m1, o + 8, cb.r2);
    lemma_put_word_all(m2, o + 12, cb.r3);
}

/// Delivering a callback and then popping the frame it built (as a
/// `yield` does) gives back the stack pointer and status register from
/// before the delivery; the yield point becomes the callback's entry
/// point, which is where the callback resumed from.
pub proof fn lemma_push_then_pop(p0: Process, cb: Callback, p1: Process, p2: Process)
    requires
        p0.wf(),
        p0.room_for_frame(),
        Process::pushed_callback(&p0, cb, &p1),
        Process::popped_frame(&p1, &p2),
    ensures
        p2.cur_stack_spec() == p0.cur_stack_spec(),
        p2.psr_spec() == p0.psr_spec(),
        p2.yield_pc_spec() == cb.pc | 1,
        p2.yield_pc_spec() == p0.yield_pc_spec() <==> cb.pc | 1 == p0.yield_pc_spec(),
        p2.same_breaks(&p0),
        p2.state_spec() == p0.state_spec(),
        p2.queue_spec() == p0.queue_spec(),
{
    let o = p0.offset_of(p0.cur_stack_spec()) - FRAME_BYTES;
    lemma_callback_frame(p0.memory_spec(), o, cb, p0.yield_pc_spec(), p0.psr_spec());
}

impl Process {
    /// Address of the pointer slot of container `container_num` in the
    /// table at the top of the process's memory.
    pub open spec fn container_slot(&self, container_num: int) -> int {
        self.mem_end_spec() - WORD_BYTES * (container_num + 1)
    }

    /// Address of the pointer slot of container `container_num`.
    pub fn container_for(&self, container_num: u32) -> (r: u32)
        requires
            self.wf(),
            container_num < self.container_count_spec(),
        ensures
            r == self.container_slot(container_num as int),
    {
        self.mem_end() - WORD_BYTES * (container_num + 1)
    }

    /// The address of container `container_num`'s storage. If its slot is
    /// still null, first reserves `init.len()` bytes below the kernel break,
    /// fills them with `init` and records their address in the slot;
    /// `None` (with nothing changed) when there is no room for them.
    pub fn container_for_or_alloc(&mut self, container_num: u32, init: &Vec<u8>) -> (r: Option<u32>)
        requires
            old(self).wf(),
            container_num < old(self).container_count_spec(),
        ensures
            final(self).wf(),
            ({
                let slot_off = old(self).offset_of(old(self).container_slot(container_num as int));
                let current = word_at(old(self).memory_spec(), slot_off);
                let start = old(self).kernel_break_spec() - init@.len();
                if current != 0 {
                    r == Some(current) && *final(self) == *old(self)
                } else if start < old(self).app_break_spec() {
                    r.is_none() && *final(self) == *old(self)
                } else {
                    &&& r == Some(start as u32)
                    &&& final(self).kernel_break_spec() == start
                    &&& final(self).memory_spec() == put_word(
                        write_bytes(old(self).memory_spec(), old(self).offset_of(start), init@),
                        slot_off, start as u32)
                    &&& final(self).app_break_spec() == old(self).app_break_spec()
                    &&& final(self).cur_stack_spec() == old(self).cur_stack_spec()
                    &&& final(self).yield_pc_spec() == old(self).yield_pc_spec()
                    &&& final(self).psr_spec() == old(self).psr_spec()
                    &&& final(self).state_spec() == old(self).state_spec()
                    &&& final(self).queue_spec() == old(self).queue_spec()
                    &&& final(self).mem_start_spec() == old(self).mem_start_spec()
                    &&& final(self).container_count_spec() == old(self).container_count_spec()
                    &&& final(self).text_spec() == old(self).text_spec()
                    &&& final(self).text_start_spec() == old(self).text_start_spec()
                }
            }),
    {
        let slot = self.container_for(container_num);
        let slot_off: usize = (slot - self.mem_start) as usize;
        let current = read_word(&self.memory, slot_off);
        if current != 0 {
            return Some(current);
        }
        let size: usize = init.len();
        if size > (self.kernel_memory_break - self.app_memory_break) as usize {
            return None;
        }
        let start = match self.allocate(size as u32) {
            Some(start) => start,
            None => return None,
        };
        let off: usize = (start - self.mem_start) as usize;
        copy_bytes(&mut self.memory, off, init);
        write_word(&mut self.memory, slot_off, start);
        Some(start)
    }
}

impl Process {
    /// Records the user stack pointer that the CPU left on the return from
    /// user mode.
    pub fn set_cur_stack(&mut self, sp: u32)
        requires
            old(self).wf(),
        ensures
            final(self).wf(),
            final(self).cur_stack_spec() == sp,
            final(self).memory_spec() == old(self).memory_spec(),
            final(self).same_breaks(old(self)),
            final(self).yield_pc_spec() == old(self).yield_pc_spec(),
            final(self).psr_spec() == old(self).psr_spec(),
            final(self).state_spec() == old(self).state_spec(),
            final(self).queue_spec() == old(self).queue_spec(),
    {
        self.cur_stack = sp;
    }

    /// Whether the frame at the saved stack pointer lies inside the
    /// process's memory.
    pub fn has_frame(&self) -> (r: bool)
        requires
            self.wf(),
        ensures
            r == self.frame_in_memory(),
    {
        self.cur_stack >= self.mem_start && self.cur_stack as u64 + FRAME_BYTES as u64 <= self.mem_end() as u64
    }

    /// Whether there is room for a callback frame below the saved stack pointer.
    pub fn has_room_for_frame(&self) -> (r: bool)
        requires
            self.wf(),
        ensures
            r == self.room_for_frame(),
    {
        self.cur_stack as u64 >= self.mem_start as u64 + FRAME_BYTES as u64 && self.cur_stack <= self.mem_end()
    }
}

impl Process {
    pub fn state(&self) -> (r: State)
        ensures
            r == self.state_spec(),
    {
        self.state
    }

    pub fn set_state(&mut self, state: State)
        requires
            old(self).wf(),
        ensures
            final(self).wf(),
            final(self).state_spec() == state,
            final(self).memory_spec() == old(self).memory_spec(),
            final(self).same_breaks(old(self)),
            final(self).cur_stack_spec() == old(self).cur_stack_spec(),
            final(self).yield_pc_spec() == old(self).yield_pc_spec(),
            final(self).psr_spec() == old(self).psr_spec(),
            final(self).queue_spec() == old(self).queue_spec(),
    {
        self.state = state;
    }

    /// The queued callbacks, oldest first.
    pub open spec fn pending(&self) -> Seq<Callback> {
        self.queue_spec()@
    }

    pub fn has_callbacks(&self) -> (r: bool)
        requires
            self.wf(),
        ensures
            r == (self.pending().len() > 0),
    {
        self.callbacks.has_elements()
    }

    pub fn pending_count(&self) -> (r: usize)
        requires
            self.wf(),
        ensures
            r == self.pending().len(),
    {
        self.callbacks.len()
    }

    /// Queues `callback` for delivery; false (nothing queued) when the
    /// queue is full.
    pub fn enqueue_callback(&mut self, callback: Callback) -> (r: bool)
        requires
            old(self).wf(),
        ensures
            final(self).wf(),
            r == (old(self).pending().len() < CALLBACK_CAPACITY),
            r ==> final(self).pending() == old(self).pending().push(callback),
            !r ==> *final(self) == *old(self),
            final(self).memory_spec() == old(self).memory_spec(),
            final(self).same_breaks(old(self)),
            final(self).cur_stack_spec() == old(self).cur_stack_spec(),
            final(self).yield_pc_spec() == old(self).yield_pc_spec(),
            final(self).psr_spec() == old(self).psr_spec(),
            final(self).state_spec() == old(self).state_spec(),
    {
        self.callbacks.enqueue(callback)
    }

    /// Takes the oldest queued callback, if any.
    pub fn dequeue_callback(&mut self) -> (r: Option<Callback>)
        requires
            old(self).wf(),
        ensures
            final(self).wf(),
            old(self).pending().len() == 0 ==> r.is_none() && *final(self) == *old(self),
            old(self).pending().len() > 0 ==> r == Some(old(self).pending()[0])
                && final(self).pending() == old(self).pending().drop_first(),
            final(self).memory_spec() == old(self).memory_spec(),
            final(self).same_breaks(old(self)),
            final(self).cur_stack_spec() == old(self).cur_stack_spec(),
            final(self).yield_pc_spec() == old(self).yield_pc_spec(),
            final(self).psr_spec() == old(self).psr_spec(),
            final(self).state_spec() == old(self).state_spec(),
    {
        self.callbacks.dequeue()
    }
}

/// Bytes at the top of a process's RAM that loading reserves for the
/// kernel: the container pointer table and the callback queue's storage.
pub open spec fn kernel_reserve(container_count: int) -> int {
    WORD_BYTES * container_count + CALLBACK_CAPACITY * CALLBACK_SLOT_BYTES
}

/// Offset in RAM of the kernel break right after loading.
pub open spec fn initial_kernel_offset(mem_len: int, container_count: int) -> int {
    mem_len - kernel_reserve(container_count)
}

/// Address of the code of an image loaded from flash address `start_addr`.
pub open spec fn code_base_of(start_addr: int, info: LoadInfo) -> int {
    start_addr + code_offset(info)
}

/// Address of the first free byte above the loaded data and BSS.
pub open spec fn app_mem_start_of(mem_start: int, info: LoadInfo) -> int {
    mem_start + align8(info.bss_end_offset as int)
}

/// Whether `image`, found in flash at `start_addr`, can be loaded into
/// `mem_len` bytes of RAM at `mem_start` with `container_count` container
/// slots: both regions fit the address space, the kernel's reservation
/// fits, the image's layout fits below it, and its entry point is an address.
pub open spec fn loadable(start_addr: int, image: Seq<u8>, mem_start: int, mem_len: int, container_count: int) -> bool {
    let info = load_info_of(image);
    &&& mem_start + mem_len <= ADDR_MAX
    &&& start_addr + image.len() <= ADDR_MAX
    &&& kernel_reserve(container_count) <= mem_len
    &&& image.len() >= HEADER_BYTES
    &&& layout_fits(info, image, initial_kernel_offset(mem_len, container_count))
    &&& code_base_of(start_addr, info) + info.entry_loc <= ADDR_MAX
}

impl Process {
    /// Loads the application `image`, found in flash at `start_addr`, into
    /// `memory` (RAM at address `mem_start`) with `container_count`
    /// container slots, and makes it a process that will enter the image's
    /// entry point when first scheduled. `None` if the image does not fit.
    pub fn create(start_addr: u32, image: Vec<u8>, mem_start: u32, memory: Vec<u8>, container_count: u32) -> (r: Option<Process>)
        ensures
            r.is_some() == loadable(start_addr as int, image@, mem_start as int, memory@.len() as int, container_count as int),
            r.is_some() ==> {
                let p = r.unwrap();
                let info = load_info_of(image@);
                let mem_len = memory@.len() as int;
                let kernel_off = initial_kernel_offset(mem_len, container_count as int);
                let code_base = code_base_of(start_addr as int, info);
                let app_start = app_mem_start_of(mem_start as int, info);
                let brk = app_start + STACK_SIZE;
                &&& p.wf()
                &&& p.mem_start_spec() == mem_start
                &&& p.memory_spec() == loaded_memory(
                    fill_zero(memory@, mem_len - WORD_BYTES * container_count, mem_len),
                    image@, info, mem_start, code_base as u32)
                &&& p.container_count_spec() == container_count
                &&& p.app_break_spec() == brk
                &&& p.cur_stack_spec() == brk
                &&& p.kernel_break_spec() == mem_start + kernel_off
                &&& p.text_spec() == image@
                &&& p.text_start_spec() == start_addr
                &&& p.yield_pc_spec() == 0
                &&& p.psr_spec() == INITIAL_PSR
                &&& p.state_spec() == State::Yielded
                &&& p.queue_spec()@ == seq![Callback {
                    pc: (code_base + info.entry_loc) as u32,
                    r0: app_start as u32,
                    r1: brk as u32,
                    r2: (mem_start + kernel_off) as u32,
                    r3: 0,
                }]
            },
    {
        let mut memory = memory;
        let mem_len: usize = memory.len();
        if mem_len > ADDR_MAX as usize || image.len() > ADDR_MAX as usize {
            return None;
        }
        if mem_start as u64 + mem_len as u64 > ADDR_MAX as u64 || start_addr as u64 + image.len() as u64 > ADDR_MAX as u64 {
            return None;
        }
        let table: u32 = if (container_count as u64) * (WORD_BYTES as u64) <= mem_len as u64 {
            container_count * WORD_BYTES
        } else {
            return None;
        };
        let reserve: u64 = table as u64 + (CALLBACK_CAPACITY as u64) * (CALLBACK_SLOT_BYTES as u64);
        if reserve > mem_len as u64 {
            return None;
        }
        let kernel_off: u32 = (mem_len as u64 - reserve) as u32;
        let info = match LoadInfo::parse(&image) {
            Some(info) => info,
            None => return None,
        };
        if !check_layout(&info, &image, kernel_off) {
            return None;
        }
        let code_base: u32 = start_addr + (HEADER_BYTES as u32) + info.rel_data_size;
        if code_base as u64 + info.entry_loc as u64 > ADDR_MAX as u64 {
            return None;
        }
        let init_fn: u32 = code_base + info.entry_loc;

        // Container pointers start out null.
        let ghost m0 = memory@;
        let table_start: usize = mem_len - table as usize;
        let mut i: usize = table_start;
        assert(memory@ =~= fill_zero(m0, table_start as int, i as int));
        while i < mem_len
            invariant
                table_start <= i <= mem_len,
                mem_len == memory@.len(),
                memory@ == fill_zero(m0, table_start as int, i as int),
            decreases mem_len - i,
        {
            memory.set(i, 0);
            i = i + 1;
            assert(memory@ =~= fill_zero(m0, table_start as int, i as int));
        }

        load(&info, &image, &mut memory, mem_start, code_base, kernel_off);

        let bss_end: u32 = info.bss_end_offset;
        let app_mem_start: u32 = mem_start + bss_end + (8 - bss_end % 8) % 8;
        let stack_bottom: u32 = app_mem_start + STACK_SIZE;
        let kernel_break: u32 = mem_start + kernel_off;
        let blank = Callback { r0: 0, r1: 0, r2: 0, r3: 0, pc: 0 };
        let mut callbacks = RingBuffer::new(vec![blank; CALLBACK_CAPACITY]);
        let init = Callback { pc: init_fn, r0: app_mem_start, r1: stack_bottom, r2: kernel_break, r3: 0 };
        let queued = callbacks.enqueue(init);
        assert(queued);
        assert(callbacks@ =~= seq![init]);
        let p = Process {
            memory,
            mem_start,
            app_memory_break: stack_bottom,
            kernel_memory_break: kernel_break,
            container_count,
            text: image,
            text_start: start_addr,
            cur_stack: stack_bottom,
            yield_pc: 0,
            psr: INITIAL_PSR,
            state: State::Yielded,
            callbacks,
        };
        Some(p)
    }
}

/// What `brk` to `target` returns for a process with the given layout.
pub open spec fn brk_result(mem_start: int, mem_end: int, kernel_break: int, app_break: int, target: int) -> Result<u32, Error> {
    if target < mem_start || target >= mem_end {
        Err(Error::AddressOutOfBounds)
    } else if target >= kernel_break {
        Err(Error::OutOfMemory)
    } else {
        Ok(app_break as u32)
    }
}

/// `n < 2^j` bounds its logarithm below `j`.
proof fn lemma_log2_floor_below(n: nat, j: nat)
    requires
        n < pow2(j),
        j >= 1,
    ensures
        log2_floor(n) < j,
    decreases n,
{
    lemma_pow2_unfold(j);
    if n >= 2 {
        if j == 1 {
            lemma2_to64();
        } else {
            lemma_log2_floor_below(n / 2, (j - 1) as nat);
        }
    }
}

proof fn lemma_log2_floor_at_least_two(n: nat)
    requires
        n >= 4,
    ensures
        log2_floor(n) >= 2,
{
    assert(log2_floor(n / 2) >= 1);
}

/// Every well-formed process (as `create` makes it and every method keeps
/// it) has its breaks in order inside its memory.
pub proof fn lemma_breaks_ordered(p: Process)
    requires
        p.wf(),
    ensures
        p.mem_start_spec() <= p.app_break_spec() <= p.kernel_break_spec() <= p.mem_end_spec(),
{
}

/// `sbrk(0)` returns the current break and leaves it where it is, as long
/// as the kernel's allocations have left the application any room.
pub proof fn lemma_sbrk_zero(p: Process)
    requires
        p.wf(),
        p.app_break_spec() < p.kernel_break_spec(),
    ensures
        brk_result(p.mem_start_spec(), p.mem_end_spec(), p.kernel_break_spec(), p.app_break_spec(), p.app_break_spec() + 0)
            == Ok::<u32, Error>(p.app_break_spec() as u32),
{
}

/// `brk(mem_end)` fails with `AddressOutOfBounds`.
pub proof fn lemma_brk_mem_end(p: Process)
    requires
        p.wf(),
    ensures
        brk_result(p.mem_start_spec(), p.mem_end_spec(), p.kernel_break_spec(), p.app_break_spec(), p.mem_end_spec())
            == Err::<u32, Error>(Error::AddressOutOfBounds),
{
}

/// `brk(kernel_break)` fails with `OutOfMemory` while the kernel break is
/// below the end of memory (as loading leaves it).
pub proof fn lemma_brk_kernel_break(p: Process)
    requires
        p.wf(),
        p.kernel_break_spec() < p.mem_end_spec(),
    ensures
        brk_result(p.mem_start_spec(), p.mem_end_spec(), p.kernel_break_spec(), p.app_break_spec(), p.kernel_break_spec())
            == Err::<u32, Error>(Error::OutOfMemory),
{
}

} // verus!
