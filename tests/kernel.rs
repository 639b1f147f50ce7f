use tock::process::{Callback, Error, Process, State, INITIAL_PSR};
use tock::sched::{handle_syscall, next_step, schedule, Dispatch, Step, ERR_RANGE, ERR_UNKNOWN_SUBTYPE};

const FLASH: u32 = 0x0003_0000;
const RAM: u32 = 0x2000_0000;
const RAM_LEN: usize = 4096;
const HEADER: usize = 36;

fn put(image: &mut Vec<u8>, off: usize, v: u32) {
    image[off..off + 4].copy_from_slice(&v.to_le_bytes());
}

/// An image with no relocations whose code holds supervisor calls at odd
/// offsets: yield at 1, memop at 3, subscribe at 5, command at 7, allow at 9.
fn image(init_blob: &[u8], bss_start: u32, bss_end: u32) -> Vec<u8> {
    let code: Vec<u8> = vec![0, 1, 0xdf, 0, 0xdf, 2, 0xdf, 3, 0xdf, 4, 0xdf, 0, 0, 0, 0, 0];
    let mut image = vec![0u8; HEADER];
    put(&mut image, 0, (HEADER + code.len() + init_blob.len()) as u32);
    put(&mut image, 4, 0);
    put(&mut image, 8, 1);
    put(&mut image, 12, code.len() as u32);
    put(&mut image, 16, init_blob.len() as u32);
    put(&mut image, 20, 0);
    put(&mut image, 24, 0);
    put(&mut image, 28, bss_start);
    put(&mut image, 32, bss_end);
    image.extend_from_slice(&code);
    image.extend_from_slice(init_blob);
    image
}

/// The saved PC of a process trapped on the instruction at code offset `k`.
fn trap_pc(k: u32) -> u32 {
    FLASH + HEADER as u32 + k + 2
}

fn process() -> Process {
    Process::create(FLASH, image(&[7u8; 16], 16, 32), RAM, vec![0xaau8; RAM_LEN], 2).unwrap()
}

/// Makes the process look as if it trapped on the instruction at `k` with
/// the given registers.
fn trap(p: &mut Process, k: u32, r0: u32, r1: u32, r2: u32, r3: u32) {
    p.set_state(State::Running);
    p.push_callback(Callback { r0, r1, r2, r3, pc: trap_pc(k) });
}

fn word(p: &Process, addr: u32) -> u32 {
    let off = (addr - p.mem_start()) as usize;
    u32::from_le_bytes(p.memory()[off..off + 4].try_into().unwrap())
}

#[test]
fn loader_copies_init_data_and_zeroes_bss() {
    let blob: Vec<u8> = (0..0x40u32).map(|i| (i as u8) ^ 0x5a).collect();
    let p = Process::create(FLASH, image(&blob, 0x40, 0x80), RAM, vec![0xaau8; RAM_LEN], 2).unwrap();
    assert_eq!(&p.memory()[0..0x40], &blob[..]);
    assert!(p.memory()[0x40..0x80].iter().all(|b| *b == 0));
    assert_eq!(p.memory()[0x80], 0xaa);
    let mut p = p;
    let init = p.dequeue_callback().unwrap();
    assert_eq!(init.r0, RAM + 0x80);
    assert_eq!(init.r0 % 8, 0);
    assert_eq!(init.r1, RAM + 0x80 + 512);
    assert_eq!(init.pc, FLASH + HEADER as u32 + 1);
    assert_eq!(init.r3, 0);
}

#[test]
fn loader_reserves_kernel_memory_and_queues_one_callback() {
    let mut p = process();
    assert_eq!(p.state(), State::Yielded);
    assert_eq!(p.pending_count(), 1);
    assert_eq!(p.kernel_break(), RAM + RAM_LEN as u32 - 2 * 4 - 10 * 24);
    assert_eq!(p.app_break(), RAM + 32 + 512);
    assert_eq!(p.cur_stack(), p.app_break());
    assert_eq!(p.psr(), INITIAL_PSR);
    assert!(p.memory()[RAM_LEN - 8..].iter().all(|b| *b == 0));
    let init = p.dequeue_callback().unwrap();
    assert_eq!(init.r2, p.kernel_break());
    assert!(p.dequeue_callback().is_none());
}

#[test]
fn loader_fixes_up_got_entries() {
    let mut img = image(&[0u8; 16], 16, 32);
    put(&mut img, 20, 0);
    put(&mut img, 24, 8);
    let blob_at = img.len() - 16;
    put(&mut img, blob_at, 0x10);
    put(&mut img, blob_at + 4, 0x8000_0004);
    let p = Process::create(FLASH, img, RAM, vec![0u8; RAM_LEN], 0).unwrap();
    assert_eq!(word(&p, RAM), RAM + 0x10);
    assert_eq!(word(&p, RAM + 4), FLASH + HEADER as u32 + 4);
}

#[test]
fn loader_refuses_image_that_does_not_fit() {
    assert!(Process::create(FLASH, image(&[0u8; 16], 16, 4000), RAM, vec![0u8; RAM_LEN], 2).is_none());
    assert!(Process::create(FLASH, vec![0u8; 10], RAM, vec![0u8; RAM_LEN], 2).is_none());
    assert!(Process::create(FLASH, image(&[0u8; 16], 16, 32), RAM, vec![0u8; 100], 2).is_none());
}

#[test]
fn sbrk_zero_returns_current_break() {
    let mut p = process();
    let brk = p.app_break();
    assert_eq!(p.sbrk(0), Ok(brk));
    assert_eq!(p.app_break(), brk);
}

#[test]
fn brk_to_mem_end_is_out_of_bounds() {
    let mut p = process();
    let end = p.mem_end();
    assert_eq!(p.brk(end), Err(Error::AddressOutOfBounds));
    assert_eq!(p.brk(RAM - 1), Err(Error::AddressOutOfBounds));
}

#[test]
fn brk_to_kernel_break_is_out_of_memory() {
    let mut p = process();
    let kb = p.kernel_break();
    let brk = p.app_break();
    assert_eq!(p.brk(kb), Err(Error::OutOfMemory));
    assert_eq!(p.app_break(), brk);
    assert_eq!(p.brk(kb - 1), Ok(brk));
    assert_eq!(p.app_break(), kb - 1);
}

#[test]
fn sbrk_refused_at_kernel_break() {
    let mut p = process();
    while p.app_break() < p.kernel_break() - 4 {
        assert!(p.sbrk(4).is_ok());
    }
    assert_eq!(p.app_break(), p.kernel_break() - 4);
    assert_eq!(p.sbrk(8), Err(Error::OutOfMemory));
    assert_eq!(p.app_break(), p.kernel_break() - 4);
}

#[test]
fn memop_sbrk_refused_writes_minus_one() {
    let mut p = process();
    let kb = p.kernel_break();
    let target = kb - 4;
    let delta = target - p.app_break();
    trap(&mut p, 3, 1, delta, 0, 0);
    assert_eq!(handle_syscall(&mut p, true), Dispatch::Continue);
    assert_eq!(p.r0(), target);
    assert_eq!(p.app_break(), target);
    trap(&mut p, 3, 1, 8, 0, 0);
    assert_eq!(handle_syscall(&mut p, true), Dispatch::Continue);
    assert_eq!(p.r0(), ERR_RANGE);
    assert_eq!(p.app_break(), target);
}

#[test]
fn memop_brk_and_unknown_subtype() {
    let mut p = process();
    let new_break = p.app_break() + 64;
    trap(&mut p, 3, 0, new_break, 0, 0);
    assert_eq!(handle_syscall(&mut p, true), Dispatch::Continue);
    assert_eq!(p.r0(), 0);
    assert_eq!(p.app_break(), new_break);
    let end = p.mem_end();
    trap(&mut p, 3, 0, end, 0, 0);
    handle_syscall(&mut p, true);
    assert_eq!(p.r0(), ERR_RANGE);
    trap(&mut p, 3, 7, 0, 0, 0);
    handle_syscall(&mut p, true);
    assert_eq!(p.r0(), ERR_UNKNOWN_SUBTYPE);
}

#[test]
fn allocate_lowers_kernel_break_until_it_meets_app_break() {
    let mut p = process();
    let kb = p.kernel_break();
    assert_eq!(p.allocate(16), Some(kb - 16));
    assert_eq!(p.kernel_break(), kb - 16);
    let room = p.kernel_break() - p.app_break();
    assert_eq!(p.allocate(room + 1), None);
    assert_eq!(p.kernel_break(), kb - 16);
    assert_eq!(p.allocate(room), Some(p.app_break()));
}

#[test]
fn container_allocated_once() {
    let mut p = process();
    let kb = p.kernel_break();
    let init = vec![1u8, 2, 3, 4, 5, 6, 7, 8];
    let slot = p.container_for(1);
    assert_eq!(slot, p.mem_end() - 8);
    let first = p.container_for_or_alloc(1, &init).unwrap();
    assert_eq!(first, kb - 8);
    assert_eq!(word(&p, slot), first);
    let off = (first - RAM) as usize;
    assert_eq!(&p.memory()[off..off + 8], &init[..]);
    assert_eq!(p.container_for_or_alloc(1, &init), Some(first));
    assert_eq!(p.kernel_break(), kb - 8);
}

#[test]
fn in_exposed_bounds_checks_whole_range() {
    let p = process();
    assert!(p.in_exposed_bounds(RAM, RAM_LEN as u32));
    assert!(!p.in_exposed_bounds(RAM, RAM_LEN as u32 + 1));
    assert!(!p.in_exposed_bounds(RAM - 1, 1));
    assert!(p.in_exposed_bounds(RAM + 100, 0));
}

#[test]
fn memory_regions_encode_text_size() {
    let p = process();
    let (data_start, data_len, text_start, text_len) = p.memory_regions();
    assert_eq!(data_start, RAM);
    assert_eq!(data_len, 12);
    assert_eq!(text_start, FLASH);
    // The image is 68 bytes: floor(log2(68)) = 6.
    assert_eq!(text_len, 5);
}

#[test]
fn push_callback_then_pop_restores_stack_and_status() {
    let mut p = process();
    let sp = p.cur_stack();
    let psr = p.psr();
    let cb = Callback { r0: 1, r1: 2, r2: 3, r3: 4, pc: 0x100 };
    p.push_callback(cb);
    assert_eq!(p.cur_stack(), sp - 32);
    assert_eq!((p.r0(), p.r1(), p.r2(), p.r3()), (1, 2, 3, 4));
    assert_eq!(p.lr(), 1);
    p.pop_syscall_stack();
    assert_eq!(p.cur_stack(), sp);
    assert_eq!(p.psr(), psr);
    assert_eq!(p.yield_pc(), 0x101);
}

#[test]
fn callbacks_delivered_in_order() {
    let mut p = process();
    assert_eq!(next_step(&mut p, false, false, 10000), Step::CallbackPushed);
    assert!(matches!(next_step(&mut p, false, false, 10000), Step::RunUser(_)));
    assert!(p.enqueue_callback(Callback { r0: 10, r1: 11, r2: 12, r3: 13, pc: 0x200 }));
    assert!(p.enqueue_callback(Callback { r0: 20, r1: 21, r2: 22, r3: 23, pc: 0x300 }));
    // The process yields.
    trap(&mut p, 1, 0, 0, 0, 0);
    assert_eq!(handle_syscall(&mut p, true), Dispatch::Continue);
    assert_eq!(p.state(), State::Yielded);
    assert_eq!(next_step(&mut p, false, false, 10000), Step::CallbackPushed);
    assert_eq!(p.state(), State::Running);
    assert_eq!((p.r0(), p.r1(), p.r2(), p.r3()), (10, 11, 12, 13));
    assert_eq!(p.lr(), trap_pc(1) | 1);
    // The first callback returns and the process yields again.
    p.set_state(State::Running);
    trap(&mut p, 1, 0, 0, 0, 0);
    handle_syscall(&mut p, true);
    assert_eq!(next_step(&mut p, false, false, 10000), Step::CallbackPushed);
    assert_eq!((p.r0(), p.r1(), p.r2(), p.r3()), (20, 21, 22, 23));
    assert_eq!(p.pending_count(), 0);
}

#[test]
fn yielded_process_without_callbacks_is_idle() {
    let mut p = process();
    p.dequeue_callback();
    assert_eq!(next_step(&mut p, false, false, 10000), Step::Idle);
    assert_eq!(p.state(), State::Yielded);
}

#[test]
fn preempted_when_interrupts_pending_or_quantum_spent() {
    let mut p = process();
    next_step(&mut p, false, false, 10000);
    assert_eq!(p.state(), State::Running);
    assert_eq!(next_step(&mut p, true, false, 10000), Step::Preempted);
    assert_eq!(next_step(&mut p, false, true, 10000), Step::Preempted);
    assert_eq!(next_step(&mut p, false, false, 500), Step::Preempted);
    assert!(matches!(next_step(&mut p, false, false, 501), Step::RunUser(_)));
    // The time slice expires without a syscall.
    assert_eq!(handle_syscall(&mut p, false), Dispatch::Stop);
    assert_eq!(p.state(), State::Running);
}

#[test]
fn syscall_with_stack_below_memory_is_fatal() {
    let mut p = process();
    next_step(&mut p, false, false, 10000);
    p.set_cur_stack(RAM - 64);
    assert_eq!(handle_syscall(&mut p, true), Dispatch::Fault);
    assert_eq!(next_step(&mut p, false, false, 10000), Step::Fault);
}

#[test]
fn driver_syscalls_are_handed_out() {
    let mut p = process();
    trap(&mut p, 5, 1, 2, 3, 4);
    assert_eq!(
        handle_syscall(&mut p, true),
        Dispatch::Subscribe { driver: 1, subdriver: 2, callback_ptr: 3, appdata: 4 }
    );
    trap(&mut p, 7, 5, 6, 7, 0);
    assert_eq!(handle_syscall(&mut p, true), Dispatch::Command { driver: 5, command: 6, arg: 7 });
    trap(&mut p, 9, 1, 0, RAM + 16, 16);
    assert_eq!(
        handle_syscall(&mut p, true),
        Dispatch::Allow { driver: 1, allow_num: 0, start: RAM + 16, len: 16 }
    );
    trap(&mut p, 9, 1, 0, RAM + 16, RAM_LEN as u32);
    assert_eq!(handle_syscall(&mut p, true), Dispatch::Continue);
    assert_eq!(p.r0(), ERR_RANGE);
    p.set_r0(-5);
    assert_eq!(p.r0(), 0xffff_fffb);
}

#[test]
fn schedule_posts_to_live_processes_only() {
    let mut procs = vec![Some(process()), None];
    let cb = Callback { r0: 1, r1: 0, r2: 0, r3: 0, pc: 0x400 };
    assert!(schedule(&mut procs, cb, 0));
    assert!(!schedule(&mut procs, cb, 1));
    assert!(!schedule(&mut procs, cb, 5));
    let p = procs[0].as_mut().unwrap();
    assert_eq!(p.pending_count(), 2);
    p.dequeue_callback();
    assert_eq!(p.dequeue_callback(), Some(cb));
    for _ in 0..10 {
        assert!(schedule(&mut procs, cb, 0));
    }
    assert!(!schedule(&mut procs, cb, 0));
    assert_eq!(procs[0].as_ref().unwrap().pending_count(), 10);
}

#[test]
fn sbrk_zero_refused_once_kernel_reaches_break() {
    let mut p = process();
    let room = p.kernel_break() - p.app_break();
    assert!(p.allocate(room).is_some());
    assert_eq!(p.kernel_break(), p.app_break());
    assert_eq!(p.sbrk(0), Err(Error::OutOfMemory));
}
