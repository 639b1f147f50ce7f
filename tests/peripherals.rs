use tock::ast::{Ast, ALARM_BIT, ASTALARM_IRQ};
use tock::irq::{handler_for, service_pending_interrupts, Handler, InterruptQueue, Nvic, IQ_SIZE};
use tock::ring_buffer::RingBuffer;
use tock::timer::{timer_base, Location, Timer, TimerAlarm, ALARM_INTERRUPT_BIT, TIMER1_IRQ, TIMER2_IRQ};
use tock::uart::{UARTParams, UART, UART0_IRQ};

#[test]
fn ring_buffer_is_fifo_and_bounded() {
    let mut ring = RingBuffer::new(vec![0u32; 3]);
    assert_eq!(ring.capacity(), 3);
    assert!(!ring.has_elements());
    assert!(ring.enqueue(1));
    assert!(ring.enqueue(2));
    assert!(ring.enqueue(3));
    assert!(ring.is_full());
    assert!(!ring.enqueue(4));
    assert_eq!(ring.dequeue(), Some(1));
    assert!(ring.enqueue(5));
    assert_eq!(ring.dequeue(), Some(2));
    assert_eq!(ring.dequeue(), Some(3));
    assert_eq!(ring.dequeue(), Some(5));
    assert_eq!(ring.dequeue(), None);
    assert_eq!(ring.len(), 0);
}

#[test]
fn top_half_masks_line_and_queues_it() {
    let mut nvic = Nvic::new();
    let mut queue = InterruptQueue::new();
    nvic.enable(39);
    nvic.enable(61);
    assert!(queue.top_half(&mut nvic, 39));
    assert!(queue.top_half(&mut nvic, 61));
    assert!(!nvic.is_enabled(39));
    assert!(!nvic.is_enabled(61));
    assert!(queue.has_pending_interrupts());
    let served = service_pending_interrupts(&mut queue);
    assert_eq!(served, vec![(39, Handler::Ast), (61, Handler::I2c(0))]);
    assert!(!queue.has_pending_interrupts());
    for (line, _) in served {
        nvic.enable(line);
    }
    assert!(nvic.is_enabled(39));
    assert!(nvic.is_enabled(61));
}

#[test]
fn interrupt_queue_overflow_is_reported() {
    let mut nvic = Nvic::new();
    let mut queue = InterruptQueue::new();
    for _ in 0..IQ_SIZE {
        assert!(queue.top_half(&mut nvic, 5));
    }
    assert!(!queue.top_half(&mut nvic, 6));
    assert_eq!(queue.next_interrupt(), Some(5));
}

#[test]
fn interrupt_queue_keeps_up_when_drained() {
    // Bursts of up to the queue's capacity, each drained before the next.
    let mut nvic = Nvic::new();
    let mut queue = InterruptQueue::new();
    for burst in 0..5u32 {
        for i in 0..IQ_SIZE as u32 {
            assert!(queue.top_half(&mut nvic, (burst + i) % 80));
        }
        let served = service_pending_interrupts(&mut queue);
        assert_eq!(served.len(), IQ_SIZE);
        assert_eq!(served[0].0, burst % 80);
    }
}

#[test]
fn sam4l_handler_table() {
    assert_eq!(handler_for(0), Handler::Flash);
    assert_eq!(handler_for(1), Handler::Dma(0));
    assert_eq!(handler_for(6), Handler::Dma(5));
    assert_eq!(handler_for(7), Handler::Unhandled);
    assert_eq!(handler_for(25), Handler::Gpio(0));
    assert_eq!(handler_for(29), Handler::Gpio(1));
    assert_eq!(handler_for(36), Handler::Gpio(2));
    assert_eq!(handler_for(39), Handler::Ast);
    assert_eq!(handler_for(63), Handler::I2c(1));
    assert_eq!(handler_for(77), Handler::I2c(2));
    assert_eq!(handler_for(78), Handler::I2c(3));
    assert_eq!(handler_for(67), Handler::Usart(2));
    assert_eq!(handler_for(68), Handler::Usart(3));
    assert_eq!(handler_for(79), Handler::Unhandled);
}

#[test]
fn timer_base_addresses() {
    assert_eq!(timer_base(Location::TIMER0), 0x4000_8000);
    assert_eq!(timer_base(Location::TIMER2), 0x4000_a000);
}

#[test]
fn timer_compare_registers_are_distinct() {
    let mut t = Timer::new(Location::TIMER2, TIMER2_IRQ);
    t.set_cc0(10);
    t.set_cc1(11);
    t.set_cc2(12);
    t.set_cc3(13);
    assert_eq!((t.get_cc0(), t.get_cc1(), t.get_cc2(), t.get_cc3()), (10, 11, 12, 13));
}

#[test]
fn timer_tasks_and_capture() {
    let mut t = Timer::new(Location::TIMER0, 8);
    t.start();
    assert!(t.registers().running);
    t.stop();
    assert!(!t.registers().running);
    t.set_prescaler(0x3f);
    assert_eq!(t.get_prescaler(), 0xf);
    t.set_shortcuts(0x101);
    assert_eq!(t.get_shortcuts(), 0x101);
    let mut regs = t.registers();
    regs.counter = 1234;
    t.set_registers(regs);
    assert_eq!(t.capture(7), 1234);
    assert_eq!(t.get_cc3(), 1234);
    assert_eq!(t.get_cc0(), 0);
    t.capture_to(1);
    assert_eq!(t.get_cc1(), 1234);
    t.clear();
    assert_eq!(t.registers().counter, 0);
    t.enable_interrupts(0b0101);
    assert_eq!(t.registers().inten, 0x5_0000);
    t.disable_interrupts(0b0001);
    assert_eq!(t.registers().inten, 0x4_0000);
    t.shutdown();
    assert_eq!(t.registers().counter, 0);
}

#[test]
fn timer_interrupt_reports_fired_compares() {
    let mut nvic = Nvic::new();
    let mut t = Timer::new(Location::TIMER0, 8);
    nvic.set_pending(8);
    assert_eq!(t.handle_interrupt(&mut nvic), None);
    assert!(!nvic.is_pending(8));
    t.set_client(4);
    t.enable_nvic(&mut nvic);
    assert!(nvic.is_enabled(8));
    assert_eq!(t.handle_interrupt(&mut nvic), Some((4, 0)));
    let mut regs = t.registers();
    regs.event_compare = [1, 0, 1, 1];
    t.set_registers(regs);
    assert_eq!(t.handle_interrupt(&mut nvic), Some((4, 0b1101)));
    assert_eq!(t.registers().event_compare, [0, 0, 0, 0]);
    t.disable_nvic(&mut nvic);
    assert!(!nvic.is_enabled(8));
}

#[test]
fn alarm_set_and_fire() {
    let mut nvic = Nvic::new();
    let mut alarm = TimerAlarm::new(Location::TIMER1, TIMER1_IRQ);
    alarm.start();
    let regs = alarm.registers();
    assert_eq!((regs.bitmode, regs.prescaler, regs.running), (3, 10, true));
    assert!(!alarm.is_armed());
    alarm.set_alarm(&mut nvic, 5000);
    assert_eq!(alarm.get_alarm(), 5000);
    assert!(alarm.is_armed());
    assert!(alarm.interrupts_enabled());
    let mut regs = alarm.registers();
    regs.counter = 77;
    alarm.set_registers(regs);
    assert_eq!(alarm.now(), 77);
    alarm.set_client(2);
    nvic.set_pending(TIMER1_IRQ);
    assert_eq!(alarm.handle_interrupt(&mut nvic), Some(2));
    assert!(!alarm.is_armed());
    assert!(!nvic.is_pending(TIMER1_IRQ));
    alarm.enable_interrupts();
    assert_eq!(alarm.registers().inten, ALARM_INTERRUPT_BIT);
    alarm.disable();
    assert_eq!(alarm.registers().inten, 0);
    assert_eq!(alarm.value(), 77);
    alarm.clear(&mut nvic);
    assert_eq!(alarm.value(), 0);
    alarm.stop();
    assert!(!alarm.registers().running);
}

#[test]
fn uart_baud_rates() {
    let mut uart = UART::new();
    uart.init(UARTParams { baud_rate: 9600 });
    let regs = uart.registers();
    assert_eq!(regs.baudrate, 0x0027_5000);
    assert_eq!(regs.enable, 0b100);
    assert_eq!((regs.pselrts, regs.pseltxd, regs.pselcts, regs.pselrxd), (8, 9, 10, 11));
    uart.init(UARTParams { baud_rate: 1_000_000 });
    assert_eq!(uart.registers().baudrate, 0x1000_0000);
    uart.init(UARTParams { baud_rate: 1234 });
    assert_eq!(uart.registers().baudrate, 0x01d7_e000);
}

#[test]
fn uart_sends_buffer_from_interrupts() {
    let mut nvic = Nvic::new();
    let mut uart = UART::new();
    uart.set_client(3);
    uart.send_bytes(&mut nvic, vec![b'a', b'b', b'c'], 3);
    assert!(nvic.is_enabled(UART0_IRQ));
    let mut sent = vec![uart.registers().txd as u8];
    assert!(uart.registers().tx_running);
    loop {
        let mut regs = uart.registers();
        regs.event_txdrdy = 1;
        uart.set_registers(regs);
        let events = uart.handle_interrupt();
        assert!(events.read.is_none());
        if let Some((client, buffer)) = events.write_done {
            assert_eq!(client, 3);
            assert_eq!(buffer, vec![b'a', b'b', b'c']);
            break;
        }
        sent.push(uart.registers().txd as u8);
    }
    assert_eq!(sent, vec![b'a', b'b', b'c']);
    assert!(!uart.registers().tx_running);
}

#[test]
fn uart_single_byte_send_completes() {
    let mut nvic = Nvic::new();
    let mut uart = UART::new();
    uart.set_client(1);
    uart.send_bytes(&mut nvic, vec![b'z', b'q'], 1);
    assert_eq!(uart.registers().txd, b'z' as u32);
    let mut regs = uart.registers();
    regs.event_txdrdy = 1;
    uart.set_registers(regs);
    let events = uart.handle_interrupt();
    assert_eq!(events.write_done.map(|(c, b)| (c, b.len())), Some((1, 2)));
}

#[test]
fn uart_receives_byte() {
    let mut uart = UART::new();
    uart.set_client(9);
    uart.enable_rx();
    uart.enable_rx_interrupts();
    assert_eq!(uart.registers().inten, 0x8);
    let mut regs = uart.registers();
    regs.event_rxdrdy = 1;
    regs.rxd = 0x141;
    uart.set_registers(regs);
    assert!(uart.rx_ready());
    let events = uart.handle_interrupt();
    assert_eq!(events.read, Some((9, 0x41)));
    assert!(events.write_done.is_none());
    uart.disable_rx_interrupts();
    assert_eq!(uart.registers().inten, 0);
}

#[test]
fn ast_alarm() {
    let mut nvic = Nvic::new();
    let mut ast = Ast::new();
    ast.configure(&mut nvic, 6);
    assert_eq!(ast.registers().clock, (1 << 8) | 1);
    assert_eq!(ast.registers().wer, ALARM_BIT);
    assert!(!ast.is_armed());
    ast.set_alarm(&mut nvic, 300);
    assert_eq!(ast.get_alarm(), 300);
    assert!(ast.is_armed());
    assert!(nvic.is_enabled(ASTALARM_IRQ));
    assert_eq!(ast.registers().imr, ALARM_BIT);
    let mut regs = ast.registers();
    regs.sr |= ALARM_BIT;
    regs.cv = 300;
    ast.set_registers(regs);
    assert_eq!(ast.now(), 300);
    nvic.set_pending(ASTALARM_IRQ);
    assert_eq!(ast.handle_interrupt(&mut nvic), Some(6));
    assert_eq!(ast.registers().sr & ALARM_BIT, 0);
    assert!(!nvic.is_pending(ASTALARM_IRQ));
    ast.set_prescalar(3);
    assert_eq!(ast.registers().cr >> 16, 3);
    ast.set_counter(5);
    assert_eq!(ast.get_counter(), 5);
    ast.disable();
    assert!(!ast.is_enabled());
    ast.set_periodic_interval(9);
    assert_eq!(ast.registers().pir0, 9);
}
