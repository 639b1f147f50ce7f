use vstd::prelude::*;
use crate::irq::Nvic;

verus! {

/// Address of the UART's register block.
pub const UART_BASE: u32 = 0x4000_2000;

/// Interrupt line of the UART.
pub const UART0_IRQ: u32 = 2;

/// Interrupt-enable bits of the receive-ready and transmit-ready events.
pub const RXDRDY_BIT: u32 = 0x8;
pub const TXDRDY_BIT: u32 = 0x80;

/// Value of the enable register that turns the UART on.
pub const UART_ENABLE: u32 = 0b100;

/// Pins of RTS, TX, CTS and RX.
pub const PIN_RTS: u32 = 8;
pub const PIN_TXD: u32 = 9;
pub const PIN_CTS: u32 = 10;
pub const PIN_RXD: u32 = 11;

/// The state behind the UART's registers.
#[derive(Copy, Clone, PartialEq, Eq, Structural, Debug)]
pub struct Registers {
    pub rx_running: bool,
    pub tx_running: bool,
    pub event_rxdrdy: u32,
    pub event_txdrdy: u32,
    pub inten: u32,
    pub enable: u32,
    pub pselrts: u32,
    pub pseltxd: u32,
    pub pselcts: u32,
    pub pselrxd: u32,
    pub rxd: u32,
    pub txd: u32,
    pub baudrate: u32,
}

#[derive(Copy, Clone, PartialEq, Eq, Structural, Debug)]
pub struct UARTParams {
    pub baud_rate: u32,
}

/// The baud-rate register value for `baud_rate`; unsupported rates get
/// the value for 115200.
pub open spec fn baud_register(baud_rate: u32) -> u32 {
    if baud_rate == 1200 {
        0x0004_F000
    } else if baud_rate == 2400 {
        0x0009_D000
    } else if baud_rate == 4800 {
        0x0013_B000
    } else if baud_rate == 9600 {
        0x0027_5000
    } else if baud_rate == 14400 {
        0x003B_0000
    } else if baud_rate == 19200 {
        0x004E_A000
    } else if baud_rate == 28800 {
        0x0075_F000
    } else if baud_rate == 38400 {
        0x009D_5000
    } else if baud_rate == 57600 {
        0x00EB_F000
    } else if baud_rate == 76800 {
        0x013A_9000
    } else if baud_rate == 115200 {
        0x01D7_E000
    } else if baud_rate == 230400 {
        0x03AF_B000
    } else if baud_rate == 250000 {
        0x0400_0000
    } else if baud_rate == 460800 {
        0x075F_7000
    } else if baud_rate == 1000000 {
        0x1000_0000
    } else {
        0x01D7_E000
    }
}

/// What a UART interrupt produced for the client: a received byte, and
/// the buffer of a finished transmission.
pub struct UartEvents {
    pub read: Option<(usize, u8)>,
    pub write_done: Option<(usize, Vec<u8>)>,
}

/// The nRF51 UART, sending buffers byte by byte from its interrupt.
pub struct UART {
    regs: Registers,
    client: Option<usize>,
    buffer: Option<Vec<u8>>,
    len: usize,
    index: usize,
}

impl UART {
    pub closed spec fn regs_spec(&self) -> Registers {
        self.regs
    }

    pub closed spec fn client_spec(&self) -> Option<usize> {
        self.client
    }

    /// The bytes being sent, if a send is in progress.
    pub closed spec fn buffer_spec(&self) -> Option<Seq<u8>> {
        match self.buffer {
            Some(b) => Some(b@),
            None => None,
        }
    }

    pub closed spec fn len_spec(&self) -> int {
        self.len as int
    }

    pub closed spec fn index_spec(&self) -> int {
        self.index as int
    }

    /// During a send, the next byte to send lies in the buffer.
    pub open spec fn wf(&self) -> bool {
        self.buffer_spec() matches Some(b) ==> self.index_spec() <= self.len_spec() <= b.len()
    }

    pub fn new() -> (r: UART)
        ensures
            r.wf(),
            r.client_spec().is_none(),
            r.buffer_spec().is_none(),
            r.regs_spec() == UART::reset_spec(),
    {
        UART {
            regs: Registers {
                rx_running: false,
                tx_running: false,
                event_rxdrdy: 0,
                event_txdrdy: 0,
                inten: 0,
                enable: 0,
                pselrts: 0,
                pseltxd: 0,
                pselcts: 0,
                pselrxd: 0,
                rxd: 0,
                txd: 0,
                baudrate: 0,
            },
            client: None,
            buffer: None,
            len: 0,
            index: 0,
        }
    }

    pub closed spec fn reset_spec() -> Registers {
        Registers {
            rx_running: false,
            tx_running: false,
            event_rxdrdy: 0,
            event_txdrdy: 0,
            inten: 0,
            enable: 0,
            pselrts: 0,
            pseltxd: 0,
            pselcts: 0,
            pselrxd: 0,
            rxd: 0,
            txd: 0,
            baudrate: 0,
        }
    }

    pub fn registers(&self) -> (r: Registers)
        ensures
            r == self.regs_spec(),
    {
        self.regs
    }

    /// The peripheral's side: what it changed in its registers.
    pub fn set_registers(&mut self, regs: Registers)
        requires
            old(self).wf(),
        ensures
            final(self).wf(),
            final(self).regs_spec() == regs,
            final(self).same_state(old(self)),
    {
        self.regs = regs;
    }

    /// The same client and send in progress as `other`.
    pub open spec fn same_state(&self, other: &UART) -> bool {
        &&& self.client_spec() == other.client_spec()
        &&& self.buffer_spec() == other.buffer_spec()
        &&& self.len_spec() == other.len_spec()
        &&& self.index_spec() == other.index_spec()
    }

    fn configure(&mut self, baud_rate: u32)
        requires
            old(self).wf(),
        ensures
            final(self).wf(),
            final(self).same_state(old(self)),
            final(self).regs_spec() == (Registers {
                enable: UART_ENABLE,
                baudrate: baud_register(baud_rate),
                pselrts: PIN_RTS,
                pseltxd: PIN_TXD,
                pselcts: PIN_CTS,
                pselrxd: PIN_RXD,
                ..old(self).regs_spec()
            }),
    {
        self.regs.enable = UART_ENABLE;
        self.set_baud_rate(baud_rate);
        self.regs.pselrts = PIN_RTS;
        self.regs.pseltxd = PIN_TXD;
        self.regs.pselcts = PIN_CTS;
        self.regs.pselrxd = PIN_RXD;
    }

    /// Configures the UART for `params`.
    pub fn init(&mut self, params: UARTParams)
        requires
            old(self).wf(),
        ensures
            final(self).wf(),
            final(self).same_state(old(self)),
            final(self).regs_spec() == (Registers {
                enable: UART_ENABLE,
                baudrate: baud_register(params.baud_rate),
                pselrts: PIN_RTS,
                pseltxd: PIN_TXD,
                pselcts: PIN_CTS,
                pselrxd: PIN_RXD,
                ..old(self).regs_spec()
            }),
    {
        self.configure(params.baud_rate);
    }

    pub fn set_client(&mut self, client: usize)
        requires
            old(self).wf(),
        ensures
            final(self).wf(),
            final(self).client_spec() == Some(client),
            final(self).regs_spec() == old(self).regs_spec(),
            final(self).buffer_spec() == old(self).buffer_spec(),
            final(self).len_spec() == old(self).len_spec(),
            final(self).index_spec() == old(self).index_spec(),
    {
        self.client = Some(client);
    }

    fn set_baud_rate(&mut self, baud_rate: u32)
        requires
            old(self).wf(),
        ensures
            final(self).wf(),
            final(self).same_state(old(self)),
            final(self).regs_spec() == (Registers { baudrate: baud_register(baud_rate), ..old(self).regs_spec() }),
    {
        self.regs.baudrate = match baud_rate {
            1200 => 0x0004_F000,
            2400 => 0x0009_D000,
            4800 => 0x0013_B000,
            9600 => 0x0027_5000,
            14400 => 0x003B_0000,
            19200 => 0x004E_A000,
            28800 => 0x0075_F000,
            38400 => 0x009D_5000,
            57600 => 0x00EB_F000,
            76800 => 0x013A_9000,
            115200 => 0x01D7_E000,
            230400 => 0x03AF_B000,
            250000 => 0x0400_0000,
            460800 => 0x075F_7000,
            1000000 => 0x1000_0000,
            _ => 0x01D7_E000,
        };
    }

    pub fn enable_nvic(&self, nvic: &mut Nvic)
        requires
            old(nvic).wf(),
        ensures
            final(nvic).wf(),
            final(nvic).enabled_spec() == old(nvic).enabled_spec().update(UART0_IRQ as int, true),
            final(nvic).pending_spec() == old(nvic).pending_spec(),
    {
        nvic.enable(UART0_IRQ);
    }

    pub fn disable_nvic(&self, nvic: &mut Nvic)
        requires
            old(nvic).wf(),
        ensures
            final(nvic).wf(),
            final(nvic).enabled_spec() == old(nvic).enabled_spec().update(UART0_IRQ as int, false),
            final(nvic).pending_spec() == old(nvic).pending_spec(),
    {
        nvic.disable(UART0_IRQ);
    }

    pub fn enable_rx_interrupts(&mut self)
        requires
            old(self).wf(),
        ensures
            final(self).wf(),
            final(self).same_state(old(self)),
            final(self).regs_spec() == (Registers { inten: old(self).regs_spec().inten | RXDRDY_BIT, ..old(self).regs_spec() }),
    {
        self.regs.inten = self.regs.inten | RXDRDY_BIT;
    }

    pub fn enable_tx_interrupts(&mut self)
        requires
            old(self).wf(),
        ensures
            final(self).wf(),
            final(self).same_state(old(self)),
            final(self).regs_spec() == (Registers { inten: old(self).regs_spec().inten | TXDRDY_BIT, ..old(self).regs_spec() }),
    {
        self.regs.inten = self.regs.inten | TXDRDY_BIT;
    }

    pub fn disable_rx_interrupts(&mut self)
        requires
            old(self).wf(),
        ensures
            final(self).wf(),
            final(self).same_state(old(self)),
            final(self).regs_spec() == (Registers { inten: old(self).regs_spec().inten & !RXDRDY_BIT, ..old(self).regs_spec() }),
    {
        self.regs.inten = self.regs.inten & !RXDRDY_BIT;
    }

    pub fn disable_tx_interrupts(&mut self)
        requires
            old(self).wf(),
        ensures
            final(self).wf(),
            final(self).same_state(old(self)),
            final(self).regs_spec() == (Registers { inten: old(self).regs_spec().inten & !TXDRDY_BIT, ..old(self).regs_spec() }),
    {
        self.regs.inten = self.regs.inten & !TXDRDY_BIT;
    }

    pub fn rx_ready(&self) -> (r: bool)
        ensures
            r == (self.regs_spec().event_rxdrdy & 1 != 0),
    {
        self.regs.event_rxdrdy & 1 != 0
    }

    pub fn tx_ready(&self) -> (r: bool)
        ensures
            r == (self.regs_spec().event_txdrdy == 1),
    {
        self.regs.event_txdrdy == 1
    }

    pub fn enable_rx(&mut self)
        requires
            old(self).wf(),
        ensures
            final(self).wf(),
            final(self).same_state(old(self)),
            final(self).regs_spec() == (Registers { rx_running: true, ..old(self).regs_spec() }),
    {
        self.regs.rx_running = true;
    }

    pub fn disable_rx(&mut self)
        requires
            old(self).wf(),
        ensures
            final(self).wf(),
            final(self).same_state(old(self)),
            final(self).regs_spec() == (Registers { rx_running: false, ..old(self).regs_spec() }),
    {
        self.regs.rx_running = false;
    }

    pub fn enable_tx(&mut self)
        requires
            old(self).wf(),
        ensures
            final(self).wf(),
            final(self).same_state(old(self)),
            final(self).regs_spec() == (Registers { tx_running: true, ..old(self).regs_spec() }),
    {
        self.regs.tx_running = true;
    }

    pub fn disable_tx(&mut self)
        requires
            old(self).wf(),
        ensures
            final(self).wf(),
            final(self).same_state(old(self)),
            final(self).regs_spec() == (Registers { tx_running: false, ..old(self).regs_spec() }),
    {
        self.regs.tx_running = false;
    }

    /// Starts sending the first `len` bytes of `bytes` from the interrupt:
    /// the first byte goes out now, the UART keeps the buffer. Nothing
    /// happens for `len == 0`.
    pub fn send_bytes(&mut self, nvic: &mut Nvic, bytes: Vec<u8>, len: usize)
        requires
            old(self).wf(),
            old(nvic).wf(),
            len <= bytes@.len(),
        ensures
            final(self).wf(),
            final(nvic).wf(),
            final(self).client_spec() == old(self).client_spec(),
            len == 0 ==> *final(self) == *old(self) && *final(nvic) == *old(nvic),
            len > 0 ==> {
                &&& final(self).buffer_spec() == Some(bytes@)
                &&& final(self).len_spec() == len
                &&& final(self).index_spec() == 1
                &&& final(self).regs_spec() == (Registers {
                    event_txdrdy: 0,
                    inten: old(self).regs_spec().inten | TXDRDY_BIT,
                    tx_running: true,
                    txd: bytes@[0] as u32,
                    ..old(self).regs_spec()
                })
                &&& final(nvic).enabled_spec() == old(nvic).enabled_spec().update(UART0_IRQ as int, true)
                &&& final(nvic).pending_spec() == old(nvic).pending_spec()
            },
    {
        if len == 0 {
            return;
        }
        let first = bytes[0];
        self.buffer = Some(bytes);
        self.index = 1;
        self.len = len;
        self.regs.event_txdrdy = 0;
        self.enable_tx_interrupts();
        self.regs.tx_running = true;
        self.regs.txd = first as u32;
        self.enable_nvic(nvic);
    }

    /// Serves a UART interrupt. A received byte goes to the client. On
    /// transmit-ready, the send either ends (transmitter stopped, buffer
    /// back to the client) once all `len` bytes went out, or the next byte
    /// goes out.
    pub fn handle_interrupt(&mut self) -> (r: UartEvents)
        requires
            old(self).wf(),
        ensures
            final(self).wf(),
            final(self).client_spec() == old(self).client_spec(),
            ({
                let regs = old(self).regs_spec();
                let rx = regs.event_rxdrdy != 0;
                let tx = regs.event_txdrdy != 0;
                &&& r.read == if rx && old(self).client_spec().is_some() {
                    Some((old(self).client_spec().unwrap(), regs.rxd as u8))
                } else {
                    None
                }
                &&& !tx ==> r.write_done.is_none() && *final(self) == *old(self)
                &&& tx && old(self).len_spec() == old(self).index_spec() ==> {
                    &&& final(self).regs_spec() == (Registers { event_txdrdy: 0, tx_running: false, ..regs })
                    &&& if old(self).client_spec().is_some() && old(self).buffer_spec().is_some() {
                        &&& r.write_done.is_some()
                        &&& r.write_done.unwrap().0 == old(self).client_spec().unwrap()
                        &&& r.write_done.unwrap().1@ == old(self).buffer_spec().unwrap()
                        &&& final(self).buffer_spec().is_none()
                    } else {
                        r.write_done.is_none() && final(self).buffer_spec() == old(self).buffer_spec()
                    }
                    &&& final(self).index_spec() == old(self).index_spec()
                }
                &&& tx && old(self).len_spec() != old(self).index_spec() ==> {
                    &&& r.write_done.is_none()
                    &&& final(self).buffer_spec() == old(self).buffer_spec()
                    &&& final(self).len_spec() == old(self).len_spec()
                    &&& if old(self).buffer_spec().is_some() {
                        &&& final(self).regs_spec() == (Registers {
                            event_txdrdy: 0,
                            txd: old(self).buffer_spec().unwrap()[old(self).index_spec()] as u32,
                            ..regs
                        })
                        &&& final(self).index_spec() == old(self).index_spec() + 1
                    } else {
                        &&& final(self).regs_spec() == (Registers { event_txdrdy: 0, ..regs })
                        &&& final(self).index_spec() == old(self).index_spec()
                    }
                }
            }),
    {
        let rx = self.regs.event_rxdrdy != 0;
        let tx = self.regs.event_txdrdy != 0;
        let mut events = UartEvents { read: None, write_done: None };
        if rx {
            let val = self.regs.rxd;
            events.read = match self.client {
                Some(client) => Some((client, #[verifier::truncate] (val as u8))),
                None => None,
            };
        }
        if tx {
            self.regs.event_txdrdy = 0;
            if self.len == self.index {
                self.regs.tx_running = false;
                match self.client {
                    Some(client) => {
                        match self.buffer.take() {
                            Some(buffer) => {
                                events.write_done = Some((client, buffer));
                            },
                            None => {},
                        }
                    },
                    None => {},
                }
                return events;
            }
            match &self.buffer {
                Some(buffer) => {
                    let b = buffer[self.index];
                    self.regs.txd = b as u32;
                    self.index = self.index + 1;
                },
                None => {},
            }
        }
        events
    }
}

} // verus!
