use vstd::prelude::*;

verus! {

/// Bit order of SPI transfers.
#[derive(Copy, Clone, PartialEq, Eq, Structural, Debug)]
pub enum DataOrder {
    MSBFirst,
    LSBFirst,
}

/// Level of the SPI clock between transfers.
#[derive(Copy, Clone, PartialEq, Eq, Structural, Debug)]
pub enum ClockPolarity {
    IdleLow,
    IdleHigh,
}

/// Clock edge on which SPI data is sampled.
#[derive(Copy, Clone, PartialEq, Eq, Structural, Debug)]
pub enum ClockPhase {
    SampleLeading,
    SampleTrailing,
}

/// Receives the buffers of a finished SPI transfer.
pub trait SpiMasterClient {
    fn read_write_done(&self, write_buffer: Vec<u8>, read_buffer: Option<Vec<u8>>, len: usize);
}

/// An SPI master controller.
pub trait SpiMaster {
    fn init(&self);
    fn is_busy(&self) -> bool;
    fn read_write_bytes(&self, write_buffer: Vec<u8>, read_buffer: Option<Vec<u8>>, len: usize) -> bool;
    fn write_byte(&self, val: u8);
    fn read_byte(&self) -> u8;
    fn read_write_byte(&self, val: u8) -> u8;
    fn set_rate(&self, rate: u32) -> u32;
    fn get_rate(&self) -> u32;
    fn set_clock(&self, polarity: ClockPolarity);
    fn get_clock(&self) -> ClockPolarity;
    fn set_phase(&self, phase: ClockPhase);
    fn get_phase(&self) -> ClockPhase;
    /// Keeps chip select low after transfers.
    fn hold_low(&self);
    /// Raises chip select after each transfer.
    fn release_low(&self);
}

/// One device on a shared SPI bus.
pub trait SPIMasterDevice {
    fn configure(&self, cpol: ClockPolarity, cpal: ClockPhase, rate: u32);
    fn read_write_bytes(&self, write_buffer: Vec<u8>, read_buffer: Option<Vec<u8>>, len: usize) -> bool;
}

/// Receives an ADC sample.
pub trait Request {
    fn sample_done(&self, val: u16);
}

/// An ADC that samples one channel at a time.
pub trait AdcInternal {
    fn initialize(&mut self) -> bool;
    fn sample(&self, channel: u8) -> bool;
}

} // verus!
