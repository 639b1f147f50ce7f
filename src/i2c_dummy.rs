use vstd::prelude::*;
use crate::virtual_i2c::I2CError;

verus! {

/// Highest 7-bit bus address.
pub const LAST_ADDRESS: u8 = 0x7f;

/// Bus address of the FXOS8700CQ accelerometer.
pub const ACCEL_ADDRESS: u8 = 0x1e;

/// Registers of the accelerometer.
pub const ACCEL_CTRL_REG1: u8 = 0x2a;
pub const ACCEL_OUT_X_MSB: u8 = 0x01;
pub const ACCEL_WHOAMI: u8 = 0x0d;

/// A command for the I2C bus: which device, and how many bytes of the
/// buffer to write and then read.
#[derive(Copy, Clone, PartialEq, Eq, Structural, Debug)]
pub enum I2CCommand {
    Write { addr: u8, len: u8 },
    Read { addr: u8, len: u8 },
    WriteRead { addr: u8, write_len: u8, read_len: u8 },
}

/// Scans the bus by writing one byte to each address in turn.
pub struct ScanClient {
    dev_id: u8,
}

/// What one completed scan write yields: the address if a device answered
/// there, and the next address to probe (none once the last was probed).
#[derive(Copy, Clone, PartialEq, Eq, Structural, Debug)]
pub struct ScanStep {
    pub found: Option<u8>,
    pub next: Option<u8>,
}

impl ScanClient {
    pub closed spec fn dev_id_spec(&self) -> u8 {
        self.dev_id
    }

    /// A scan that starts at address 1.
    pub fn new() -> (r: ScanClient)
        ensures
            r.dev_id_spec() == 1,
    {
        ScanClient { dev_id: 1 }
    }

    /// The address being probed.
    pub fn dev_id(&self) -> (r: u8)
        ensures
            r == self.dev_id_spec(),
    {
        self.dev_id
    }

    /// The write to the current address ended with `error`.
    pub fn command_complete(&mut self, error: I2CError) -> (r: ScanStep)
        ensures
            r.found == if error == I2CError::CommandComplete { Some(old(self).dev_id_spec()) } else { None },
            old(self).dev_id_spec() < LAST_ADDRESS ==> r.next == Some((old(self).dev_id_spec() + 1) as u8)
                && final(self).dev_id_spec() == old(self).dev_id_spec() + 1,
            old(self).dev_id_spec() >= LAST_ADDRESS ==> r.next.is_none() && final(self).dev_id_spec() == old(self).dev_id_spec(),
    {
        let found = if error == I2CError::CommandComplete {
            Some(self.dev_id)
        } else {
            None
        };
        if self.dev_id < LAST_ADDRESS {
            self.dev_id = self.dev_id + 1;
            ScanStep { found, next: Some(self.dev_id) }
        } else {
            ScanStep { found, next: None }
        }
    }
}

/// Where the accelerometer exchange stands.
#[derive(Copy, Clone, PartialEq, Eq, Structural, Debug)]
pub enum AccelClientState {
    ReadingWhoami,
    Activating,
    Deactivating,
    ReadingAccelData,
}

/// What a completed accelerometer command yields.
#[derive(Copy, Clone, PartialEq, Eq, Structural, Debug)]
pub enum AccelReport {
    Whoami(u8),
    Activated,
    Data { x: u32, y: u32, z: u32 },
    Deactivated,
}

/// The big-endian 16-bit sample at `buffer[i..i + 2]`.
pub open spec fn sample(buffer: Seq<u8>, i: int) -> int {
    buffer[i] * 256 + buffer[i + 1]
}

/// An axis reading from a raw 14-bit sample (scaled by 0.976 mg per
/// count), reported divided by four.
pub open spec fn accel_value(raw: int) -> int {
    ((raw / 4) * 976 / 1000) / 4
}

/// Cycles the accelerometer through reading its identity, activating it,
/// reading one sample of each axis and deactivating it.
pub struct AccelClient {
    state: AccelClientState,
}

impl AccelClient {
    pub closed spec fn state_spec(&self) -> AccelClientState {
        self.state
    }

    pub fn new() -> (r: AccelClient)
        ensures
            r.state_spec() == AccelClientState::ReadingWhoami,
    {
        AccelClient { state: AccelClientState::ReadingWhoami }
    }

    /// The first command: select the identity register and read it.
    pub fn start(&mut self, buffer: &mut Vec<u8>) -> (r: I2CCommand)
        requires
            old(buffer)@.len() >= 1,
        ensures
            final(buffer)@ == old(buffer)@.update(0, ACCEL_WHOAMI),
            r == (I2CCommand::WriteRead { addr: ACCEL_ADDRESS, write_len: 1, read_len: 1 }),
            final(self).state_spec() == AccelClientState::ReadingWhoami,
    {
        buffer.set(0, ACCEL_WHOAMI);
        self.state = AccelClientState::ReadingWhoami;
        I2CCommand::WriteRead { addr: ACCEL_ADDRESS, write_len: 1, read_len: 1 }
    }

    /// The last command ended and handed back `buffer`: reports what it
    /// read, prepares the buffer for the next command and returns it.
    pub fn command_complete(&mut self, buffer: &mut Vec<u8>) -> (r: (AccelReport, I2CCommand))
        requires
            old(buffer)@.len() >= 6,
        ensures
            final(buffer)@.len() == old(buffer)@.len(),
            ({
                let b = old(buffer)@;
                match old(self).state_spec() {
                    AccelClientState::ReadingWhoami => {
                        &&& r == (AccelReport::Whoami(b[0]), I2CCommand::Write { addr: ACCEL_ADDRESS, len: 2 })
                        &&& final(buffer)@ == b.update(0, ACCEL_CTRL_REG1).update(1, 1)
                        &&& final(self).state_spec() == AccelClientState::Activating
                    },
                    AccelClientState::Activating => {
                        &&& r == (AccelReport::Activated, I2CCommand::WriteRead { addr: ACCEL_ADDRESS, write_len: 1, read_len: 6 })
                        &&& final(buffer)@ == b.update(0, ACCEL_OUT_X_MSB)
                        &&& final(self).state_spec() == AccelClientState::ReadingAccelData
                    },
                    AccelClientState::ReadingAccelData => {
                        &&& r == (AccelReport::Data {
                            x: accel_value(sample(b, 0)) as u32,
                            y: accel_value(sample(b, 2)) as u32,
                            z: accel_value(sample(b, 4)) as u32,
                        }, I2CCommand::Write { addr: ACCEL_ADDRESS, len: 2 })
                        &&& final(buffer)@ == b.update(0, ACCEL_CTRL_REG1).update(1, 0)
                        &&& final(self).state_spec() == AccelClientState::Deactivating
                    },
                    AccelClientState::Deactivating => {
                        &&& r == (AccelReport::Deactivated, I2CCommand::WriteRead { addr: ACCEL_ADDRESS, write_len: 1, read_len: 1 })
                        &&& final(buffer)@ == b.update(0, ACCEL_WHOAMI)
                        &&& final(self).state_spec() == AccelClientState::ReadingWhoami
                    },
                }
            }),
    {
        match self.state {
            AccelClientState::ReadingWhoami => {
                let whoami = buffer[0];
                buffer.set(0, ACCEL_CTRL_REG1);
                buffer.set(1, 1);
                self.state = AccelClientState::Activating;
                (AccelReport::Whoami(whoami), I2CCommand::Write { addr: ACCEL_ADDRESS, len: 2 })
            },
            AccelClientState::Activating => {
                buffer.set(0, ACCEL_OUT_X_MSB);
                self.state = AccelClientState::ReadingAccelData;
                (AccelReport::Activated, I2CCommand::WriteRead { addr: ACCEL_ADDRESS, write_len: 1, read_len: 6 })
            },
            AccelClientState::ReadingAccelData => {
                let x = axis(buffer[0], buffer[1]);
                let y = axis(buffer[2], buffer[3]);
                let z = axis(buffer[4], buffer[5]);
                buffer.set(0, ACCEL_CTRL_REG1);
                buffer.set(1, 0);
                self.state = AccelClientState::Deactivating;
                (AccelReport::Data { x, y, z }, I2CCommand::Write { addr: ACCEL_ADDRESS, len: 2 })
            },
            AccelClientState::Deactivating => {
                buffer.set(0, ACCEL_WHOAMI);
                self.state = AccelClientState::ReadingWhoami;
                (AccelReport::Deactivated, I2CCommand::WriteRead { addr: ACCEL_ADDRESS, write_len: 1, read_len: 1 })
            },
        }
    }
}

/// One axis of an accelerometer sample from its two bytes.
fn axis(msb: u8, lsb: u8) -> (r: u32)
    ensures
        r == accel_value(msb * 256 + lsb),
{
    let raw: u32 = (msb as u32) * 256 + lsb as u32;
    ((raw / 4) * 976 / 1000) / 4
}

/// Bus address of the TMP006 temperature sensor.
pub const TMP006_ADDRESS: u8 = 0x40;

/// Registers of the TMP006.
pub const TMP006_CONFIG: u8 = 0x02;
pub const TMP006_DEVICE_ID: u8 = 0xff;

/// Configuration written at start: sensor on, four samples averaged.
pub const TMP006_CONFIG_VALUE: u16 = 0x7500;

/// Where the TMP006 exchange stands.
#[derive(Copy, Clone, PartialEq, Eq, Structural, Debug)]
pub enum TmpClientState {
    Enabling,
    SelectingDevIdReg,
    ReadingDevIdReg,
}

/// What a completed TMP006 command yields.
#[derive(Copy, Clone, PartialEq, Eq, Structural, Debug)]
pub enum TmpReport {
    Enabled,
    DevIdRegSelected,
    DeviceId(u16),
}

/// Configures the TMP006, then reads its device id.
pub struct TMP006Client {
    state: TmpClientState,
}

impl TMP006Client {
    pub closed spec fn state_spec(&self) -> TmpClientState {
        self.state
    }

    pub fn new() -> (r: TMP006Client)
        ensures
            r.state_spec() == TmpClientState::Enabling,
    {
        TMP006Client { state: TmpClientState::Enabling }
    }

    /// The first command: write the configuration register.
    pub fn start(&mut self, buffer: &mut Vec<u8>) -> (r: I2CCommand)
        requires
            old(buffer)@.len() >= 3,
        ensures
            final(buffer)@ == old(buffer)@.update(0, TMP006_CONFIG).update(1, 0x75).update(2, 0),
            r == (I2CCommand::Write { addr: TMP006_ADDRESS, len: 3 }),
            final(self).state_spec() == TmpClientState::Enabling,
    {
        assert(TMP006_CONFIG_VALUE >> 8u16 == 0x75u16 && TMP006_CONFIG_VALUE & 0xffu16 == 0u16) by (bit_vector);
        buffer.set(0, TMP006_CONFIG);
        buffer.set(1, (TMP006_CONFIG_VALUE >> 8u16) as u8);
        buffer.set(2, (TMP006_CONFIG_VALUE & 0xff) as u8);
        self.state = TmpClientState::Enabling;
        I2CCommand::Write { addr: TMP006_ADDRESS, len: 3 }
    }

    /// The last command ended and handed back `buffer`: reports, prepares
    /// the buffer and returns the next command, if any.
    pub fn command_complete(&mut self, buffer: &mut Vec<u8>) -> (r: (TmpReport, Option<I2CCommand>))
        requires
            old(buffer)@.len() >= 2,
        ensures
            final(buffer)@.len() == old(buffer)@.len(),
            ({
                let b = old(buffer)@;
                match old(self).state_spec() {
                    TmpClientState::Enabling => {
                        &&& r == (TmpReport::Enabled, Some(I2CCommand::WriteRead { addr: TMP006_ADDRESS, write_len: 1, read_len: 2 }))
                        &&& final(buffer)@ == b.update(0, TMP006_DEVICE_ID)
                        &&& final(self).state_spec() == TmpClientState::ReadingDevIdReg
                    },
                    TmpClientState::SelectingDevIdReg => {
                        &&& r == (TmpReport::DevIdRegSelected, Some(I2CCommand::Read { addr: TMP006_ADDRESS, len: 2 }))
                        &&& final(buffer)@ == b
                        &&& final(self).state_spec() == TmpClientState::ReadingDevIdReg
                    },
                    TmpClientState::ReadingDevIdReg => {
                        &&& r == (TmpReport::DeviceId((b[0] * 256 + b[1]) as u16), None::<I2CCommand>)
                        &&& final(buffer)@ == b
                        &&& final(self).state_spec() == TmpClientState::ReadingDevIdReg
                    },
                }
            }),
    {
        match self.state {
            TmpClientState::Enabling => {
                buffer.set(0, TMP006_DEVICE_ID);
                self.state = TmpClientState::ReadingDevIdReg;
                (TmpReport::Enabled, Some(I2CCommand::WriteRead { addr: TMP006_ADDRESS, write_len: 1, read_len: 2 }))
            },
            TmpClientState::SelectingDevIdReg => {
                self.state = TmpClientState::ReadingDevIdReg;
                (TmpReport::DevIdRegSelected, Some(I2CCommand::Read { addr: TMP006_ADDRESS, len: 2 }))
            },
            TmpClientState::ReadingDevIdReg => {
                let dev_id: u16 = (buffer[0] as u16) * 256 + buffer[1] as u16;
                (TmpReport::DeviceId(dev_id), None)
            },
        }
    }
}

/// Bus address of the ISL29035 light sensor.
pub const LI_ADDRESS: u8 = 0x44;

/// The light sensor's data register and its start-up command.
pub const LI_DATA: u8 = 0x02;
pub const LI_COMMAND: u8 = 0b1010_0000;

/// Where the light-sensor exchange stands.
#[derive(Copy, Clone, PartialEq, Eq, Structural, Debug)]
pub enum LiClientState {
    Enabling,
    ReadingLI,
}

/// What a completed light-sensor command yields.
#[derive(Copy, Clone, PartialEq, Eq, Structural, Debug)]
pub enum LiReport {
    Enabled,
    Intensity(u32),
}

/// The light intensity in `b[0..2]` (little-endian) as a percentage of
/// full scale.
pub open spec fn intensity_percent(b: Seq<u8>) -> int {
    ((b[1] * 256 + b[0]) * 100) / 65536
}

/// Enables the light sensor, then reads its intensity again and again.
pub struct LiClient {
    state: LiClientState,
}

impl LiClient {
    pub closed spec fn state_spec(&self) -> LiClientState {
        self.state
    }

    pub fn new() -> (r: LiClient)
        ensures
            r.state_spec() == LiClientState::Enabling,
    {
        LiClient { state: LiClientState::Enabling }
    }

    /// The first command: write the start-up command.
    pub fn start(&mut self, buffer: &mut Vec<u8>) -> (r: I2CCommand)
        requires
            old(buffer)@.len() >= 3,
        ensures
            final(buffer)@ == old(buffer)@.update(0, 0).update(1, LI_COMMAND).update(2, 0),
            r == (I2CCommand::Write { addr: LI_ADDRESS, len: 3 }),
            final(self).state_spec() == LiClientState::Enabling,
    {
        buffer.set(0, 0);
        buffer.set(1, LI_COMMAND);
        buffer.set(2, 0);
        self.state = LiClientState::Enabling;
        I2CCommand::Write { addr: LI_ADDRESS, len: 3 }
    }

    /// The last command ended and handed back `buffer`: reports, prepares
    /// the buffer and returns the next read.
    pub fn command_complete(&mut self, buffer: &mut Vec<u8>) -> (r: (LiReport, I2CCommand))
        requires
            old(buffer)@.len() >= 2,
        ensures
            final(buffer)@.len() == old(buffer)@.len(),
            r.1 == (I2CCommand::WriteRead { addr: LI_ADDRESS, write_len: 1, read_len: 2 }),
            final(self).state_spec() == LiClientState::ReadingLI,
            ({
                let b = old(buffer)@;
                match old(self).state_spec() {
                    LiClientState::Enabling => {
                        &&& r.0 == LiReport::Enabled
                        &&& final(buffer)@ == b.update(0, 0)
                    },
                    LiClientState::ReadingLI => {
                        &&& r.0 == LiReport::Intensity(intensity_percent(b) as u32)
                        &&& final(buffer)@ == b.update(0, LI_DATA)
                    },
                }
            }),
    {
        match self.state {
            LiClientState::Enabling => {
                buffer.set(0, 0);
                self.state = LiClientState::ReadingLI;
                (LiReport::Enabled, I2CCommand::WriteRead { addr: LI_ADDRESS, write_len: 1, read_len: 2 })
            },
            LiClientState::ReadingLI => {
                let intensity: u32 = (buffer[1] as u32) * 256 + buffer[0] as u32;
                let percent: u32 = (intensity * 100) / 65536;
                buffer.set(0, LI_DATA);
                (LiReport::Intensity(percent), I2CCommand::WriteRead { addr: LI_ADDRESS, write_len: 1, read_len: 2 })
            },
        }
    }
}

} // verus!
