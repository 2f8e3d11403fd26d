//! The accelerometer: its range setting, the requests of its operations,
//! and the decoding of what they read.
//!
//! An operation is performed by sending its request over the transport and
//! handing the register data back to the matching decoder. Reading the axes
//! takes two requests: the status register first, and the axis burst only
//! when [`Accelerometer::axes_after_status`] asks for it.
use crate::decode::{
    i16_from_le, le_i16, le_u24, sensor_ticks, temperature_raw, temperature_raw_of, ticks_to_us,
};
use crate::interface::{I2cInterface, Request, SpiInterface};
use crate::register_address::{AccRegisters, ACC_STATUS_DRDY_MASK};
use crate::{Bmi088, Error};
use vstd::prelude::*;

verus! {

/// Value written to `SOFTRESET` to reset the accelerometer.
pub const ACC_SOFT_RESET_CMD: u8 = 0xB6;

/// Value written to `PWR_CTRL` to switch the accelerometer on.
pub const ACC_ENABLE_CMD: u8 = 0x04;

/// A raw axis sample of `full_scale_g` g spans this many counts.
pub const ACC_COUNTS_PER_FULL_SCALE: u32 = 32768;

/// Measurement range of the accelerometer.
#[derive(Debug, Clone, Copy, PartialEq, Eq)]
pub enum AccelerometerRange {
    /// ±3g
    Scale3g,
    /// ±6g
    Scale6g,
    /// ±12g
    Scale12g,
    /// ±24g
    Scale24g,
}

impl AccelerometerRange {
    /// The code written to the `RANGE` register.
    pub open spec fn spec_code(self) -> u8 {
        match self {
            AccelerometerRange::Scale3g => 0x00,
            AccelerometerRange::Scale6g => 0x01,
            AccelerometerRange::Scale12g => 0x02,
            AccelerometerRange::Scale24g => 0x03,
        }
    }

    /// The code written to the `RANGE` register.
    pub fn code(self) -> (r: u8)
        ensures
            r == self.spec_code(),
    {
        match self {
            AccelerometerRange::Scale3g => 0x00,
            AccelerometerRange::Scale6g => 0x01,
            AccelerometerRange::Scale12g => 0x02,
            AccelerometerRange::Scale24g => 0x03,
        }
    }

    /// The full scale in g: one count stands for `full_scale_g / 32768` g.
    pub open spec fn spec_full_scale_g(self) -> u32 {
        match self {
            AccelerometerRange::Scale3g => 3,
            AccelerometerRange::Scale6g => 6,
            AccelerometerRange::Scale12g => 12,
            AccelerometerRange::Scale24g => 24,
        }
    }

    /// The full scale in g: one count stands for `full_scale_g / 32768` g.
    pub fn full_scale_g(self) -> (r: u32)
        ensures
            r == self.spec_full_scale_g(),
    {
        match self {
            AccelerometerRange::Scale3g => 3,
            AccelerometerRange::Scale6g => 6,
            AccelerometerRange::Scale12g => 12,
            AccelerometerRange::Scale24g => 24,
        }
    }
}

impl Default for AccelerometerRange {
    fn default() -> (r: Self)
        ensures
            r == AccelerometerRange::Scale6g,
    {
        AccelerometerRange::Scale6g
    }
}

/// Each accelerometer range counts twice as many g per count as the one
/// below it, so the multipliers strictly increase from ±3g to ±24g.
pub proof fn lemma_acc_multiplier_doubles()
    ensures
        AccelerometerRange::Scale6g.spec_full_scale_g() == 2 * AccelerometerRange::Scale3g.spec_full_scale_g(),
        AccelerometerRange::Scale12g.spec_full_scale_g() == 2 * AccelerometerRange::Scale6g.spec_full_scale_g(),
        AccelerometerRange::Scale24g.spec_full_scale_g() == 2 * AccelerometerRange::Scale12g.spec_full_scale_g(),
        0 < AccelerometerRange::Scale3g.spec_full_scale_g() < AccelerometerRange::Scale6g.spec_full_scale_g()
            < AccelerometerRange::Scale12g.spec_full_scale_g() < AccelerometerRange::Scale24g.spec_full_scale_g(),
{
}

/// The accelerometer of a BMI088, reached through the transport `DI`.
pub struct Accelerometer<DI> {
    iface: DI,
    range: AccelerometerRange,
}

impl<SPI> Bmi088<SpiInterface<SPI>> {
    /// Creates the accelerometer on an SPI device; its reads carry a dummy
    /// byte.
    ///
    /// The accelerometer stays in I2C mode until it sees a rising edge on its
    /// chip select: perform one dummy read (a chip-id read) before anything else.
    pub fn new_acc_with_spi(spi: SPI) -> (r: Accelerometer<SpiInterface<SPI>>)
        ensures
            r.spec_range() == AccelerometerRange::Scale6g,
            r.spec_iface().spec_bus() == spi,
            r.spec_iface().spec_has_dummy_byte(),
    {
        Accelerometer {
            iface: SpiInterface::new(spi, true),
            range: AccelerometerRange::default(),
        }
    }
}

impl<I2C> Bmi088<I2cInterface<I2C>> {
    /// Creates the accelerometer on an I2C bus at the device address `address`.
    pub fn new_acc_with_i2c(i2c: I2C, address: u8) -> (r: Accelerometer<I2cInterface<I2C>>)
        ensures
            r.spec_range() == AccelerometerRange::Scale6g,
            r.spec_iface().spec_bus() == i2c,
            r.spec_iface().spec_address() == address,
    {
        Accelerometer { iface: I2cInterface::new(i2c, address), range: AccelerometerRange::default() }
    }
}

impl<DI> Accelerometer<DI> {
    /// The range that scales samples.
    pub closed spec fn spec_range(&self) -> AccelerometerRange {
        self.range
    }

    /// The transport.
    pub closed spec fn spec_iface(&self) -> DI {
        self.iface
    }

    /// The range that scales samples.
    pub fn range(&self) -> (r: AccelerometerRange)
        ensures
            r == self.spec_range(),
    {
        self.range
    }

    /// The transport.
    pub fn iface(&self) -> (r: &DI)
        ensures
            *r == self.spec_iface(),
    {
        &self.iface
    }

    /// The transport, for performing requests; the range stays as it is.
    pub fn iface_mut(&mut self) -> (r: &mut DI)
        ensures
            *r == old(self).spec_iface(),
            final(self).spec_iface() == *final(r),
            final(self).spec_range() == old(self).spec_range(),
    {
        &mut self.iface
    }

    /// Reads the chip id; also serves as the dummy read that switches the
    /// accelerometer to SPI.
    pub fn chip_id_request(&self) -> (r: Request)
        ensures
            r == (Request::ReadRegister { register: AccRegisters::CHIP_ID.spec_addr() }),
    {
        Request::ReadRegister { register: AccRegisters::CHIP_ID.addr() }
    }

    /// Resets the accelerometer; wait for it to settle before the next request.
    pub fn soft_reset_request(&self) -> (r: Request)
        ensures
            r == (Request::WriteRegister {
                register: AccRegisters::SOFTRESET.spec_addr(),
                value: ACC_SOFT_RESET_CMD,
            }),
    {
        Request::WriteRegister { register: AccRegisters::SOFTRESET.addr(), value: ACC_SOFT_RESET_CMD }
    }

    /// Writes `mode` to the power-save register.
    pub fn pwr_save_request(&self, mode: u8) -> (r: Request)
        ensures
            r == (Request::WriteRegister { register: AccRegisters::PWR_CONF.spec_addr(), value: mode }),
    {
        Request::WriteRegister { register: AccRegisters::PWR_CONF.addr(), value: mode }
    }

    /// Writes `conf` (bandwidth and output data rate) to the `CONF` register.
    pub fn conf_request(&self, conf: u8) -> (r: Request)
        ensures
            r == (Request::WriteRegister { register: AccRegisters::CONF.spec_addr(), value: conf }),
    {
        Request::WriteRegister { register: AccRegisters::CONF.addr(), value: conf }
    }

    /// Writes the code of `range` to the `RANGE` register; hand the outcome to
    /// [`Accelerometer::commit_range`].
    pub fn range_request(&self, range: AccelerometerRange) -> (r: Request)
        ensures
            r == (Request::WriteRegister {
                register: AccRegisters::RANGE.spec_addr(),
                value: range.spec_code(),
            }),
    {
        Request::WriteRegister { register: AccRegisters::RANGE.addr(), value: range.code() }
    }

    /// Takes on `range` if and only if writing it to the device succeeded.
    pub fn commit_range<E>(&mut self, range: AccelerometerRange, written: Result<(), E>) -> (r: Result<(), Error<E>>)
        ensures
            final(self).spec_iface() == old(self).spec_iface(),
            match written {
                Ok(()) => r is Ok && final(self).spec_range() == range,
                Err(e) => r == Err::<(), Error<E>>(Error::IOError(e)) && final(self).spec_range()
                    == old(self).spec_range(),
            },
    {
        match written {
            Ok(()) => {
                self.range = range;
                Ok(())
            },
            Err(e) => Err(Error::IOError(e)),
        }
    }

    /// Switches the accelerometer on.
    pub fn enable_request(&self) -> (r: Request)
        ensures
            r == (Request::WriteRegister { register: AccRegisters::PWR_CTRL.spec_addr(), value: ACC_ENABLE_CMD }),
    {
        Request::WriteRegister { register: AccRegisters::PWR_CTRL.addr(), value: ACC_ENABLE_CMD }
    }

    /// Reads the temperature bytes; decode with [`Accelerometer::decode_temperature`].
    pub fn temperature_request(&self) -> (r: Request)
        ensures
            r == (Request::ReadBurst { first: AccRegisters::TEMP_MSB.spec_addr(), len: 2 }),
    {
        Request::ReadBurst { first: AccRegisters::TEMP_MSB.addr(), len: 2 }
    }

    /// The raw temperature reading in the bytes read from `TEMP_MSB` on.
    pub fn decode_temperature(&self, data: &Vec<u8>) -> (r: i16)
        requires
            data.len() == 2,
        ensures
            r == temperature_raw_of(data[0], data[1]),
    {
        temperature_raw(data[0], data[1])
    }

    /// Reads the status register, the first step of reading the axes.
    pub fn status_request(&self) -> (r: Request)
        ensures
            r == (Request::ReadRegister { register: AccRegisters::STATUS.spec_addr() }),
    {
        Request::ReadRegister { register: AccRegisters::STATUS.addr() }
    }

    /// Given the status byte, the axis burst to read next, or `NoDrdy` when
    /// no new sample is ready; then nothing more is to be sent.
    pub fn axes_after_status<E>(&self, status: u8) -> (r: Result<Request, Error<E>>)
        ensures
            status & 0x80 == 0 ==> r == Err::<Request, Error<E>>(Error::NoDrdy),
            status & 0x80 != 0 ==> r == Ok::<Request, Error<E>>(
                Request::ReadBurst { first: AccRegisters::X_LSB.spec_addr(), len: 6 },
            ),
            r is Err <==> status < 128,
    {
        assert(status & 0x80 == 0 <==> status < 128) by (bit_vector);
        if status & ACC_STATUS_DRDY_MASK == 0 {
            Err(Error::NoDrdy)
        } else {
            Ok(Request::ReadBurst { first: AccRegisters::X_LSB.addr(), len: 6 })
        }
    }

    /// The x, y and z samples in the six bytes read from `X_LSB` on.
    pub fn decode_axes(&self, data: &Vec<u8>) -> (r: (i16, i16, i16))
        requires
            data.len() == 6,
        ensures
            r.0 == le_i16(data[0], data[1]),
            r.1 == le_i16(data[2], data[3]),
            r.2 == le_i16(data[4], data[5]),
    {
        (i16_from_le(data[0], data[1]), i16_from_le(data[2], data[3]), i16_from_le(data[4], data[5]))
    }

    /// Scales raw samples by the current range, in units of 1/32768 g.
    pub fn scale_axes(&self, raw: (i16, i16, i16)) -> (r: (i32, i32, i32))
        ensures
            r.0 == raw.0 * self.spec_range().spec_full_scale_g(),
            r.1 == raw.1 * self.spec_range().spec_full_scale_g(),
            r.2 == raw.2 * self.spec_range().spec_full_scale_g(),
    {
        let k = self.range.full_scale_g() as i32;
        assert(-786432 <= raw.0 * k <= 786432) by (nonlinear_arith)
            requires -32768 <= raw.0 <= 32767, 0 <= k <= 24;
        assert(-786432 <= raw.1 * k <= 786432) by (nonlinear_arith)
            requires -32768 <= raw.1 <= 32767, 0 <= k <= 24;
        assert(-786432 <= raw.2 * k <= 786432) by (nonlinear_arith)
            requires -32768 <= raw.2 <= 32767, 0 <= k <= 24;
        (raw.0 as i32 * k, raw.1 as i32 * k, raw.2 as i32 * k)
    }

    /// Reads the three sensor-time bytes; decode with
    /// [`Accelerometer::decode_sensor_time`].
    pub fn sensor_time_request(&self) -> (r: Request)
        ensures
            r == (Request::ReadBurst { first: AccRegisters::SENSORTIME_0.spec_addr(), len: 3 }),
    {
        Request::ReadBurst { first: AccRegisters::SENSORTIME_0.addr(), len: 3 }
    }

    /// The sensor time in microseconds held by the bytes read from
    /// `SENSORTIME_0` on.
    pub fn decode_sensor_time(&self, data: &Vec<u8>) -> (r: u32)
        requires
            data.len() == 3,
        ensures
            r == le_u24(data[0], data[1], data[2]) * 39,
    {
        ticks_to_us(sensor_ticks(data[0], data[1], data[2]))
    }
}

} // verus!
