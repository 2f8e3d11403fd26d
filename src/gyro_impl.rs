//! The gyroscope: its range setting, the requests of its operations, and the
//! decoding of what they read.
//!
//! The gyroscope has no data-ready gate: callers pace their reads.
use crate::decode::{i16_from_le, le_i16};
use crate::interface::{I2cInterface, Request, SpiInterface};
use crate::register_address::{GyroRegisters, GYRO_SELF_TEST_OK_MASK};
use crate::{Bmi088, Error};
use vstd::prelude::*;

verus! {

/// A rate sample times its range's resolution is in units of
/// 1/10000 degree per second.
pub const GYRO_RESOLUTION_DIVISOR: u32 = 10000;

/// Measurement range of the gyroscope.
#[derive(Debug, Clone, Copy, PartialEq, Eq)]
pub enum GyroscopeRange {
    /// ±2000 °/s: 16.384 LSB/°/s, 61.0 m°/s/LSB
    Scale2000,
    /// ±1000 °/s: 32.768 LSB/°/s, 30.5 m°/s/LSB
    Scale1000,
    /// ±500 °/s: 65.536 LSB/°/s, 15.3 m°/s/LSB
    Scale500,
    /// ±250 °/s: 131.072 LSB/°/s, 7.6 m°/s/LSB
    Scale250,
    /// ±125 °/s: 262.144 LSB/°/s, 3.8 m°/s/LSB
    Scale125,
}

impl GyroscopeRange {
    /// Degrees per second per count, in units of 1/10000.
    pub open spec fn spec_resolution(self) -> u32 {
        match self {
            GyroscopeRange::Scale2000 => 610,
            GyroscopeRange::Scale1000 => 305,
            GyroscopeRange::Scale500 => 153,
            GyroscopeRange::Scale250 => 76,
            GyroscopeRange::Scale125 => 38,
        }
    }

    /// Degrees per second per count, in units of 1/10000.
    pub fn resolution(self) -> (r: u32)
        ensures
            r == self.spec_resolution(),
    {
        match self {
            GyroscopeRange::Scale2000 => 610,
            GyroscopeRange::Scale1000 => 305,
            GyroscopeRange::Scale500 => 153,
            GyroscopeRange::Scale250 => 76,
            GyroscopeRange::Scale125 => 38,
        }
    }
}

impl Default for GyroscopeRange {
    fn default() -> (r: Self)
        ensures
            r == GyroscopeRange::Scale2000,
    {
        GyroscopeRange::Scale2000
    }
}

/// The gyroscope of a BMI088, reached through the transport `DI`.
pub struct Gyroscope<DI> {
    iface: DI,
    gyro_range: GyroscopeRange,
}

impl<SPI> Bmi088<SpiInterface<SPI>> {
    /// Creates the gyroscope on an SPI device; its reads carry no dummy byte.
    pub fn new_gyro_with_spi(spi: SPI) -> (r: Gyroscope<SpiInterface<SPI>>)
        ensures
            r.spec_range() == GyroscopeRange::Scale2000,
            r.spec_iface().spec_bus() == spi,
            !r.spec_iface().spec_has_dummy_byte(),
    {
        Gyroscope { iface: SpiInterface::new(spi, false), gyro_range: GyroscopeRange::default() }
    }
}

impl<I2C> Bmi088<I2cInterface<I2C>> {
    /// Creates the gyroscope on an I2C bus at the device address `address`.
    pub fn new_gyro_with_i2c(i2c: I2C, address: u8) -> (r: Gyroscope<I2cInterface<I2C>>)
        ensures
            r.spec_range() == GyroscopeRange::Scale2000,
            r.spec_iface().spec_bus() == i2c,
            r.spec_iface().spec_address() == address,
    {
        Gyroscope { iface: I2cInterface::new(i2c, address), gyro_range: GyroscopeRange::default() }
    }
}

impl<DI> Gyroscope<DI> {
    /// The range that scales samples.
    pub closed spec fn spec_range(&self) -> GyroscopeRange {
        self.gyro_range
    }

    /// The transport.
    pub closed spec fn spec_iface(&self) -> DI {
        self.iface
    }

    /// The range that scales samples.
    pub fn range(&self) -> (r: GyroscopeRange)
        ensures
            r == self.spec_range(),
    {
        self.gyro_range
    }

    /// The transport.
    pub fn iface(&self) -> (r: &DI)
        ensures
            *r == self.spec_iface(),
    {
        &self.iface
    }

    /// The transport, for performing requests; the range stays as it is.
    pub fn iface_mut(&mut self) -> (r: &mut DI)
        ensures
            *r == old(self).spec_iface(),
            final(self).spec_iface() == *final(r),
            final(self).spec_range() == old(self).spec_range(),
    {
        &mut self.iface
    }

    /// Reads the chip id.
    pub fn chip_id_request(&self) -> (r: Request)
        ensures
            r == (Request::ReadRegister { register: GyroRegisters::CHIP_ID.spec_addr() }),
    {
        Request::ReadRegister { register: GyroRegisters::CHIP_ID.addr() }
    }

    /// Reads the self-test register; judge it with
    /// [`Gyroscope::check_self_test`].
    pub fn self_test_request(&self) -> (r: Request)
        ensures
            r == (Request::ReadRegister { register: GyroRegisters::GYRO_SELF_TEST.spec_addr() }),
    {
        Request::ReadRegister { register: GyroRegisters::GYRO_SELF_TEST.addr() }
    }

    /// Success when the self-test register reports the sensor sound,
    /// whatever its other bits hold.
    pub fn check_self_test<E>(&self, status: u8) -> (r: Result<(), Error<E>>)
        ensures
            status & 0x10 != 0 ==> r is Ok,
            status & 0x10 == 0 ==> r == Err::<(), Error<E>>(Error::GyroFunctionUnproper),
            r is Ok <==> (status / 16) % 2 == 1,
    {
        assert(status & 0x10 == 0 <==> (status / 16) % 2 == 0) by (bit_vector);
        if status & GYRO_SELF_TEST_OK_MASK == 0 {
            Err(Error::GyroFunctionUnproper)
        } else {
            Ok(())
        }
    }

    /// Writes `bandwidth` to the `BANDWIDTH` register.
    pub fn bandwidth_request(&self, bandwidth: u8) -> (r: Request)
        ensures
            r == (Request::WriteRegister { register: GyroRegisters::BANDWIDTH.spec_addr(), value: bandwidth }),
    {
        Request::WriteRegister { register: GyroRegisters::BANDWIDTH.addr(), value: bandwidth }
    }

    /// Reads the low, then the high byte of the x rate.
    pub fn x_axis_requests(&self) -> (r: (Request, Request))
        ensures
            r.0 == (Request::ReadRegister { register: GyroRegisters::RATE_X_LSB.spec_addr() }),
            r.1 == (Request::ReadRegister { register: GyroRegisters::RATE_X_MSB.spec_addr() }),
    {
        (
            Request::ReadRegister { register: GyroRegisters::RATE_X_LSB.addr() },
            Request::ReadRegister { register: GyroRegisters::RATE_X_MSB.addr() },
        )
    }

    /// Reads the low, then the high byte of the y rate.
    pub fn y_axis_requests(&self) -> (r: (Request, Request))
        ensures
            r.0 == (Request::ReadRegister { register: GyroRegisters::RATE_Y_LSB.spec_addr() }),
            r.1 == (Request::ReadRegister { register: GyroRegisters::RATE_Y_MSB.spec_addr() }),
    {
        (
            Request::ReadRegister { register: GyroRegisters::RATE_Y_LSB.addr() },
            Request::ReadRegister { register: GyroRegisters::RATE_Y_MSB.addr() },
        )
    }

    /// Reads the low, then the high byte of the z rate.
    pub fn z_axis_requests(&self) -> (r: (Request, Request))
        ensures
            r.0 == (Request::ReadRegister { register: GyroRegisters::RATE_Z_LSB.spec_addr() }),
            r.1 == (Request::ReadRegister { register: GyroRegisters::RATE_Z_MSB.spec_addr() }),
    {
        (
            Request::ReadRegister { register: GyroRegisters::RATE_Z_LSB.addr() },
            Request::ReadRegister { register: GyroRegisters::RATE_Z_MSB.addr() },
        )
    }

    /// The rate sample held by its low and high byte.
    pub fn decode_axis(&self, lsb: u8, msb: u8) -> (r: i16)
        ensures
            r == le_i16(lsb, msb),
    {
        i16_from_le(lsb, msb)
    }

    /// Reads the three rates in one burst; decode with
    /// [`Gyroscope::decode_rates`].
    pub fn rates_request(&self) -> (r: Request)
        ensures
            r == (Request::ReadBurst { first: GyroRegisters::RATE_X_LSB.spec_addr(), len: 6 }),
    {
        Request::ReadBurst { first: GyroRegisters::RATE_X_LSB.addr(), len: 6 }
    }

    /// The x, y and z rates in the six bytes read from `RATE_X_LSB` on.
    pub fn decode_rates(&self, data: &Vec<u8>) -> (r: (i16, i16, i16))
        requires
            data.len() == 6,
        ensures
            r.0 == le_i16(data[0], data[1]),
            r.1 == le_i16(data[2], data[3]),
            r.2 == le_i16(data[4], data[5]),
    {
        (i16_from_le(data[0], data[1]), i16_from_le(data[2], data[3]), i16_from_le(data[4], data[5]))
    }

    /// Scales raw rates by the current range, in units of 1/10000 °/s.
    pub fn scale_rates(&self, raw: (i16, i16, i16)) -> (r: (i32, i32, i32))
        ensures
            r.0 == raw.0 * self.spec_range().spec_resolution(),
            r.1 == raw.1 * self.spec_range().spec_resolution(),
            r.2 == raw.2 * self.spec_range().spec_resolution(),
    {
        let k = self.gyro_range.resolution() as i32;
        assert(-19988480 <= raw.0 * k <= 19988480) by (nonlinear_arith)
            requires -32768 <= raw.0 <= 32767, 0 <= k <= 610;
        assert(-19988480 <= raw.1 * k <= 19988480) by (nonlinear_arith)
            requires -32768 <= raw.1 <= 32767, 0 <= k <= 610;
        assert(-19988480 <= raw.2 * k <= 19988480) by (nonlinear_arith)
            requires -32768 <= raw.2 <= 32767, 0 <= k <= 610;
        (raw.0 as i32 * k, raw.1 as i32 * k, raw.2 as i32 * k)
    }
}

} // verus!
