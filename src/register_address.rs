//! Register addresses and bit-field layouts of the two sub-sensors.
use vstd::prelude::*;

verus! {

/// Registers of the accelerometer.
#[allow(non_camel_case_types)]
#[derive(Copy, Clone, Debug, PartialEq, Eq)]
pub enum AccRegisters {
    CHIP_ID,
    STATUS,
    X_LSB,
    X_MSB,
    Y_LSB,
    Y_MSB,
    Z_LSB,
    Z_MSB,
    SENSORTIME_0,
    TEMP_MSB,
    CONF,
    RANGE,
    PWR_CONF,
    PWR_CTRL,
    SOFTRESET,
}

impl AccRegisters {
    /// The register's 8-bit address.
    pub open spec fn spec_addr(self) -> u8 {
        match self {
            AccRegisters::CHIP_ID => 0x00,
            AccRegisters::STATUS => 0x03,
            AccRegisters::X_LSB => 0x12,
            AccRegisters::X_MSB => 0x13,
            AccRegisters::Y_LSB => 0x14,
            AccRegisters::Y_MSB => 0x15,
            AccRegisters::Z_LSB => 0x16,
            AccRegisters::Z_MSB => 0x17,
            AccRegisters::SENSORTIME_0 => 0x18,
            AccRegisters::TEMP_MSB => 0x22,
            AccRegisters::CONF => 0x40,
            AccRegisters::RANGE => 0x41,
            AccRegisters::PWR_CONF => 0x7C,
            AccRegisters::PWR_CTRL => 0x7D,
            AccRegisters::SOFTRESET => 0x7E,
        }
    }

    /// The register's 8-bit address.
    pub fn addr(self) -> (r: u8)
        ensures
            r == self.spec_addr(),
    {
        match self {
            AccRegisters::CHIP_ID => 0x00,
            AccRegisters::STATUS => 0x03,
            AccRegisters::X_LSB => 0x12,
            AccRegisters::X_MSB => 0x13,
            AccRegisters::Y_LSB => 0x14,
            AccRegisters::Y_MSB => 0x15,
            AccRegisters::Z_LSB => 0x16,
            AccRegisters::Z_MSB => 0x17,
            AccRegisters::SENSORTIME_0 => 0x18,
            AccRegisters::TEMP_MSB => 0x22,
            AccRegisters::CONF => 0x40,
            AccRegisters::RANGE => 0x41,
            AccRegisters::PWR_CONF => 0x7C,
            AccRegisters::PWR_CTRL => 0x7D,
            AccRegisters::SOFTRESET => 0x7E,
        }
    }
}

/// Registers of the gyroscope.
#[allow(non_camel_case_types)]
#[derive(Copy, Clone, Debug, PartialEq, Eq)]
pub enum GyroRegisters {
    CHIP_ID,
    RATE_X_LSB,
    RATE_X_MSB,
    RATE_Y_LSB,
    RATE_Y_MSB,
    RATE_Z_LSB,
    RATE_Z_MSB,
    BANDWIDTH,
    SOFTRESET,
    GYRO_SELF_TEST,
}

impl GyroRegisters {
    /// The register's 8-bit address.
    pub open spec fn spec_addr(self) -> u8 {
        match self {
            GyroRegisters::CHIP_ID => 0x00,
            GyroRegisters::RATE_X_LSB => 0x02,
            GyroRegisters::RATE_X_MSB => 0x03,
            GyroRegisters::RATE_Y_LSB => 0x04,
            GyroRegisters::RATE_Y_MSB => 0x05,
            GyroRegisters::RATE_Z_LSB => 0x06,
            GyroRegisters::RATE_Z_MSB => 0x07,
            GyroRegisters::BANDWIDTH => 0x10,
            GyroRegisters::SOFTRESET => 0x14,
            GyroRegisters::GYRO_SELF_TEST => 0x3C,
        }
    }

    /// The register's 8-bit address.
    pub fn addr(self) -> (r: u8)
        ensures
            r == self.spec_addr(),
    {
        match self {
            GyroRegisters::CHIP_ID => 0x00,
            GyroRegisters::RATE_X_LSB => 0x02,
            GyroRegisters::RATE_X_MSB => 0x03,
            GyroRegisters::RATE_Y_LSB => 0x04,
            GyroRegisters::RATE_Y_MSB => 0x05,
            GyroRegisters::RATE_Z_LSB => 0x06,
            GyroRegisters::RATE_Z_MSB => 0x07,
            GyroRegisters::BANDWIDTH => 0x10,
            GyroRegisters::SOFTRESET => 0x14,
            GyroRegisters::GYRO_SELF_TEST => 0x3C,
        }
    }
}

/// Accelerometer `CONF`: offset of the bandwidth (oversampling) nibble.
pub const ACC_CONF_BWP_OFFSET: u8 = 4;
/// Accelerometer `CONF` bandwidth: 4-fold oversampling.
pub const ACC_CONF_BWP_OSR4: u8 = 0b1000;
/// Accelerometer `CONF` bandwidth: 2-fold oversampling.
pub const ACC_CONF_BWP_OSR2: u8 = 0b1001;
/// Accelerometer `CONF` bandwidth: normal filtering.
pub const ACC_CONF_BWP_NORMAL: u8 = 0b1010;
/// Accelerometer `CONF`: offset of the output-data-rate nibble.
pub const ACC_CONF_ODR_OFFSET: u8 = 0;
/// Accelerometer `CONF` output data rate: 12.5 Hz.
pub const ACC_CONF_ODR_HZ12_5: u8 = 0b0101;
/// Accelerometer `CONF` output data rate: 25 Hz.
pub const ACC_CONF_ODR_HZ25: u8 = 0b0110;
/// Accelerometer `CONF` output data rate: 50 Hz.
pub const ACC_CONF_ODR_HZ50: u8 = 0b0111;
/// Accelerometer `CONF` output data rate: 100 Hz.
pub const ACC_CONF_ODR_HZ100: u8 = 0b1000;
/// Accelerometer `CONF` output data rate: 200 Hz.
pub const ACC_CONF_ODR_HZ200: u8 = 0b1001;
/// Accelerometer `CONF` output data rate: 400 Hz.
pub const ACC_CONF_ODR_HZ400: u8 = 0b1010;
/// Accelerometer `CONF` output data rate: 800 Hz.
pub const ACC_CONF_ODR_HZ800: u8 = 0b1011;
/// Accelerometer `CONF` output data rate: 1600 Hz.
pub const ACC_CONF_ODR_HZ1600: u8 = 0b1100;

/// Accelerometer `STATUS`: position of the data-ready bit.
pub const ACC_STATUS_DRDY_OFFSET: u8 = 7;
/// Accelerometer `STATUS`: mask of the data-ready bit.
pub const ACC_STATUS_DRDY_MASK: u8 = 0x80;

/// Gyroscope `GYRO_SELF_TEST`: mask of the bit set when the self-test passed.
pub const GYRO_SELF_TEST_OK_MASK: u8 = 0x10;
/// Gyroscope `GYRO_SELF_TEST`: mask of the bit set when the self-test failed.
pub const GYRO_SELF_TEST_FAIL_MASK: u8 = 0x04;
/// Gyroscope `GYRO_SELF_TEST`: mask of the bit set when the self-test finished.
pub const GYRO_SELF_TEST_RDY_MASK: u8 = 0x02;
/// Gyroscope `GYRO_SELF_TEST`: mask of the bit that starts the self-test.
pub const GYRO_SELF_TEST_TRIG_MASK: u8 = 0x01;

/// Packs a bandwidth nibble and an output-data-rate nibble into a `CONF` byte.
pub fn acc_conf(bwp: u8, odr: u8) -> (r: u8)
    requires
        bwp < 16,
        odr < 16,
    ensures
        r == bwp * 16 + odr,
{
    bwp * 16 + odr
}

} // verus!
