use bmi088::acc_impl::{AccelerometerRange, Accelerometer};
use bmi088::gyro_impl::{GyroscopeRange, Gyroscope};
use bmi088::interface::{BusTransfer, Framing, I2cInterface, Request, SpiInterface};
use bmi088::{Bmi088, Error};

/// A simulated sub-sensor: a register file behind an SPI or I2C link,
/// counting the transfers it sees.
struct SimDevice {
    regs: [u8; 256],
    sends_dummy: bool,
    fail: bool,
    transfers: usize,
}

impl SimDevice {
    fn new(sends_dummy: bool) -> SimDevice {
        SimDevice { regs: [0; 256], sends_dummy, fail: false, transfers: 0 }
    }

    fn write(&mut self, bytes: &[u8]) {
        let first = bytes[0] as usize;
        for (i, b) in bytes[1..].iter().enumerate() {
            self.regs[first + i] = *b;
        }
    }

    /// What the device clocks out after the address byte of an SPI read.
    fn spi_stream(&self, marker: u8, n: usize) -> Vec<u8> {
        assert!(marker & 0x80 != 0);
        let first = (marker & 0x7F) as usize;
        let mut out = Vec::new();
        if self.sends_dummy {
            out.push(0x5A);
        }
        let mut i = 0;
        while out.len() < n {
            out.push(self.regs[first + i]);
            i += 1;
        }
        out.truncate(n);
        out
    }

    fn run_spi(&mut self, t: &BusTransfer) -> Result<Vec<u8>, ()> {
        self.transfers += 1;
        if self.fail {
            return Err(());
        }
        match t {
            BusTransfer::Write { bytes } => {
                self.write(bytes);
                Ok(Vec::new())
            }
            BusTransfer::WriteRead { bytes, read_len } => {
                assert_eq!(bytes.len(), 1);
                Ok(self.spi_stream(bytes[0], *read_len))
            }
            BusTransfer::TransferInPlace { bytes } => {
                let mut rx = vec![0xEE];
                rx.extend(self.spi_stream(bytes[0], bytes.len() - 1));
                Ok(rx)
            }
        }
    }

    fn run_i2c(&mut self, address: u8, t: &BusTransfer) -> Result<Vec<u8>, ()> {
        assert_eq!(address, 0x18);
        self.transfers += 1;
        if self.fail {
            return Err(());
        }
        match t {
            BusTransfer::Write { bytes } => {
                self.write(bytes);
                Ok(Vec::new())
            }
            BusTransfer::WriteRead { bytes, read_len } => {
                let first = bytes[0] as usize;
                Ok(self.regs[first..first + read_len].to_vec())
            }
            BusTransfer::TransferInPlace { .. } => panic!("no in-place transfers on I2C"),
        }
    }
}

fn spi_exec(iface: &mut SpiInterface<SimDevice>, req: &Request) -> Result<Vec<u8>, ()> {
    let t = iface.frame(req);
    let rx = iface.bus_mut().run_spi(&t)?;
    Ok(iface.extract(req, &rx))
}

fn i2c_exec(iface: &mut I2cInterface<SimDevice>, req: &Request) -> Result<Vec<u8>, ()> {
    let t = iface.frame(req);
    let address = iface.address();
    let rx = iface.bus_mut().run_i2c(address, &t)?;
    Ok(iface.extract(req, &rx))
}

fn acc_read_axes(acc: &mut Accelerometer<SpiInterface<SimDevice>>) -> Result<(i16, i16, i16), Error<()>> {
    let status_req = acc.status_request();
    let status = spi_exec(acc.iface_mut(), &status_req).map_err(Error::IOError)?;
    let axes_req = acc.axes_after_status::<()>(status[0])?;
    let data = spi_exec(acc.iface_mut(), &axes_req).map_err(Error::IOError)?;
    Ok(acc.decode_axes(&data))
}

fn spi_acc() -> Accelerometer<SpiInterface<SimDevice>> {
    let mut acc = Bmi088::new_acc_with_spi(SimDevice::new(true));
    let regs = &mut acc.iface_mut().bus_mut().regs;
    regs[0x00] = 0x1E;
    regs[0x12..0x18].copy_from_slice(&[0x34, 0x12, 0xFF, 0xFF, 0x00, 0x80]);
    regs[0x18..0x1B].copy_from_slice(&[0xE8, 0x03, 0x00]);
    regs[0x22] = 0xC1;
    regs[0x23] = 0x00;
    acc
}

#[test]
fn constructors_set_default_ranges_and_framing() {
    let acc = Bmi088::new_acc_with_spi(SimDevice::new(true));
    assert_eq!(acc.range(), AccelerometerRange::Scale6g);
    assert!(acc.iface().has_dummy_byte());
    let acc = Bmi088::new_acc_with_i2c(SimDevice::new(false), 0x18);
    assert_eq!(acc.range(), AccelerometerRange::Scale6g);
    assert_eq!(acc.iface().address(), 0x18);
    let gyro = Bmi088::new_gyro_with_spi(SimDevice::new(false));
    assert_eq!(gyro.range(), GyroscopeRange::Scale2000);
    assert!(!gyro.iface().has_dummy_byte());
    let gyro = Bmi088::new_gyro_with_i2c(SimDevice::new(false), 0x68);
    assert_eq!(gyro.range(), GyroscopeRange::Scale2000);
    assert_eq!(gyro.iface().address(), 0x68);
}

#[test]
fn not_ready_status_stops_after_one_transfer() {
    let mut acc = spi_acc();
    acc.iface_mut().bus_mut().regs[0x03] = 0x7F;
    assert_eq!(acc_read_axes(&mut acc), Err(Error::NoDrdy));
    assert_eq!(acc.iface_mut().bus_mut().transfers, 1);
}

#[test]
fn ready_status_reads_axes_in_one_burst() {
    let mut acc = spi_acc();
    acc.iface_mut().bus_mut().regs[0x03] = 0x80;
    assert_eq!(acc_read_axes(&mut acc), Ok((4660, -1, i16::MIN)));
    assert_eq!(acc.iface_mut().bus_mut().transfers, 2);
}

#[test]
fn axes_after_status_decides_on_top_bit() {
    let acc = Bmi088::new_acc_with_spi(SimDevice::new(true));
    assert_eq!(acc.axes_after_status::<()>(0x00), Err(Error::NoDrdy));
    assert_eq!(acc.axes_after_status::<()>(0x7F), Err(Error::NoDrdy));
    assert_eq!(
        acc.axes_after_status::<()>(0x80),
        Ok(Request::ReadBurst { first: 0x12, len: 6 })
    );
    assert_eq!(
        acc.axes_after_status::<()>(0xFF),
        Ok(Request::ReadBurst { first: 0x12, len: 6 })
    );
}

#[test]
fn temperature_and_sensor_time_over_spi() {
    let mut acc = spi_acc();
    let req = acc.temperature_request();
    let data = spi_exec(acc.iface_mut(), &req).unwrap();
    assert_eq!(data, vec![0xC1, 0x00]);
    assert_eq!(acc.decode_temperature(&data), -504);
    let req = acc.sensor_time_request();
    let data = spi_exec(acc.iface_mut(), &req).unwrap();
    assert_eq!(acc.decode_sensor_time(&data), 39000);
}

#[test]
fn chip_id_over_both_transports() {
    let mut acc = spi_acc();
    let req = acc.chip_id_request();
    assert_eq!(spi_exec(acc.iface_mut(), &req).unwrap(), vec![0x1E]);

    let mut acc = Bmi088::new_acc_with_i2c(SimDevice::new(false), 0x18);
    acc.iface_mut().bus_mut().regs[0x00] = 0x1E;
    let req = acc.chip_id_request();
    assert_eq!(i2c_exec(acc.iface_mut(), &req).unwrap(), vec![0x1E]);

    let mut gyro = Bmi088::new_gyro_with_spi(SimDevice::new(false));
    gyro.iface_mut().bus_mut().regs[0x00] = 0x0F;
    let req = gyro.chip_id_request();
    assert_eq!(spi_exec(gyro.iface_mut(), &req).unwrap(), vec![0x0F]);
}

#[test]
fn range_write_failure_keeps_range() {
    let mut acc = spi_acc();
    acc.iface_mut().bus_mut().fail = true;
    let req = acc.range_request(AccelerometerRange::Scale24g);
    let written = spi_exec(acc.iface_mut(), &req).map(|_| ());
    assert_eq!(acc.commit_range(AccelerometerRange::Scale24g, written), Err(Error::IOError(())));
    assert_eq!(acc.range(), AccelerometerRange::Scale6g);
}

#[test]
fn range_write_success_updates_range_and_register() {
    let mut acc = spi_acc();
    let req = acc.range_request(AccelerometerRange::Scale24g);
    let written = spi_exec(acc.iface_mut(), &req).map(|_| ());
    assert_eq!(acc.commit_range(AccelerometerRange::Scale24g, written), Ok(()));
    assert_eq!(acc.range(), AccelerometerRange::Scale24g);
    assert_eq!(acc.iface_mut().bus_mut().regs[0x41], 0x03);
    assert_eq!(acc.scale_axes((4660, -1, i16::MIN)), (4660 * 24, -24, -32768 * 24));
}

#[test]
fn write_requests_land_in_registers() {
    let mut acc = Bmi088::new_acc_with_i2c(SimDevice::new(false), 0x18);
    let reqs = vec![
        acc.soft_reset_request(),
        acc.pwr_save_request(0x00),
        acc.conf_request(0xA8),
        acc.enable_request(),
    ];
    for req in &reqs {
        i2c_exec(acc.iface_mut(), req).unwrap();
    }
    let regs = acc.iface_mut().bus_mut().regs;
    assert_eq!(regs[0x7E], 0xB6);
    assert_eq!(regs[0x7C], 0x00);
    assert_eq!(regs[0x40], 0xA8);
    assert_eq!(regs[0x7D], 0x04);
}

#[test]
fn self_test_bit_isolation() {
    let gyro = Bmi088::new_gyro_with_spi(SimDevice::new(false));
    assert_eq!(gyro.check_self_test::<()>(0x10), Ok(()));
    assert_eq!(gyro.check_self_test::<()>(0xFF), Ok(()));
    assert_eq!(gyro.check_self_test::<()>(0x00), Err(Error::GyroFunctionUnproper));
    assert_eq!(gyro.check_self_test::<()>(0xEF), Err(Error::GyroFunctionUnproper));
    assert_eq!(gyro.check_self_test::<()>(0x04), Err(Error::GyroFunctionUnproper));
}

#[test]
fn self_test_read_over_spi() {
    let mut gyro = Bmi088::new_gyro_with_spi(SimDevice::new(false));
    gyro.iface_mut().bus_mut().regs[0x3C] = 0x12;
    let req = gyro.self_test_request();
    let status = spi_exec(gyro.iface_mut(), &req).unwrap();
    assert_eq!(gyro.check_self_test::<()>(status[0]), Ok(()));
}

#[test]
fn gyro_rates_burst_and_per_axis() {
    let mut gyro = Bmi088::new_gyro_with_spi(SimDevice::new(false));
    gyro.iface_mut().bus_mut().regs[0x02..0x08].copy_from_slice(&[0x34, 0x12, 0xFF, 0xFF, 0x10, 0x00]);
    let req = gyro.rates_request();
    let data = spi_exec(gyro.iface_mut(), &req).unwrap();
    let rates = gyro.decode_rates(&data);
    assert_eq!(rates, (4660, -1, 16));
    assert_eq!(gyro.scale_rates(rates), (4660 * 610, -610, 16 * 610));

    let (lsb_req, msb_req) = gyro.x_axis_requests();
    let lsb = spi_exec(gyro.iface_mut(), &lsb_req).unwrap()[0];
    let msb = spi_exec(gyro.iface_mut(), &msb_req).unwrap()[0];
    assert_eq!(gyro.decode_axis(lsb, msb), 4660);
    let (lsb_req, msb_req) = gyro.y_axis_requests();
    assert_eq!(lsb_req, Request::ReadRegister { register: 0x04 });
    assert_eq!(msb_req, Request::ReadRegister { register: 0x05 });
    let (lsb_req, msb_req) = gyro.z_axis_requests();
    assert_eq!(lsb_req, Request::ReadRegister { register: 0x06 });
    assert_eq!(msb_req, Request::ReadRegister { register: 0x07 });
    assert_eq!(gyro.bandwidth_request(0x82), Request::WriteRegister { register: 0x10, value: 0x82 });
}

#[test]
fn gyro_rates_over_i2c() {
    let mut gyro: Gyroscope<I2cInterface<SimDevice>> = Bmi088::new_gyro_with_i2c(SimDevice::new(false), 0x18);
    gyro.iface_mut().bus_mut().regs[0x02..0x08].copy_from_slice(&[0x01, 0x00, 0x02, 0x00, 0x03, 0x00]);
    let req = gyro.rates_request();
    let data = i2c_exec(gyro.iface_mut(), &req).unwrap();
    assert_eq!(gyro.decode_rates(&data), (1, 2, 3));
}

#[test]
fn spi_split_and_combined_register_reads() {
    let with_dummy = Bmi088::new_acc_with_spi(SimDevice::new(true));
    let t = with_dummy.iface().frame(&Request::ReadRegister { register: 0x03 });
    assert_eq!(t, BusTransfer::WriteRead { bytes: vec![0x83], read_len: 2 });
    assert_eq!(with_dummy.iface().extract(&Request::ReadRegister { register: 0x03 }, &vec![0x5A, 0x80]), vec![0x80]);

    let without_dummy = Bmi088::new_gyro_with_spi(SimDevice::new(false));
    let t = without_dummy.iface().frame(&Request::ReadRegister { register: 0x3C });
    assert_eq!(t, BusTransfer::TransferInPlace { bytes: vec![0xBC, 0x00] });
    assert_eq!(without_dummy.iface().extract(&Request::ReadRegister { register: 0x3C }, &vec![0xEE, 0x10]), vec![0x10]);
}

#[test]
fn spi_burst_framing_skips_address_and_dummy_slots() {
    let acc = Bmi088::new_acc_with_spi(SimDevice::new(true));
    let req = Request::ReadBurst { first: 0x12, len: 6 };
    assert_eq!(acc.iface().frame(&req), BusTransfer::TransferInPlace { bytes: vec![0x92, 0, 0, 0, 0, 0, 0, 0] });
    assert_eq!(acc.iface().extract(&req, &vec![9, 9, 1, 2, 3, 4, 5, 6]), vec![1, 2, 3, 4, 5, 6]);

    let gyro = Bmi088::new_gyro_with_spi(SimDevice::new(false));
    let req = Request::ReadBurst { first: 0x02, len: 6 };
    assert_eq!(gyro.iface().frame(&req), BusTransfer::TransferInPlace { bytes: vec![0x82, 0, 0, 0, 0, 0, 0] });
    assert_eq!(gyro.iface().extract(&req, &vec![9, 1, 2, 3, 4, 5, 6]), vec![1, 2, 3, 4, 5, 6]);
}

#[test]
fn i2c_framing() {
    let acc = Bmi088::new_acc_with_i2c(SimDevice::new(false), 0x18);
    let iface = acc.iface();
    assert_eq!(iface.frame(&Request::ReadRegister { register: 0x00 }), BusTransfer::WriteRead { bytes: vec![0x00], read_len: 1 });
    assert_eq!(iface.frame(&Request::ReadBurst { first: 0x22, len: 2 }), BusTransfer::WriteRead { bytes: vec![0x22], read_len: 2 });
    assert_eq!(iface.frame(&Request::WriteRegister { register: 0x41, value: 2 }), BusTransfer::Write { bytes: vec![0x41, 2] });
    assert_eq!(
        iface.frame(&Request::WriteBurst { first: 0x40, payload: vec![0xA8, 0x01] }),
        BusTransfer::Write { bytes: vec![0x40, 0xA8, 0x01] }
    );
    assert_eq!(iface.extract(&Request::ReadBurst { first: 0x22, len: 2 }, &vec![0xC1, 0x00]), vec![0xC1, 0x00]);
}

#[test]
fn spi_write_framing() {
    let acc = Bmi088::new_acc_with_spi(SimDevice::new(true));
    assert_eq!(acc.iface().frame(&Request::WriteRegister { register: 0x7E, value: 0xB6 }), BusTransfer::Write { bytes: vec![0x7E, 0xB6] });
    assert_eq!(
        acc.iface().frame(&Request::WriteBurst { first: 0x40, payload: vec![0xA8, 0x01] }),
        BusTransfer::Write { bytes: vec![0x40, 0xA8, 0x01] }
    );
}
