//! The two transports: framing of register requests into bus transfers, and
//! extraction of register data from what the bus returned.
//!
//! Both transports take the same [`Request`]s and, for a read, hand back
//! exactly the register bytes, the first one being the content of the first
//! register read. They differ only in the transfers they ask for:
//!
//! - I2C: a write of the register address followed by a read of the data in
//!   one combined transaction; a write carries the address and the data.
//! - SPI: the register address is sent with its top bit set as read marker.
//!   A register read of an instance with a dummy byte is split in two
//!   operations of one transaction (send the address, then receive the dummy
//!   byte and the data); any other read is one in-place transfer, whose first
//!   received byte (the slot of the address) and, with a dummy byte, the next
//!   one carry no data.
use crate::sealed::Sealed;
use vstd::prelude::*;

verus! {

/// A register-level exchange with one sub-sensor.
#[derive(Debug, PartialEq)]
pub enum Request {
    /// Read one register.
    ReadRegister { register: u8 },
    /// Write one register.
    WriteRegister { register: u8, value: u8 },
    /// Read `len` consecutive registers starting at `first`.
    ReadBurst { first: u8, len: usize },
    /// Write `payload` to consecutive registers starting at `first`.
    WriteBurst { first: u8, payload: Vec<u8> },
}

impl Request {
    /// How many register bytes the request reads.
    pub open spec fn data_len(&self) -> nat {
        match self {
            Request::ReadRegister { .. } => 1,
            Request::ReadBurst { len, .. } => *len as nat,
            _ => 0,
        }
    }

    /// The transfer for the request fits the machine's sizes.
    pub open spec fn fits(&self) -> bool {
        match self {
            Request::ReadBurst { len, .. } => *len + 2 <= usize::MAX,
            Request::WriteBurst { payload, .. } => payload.len() + 1 <= usize::MAX,
            _ => true,
        }
    }
}

/// One transaction on the bus, given by the bytes to send.
#[derive(Debug, PartialEq)]
pub enum BusTransfer {
    /// Send `bytes`.
    Write { bytes: Vec<u8> },
    /// Send `bytes`, then receive `read_len` bytes, in one transaction.
    WriteRead { bytes: Vec<u8>, read_len: usize },
    /// Exchange `bytes` full-duplex; the received bytes replace them.
    TransferInPlace { bytes: Vec<u8> },
}

impl BusTransfer {
    /// How many bytes the transfer receives.
    pub open spec fn received_len(&self) -> nat {
        match self {
            BusTransfer::Write { .. } => 0,
            BusTransfer::WriteRead { read_len, .. } => *read_len as nat,
            BusTransfer::TransferInPlace { bytes } => bytes@.len(),
        }
    }

    /// The transfer sends `sent` and receives nothing.
    pub open spec fn is_write(&self, sent: Seq<u8>) -> bool {
        match self {
            BusTransfer::Write { bytes } => bytes@ == sent,
            _ => false,
        }
    }

    /// The transfer sends `sent`, then receives `n` bytes.
    pub open spec fn is_write_read(&self, sent: Seq<u8>, n: nat) -> bool {
        match self {
            BusTransfer::WriteRead { bytes, read_len } => bytes@ == sent && *read_len as nat == n,
            _ => false,
        }
    }

    /// The transfer exchanges `sent` in place.
    pub open spec fn is_transfer_in_place(&self, sent: Seq<u8>) -> bool {
        match self {
            BusTransfer::TransferInPlace { bytes } => bytes@ == sent,
            _ => false,
        }
    }
}

/// The address byte that marks a read on SPI.
pub open spec fn spi_read_marker(register: u8) -> u8 {
    register | 0x80
}

/// `n` zero bytes.
pub open spec fn zeros(n: nat) -> Seq<u8> {
    Seq::new(n, |i: int| 0u8)
}

/// Copies `len` bytes of `v` starting at `start`.
fn copy_range(v: &Vec<u8>, start: usize, len: usize) -> (r: Vec<u8>)
    requires
        start + len <= v.len(),
    ensures
        r@ == v@.subrange(start as int, start + len),
{
    let mut r: Vec<u8> = Vec::new();
    let mut i: usize = 0;
    while i < len
        invariant
            i <= len,
            start + len <= v.len(),
            r@ == v@.subrange(start as int, start + i),
        decreases len - i,
    {
        r.push(v[start + i]);
        i = i + 1;
        assert(r@ =~= v@.subrange(start as int, start + i));
    }
    r
}

/// `first` followed by `rest`.
fn prefixed(first: u8, rest: &Vec<u8>) -> (r: Vec<u8>)
    requires
        rest.len() + 1 <= usize::MAX,
    ensures
        r@ == seq![first] + rest@,
{
    let mut r: Vec<u8> = Vec::new();
    r.push(first);
    let mut i: usize = 0;
    while i < rest.len()
        invariant
            i <= rest.len(),
            r@ == seq![first] + rest@.subrange(0, i as int),
        decreases rest.len() - i,
    {
        r.push(rest[i]);
        i = i + 1;
        assert(r@ =~= seq![first] + rest@.subrange(0, i as int));
    }
    assert(rest@.subrange(0, rest.len() as int) =~= rest@);
    r
}

/// `first` followed by `n` zero bytes.
fn padded(first: u8, n: usize) -> (r: Vec<u8>)
    requires
        n + 1 <= usize::MAX,
    ensures
        r@ == seq![first] + zeros(n as nat),
{
    let mut r: Vec<u8> = Vec::new();
    r.push(first);
    let mut i: usize = 0;
    while i < n
        invariant
            i <= n,
            r@ == seq![first] + zeros(i as nat),
        decreases n - i,
    {
        r.push(0);
        i = i + 1;
        assert(r@ =~= seq![first] + zeros(i as nat));
    }
    r
}

/// A transport: frames register requests into bus transfers, and extracts
/// the register data from what a transfer received.
///
/// Whatever the bus, a read hands back exactly the bytes of the registers
/// read, the first one being that of the first register.
pub trait Framing: Sealed {
    /// `t` is the transfer that performs `req`.
    spec fn framed(&self, req: Request, t: BusTransfer) -> bool;

    /// Where the register data of `req` starts among the received bytes.
    spec fn data_offset(&self, req: Request) -> nat;

    /// Frames `req` as one bus transfer.
    fn frame(&self, req: &Request) -> (t: BusTransfer)
        requires
            req.fits(),
        ensures
            self.framed(*req, t),
            t.received_len() == self.data_offset(*req) + req.data_len(),
    ;

    /// The register data among the bytes received for `req`.
    fn extract(&self, req: &Request, received: &Vec<u8>) -> (r: Vec<u8>)
        requires
            received.len() == self.data_offset(*req) + req.data_len(),
        ensures
            r@ == received@.subrange(
                self.data_offset(*req) as int,
                (self.data_offset(*req) + req.data_len()) as int,
            ),
            r@.len() == req.data_len(),
    ;
}

/// I2C transport: a bus and the sub-sensor's 7-bit device address.
#[derive(Debug)]
pub struct I2cInterface<I2C> {
    pub(crate) i2c: I2C,
    pub(crate) address: u8,
}

impl<I2C> I2cInterface<I2C> {
    /// The transport for the device at `address` on `i2c`.
    pub(crate) fn new(i2c: I2C, address: u8) -> (r: Self)
        ensures
            r.spec_bus() == i2c,
            r.spec_address() == address,
    {
        I2cInterface { i2c, address }
    }

    /// The bus the transport drives.
    pub closed spec fn spec_bus(&self) -> I2C {
        self.i2c
    }

    /// The device address transfers go to.
    pub closed spec fn spec_address(&self) -> u8 {
        self.address
    }

    /// The device address transfers go to.
    pub fn address(&self) -> (r: u8)
        ensures
            r == self.spec_address(),
    {
        self.address
    }

    /// The bus, for performing transfers.
    pub fn bus_mut(&mut self) -> (r: &mut I2C)
        ensures
            *r == old(self).spec_bus(),
            final(self).spec_bus() == *final(r),
            final(self).spec_address() == old(self).spec_address(),
    {
        &mut self.i2c
    }
}

impl<I2C> Framing for I2cInterface<I2C> {
    /// The transfer that performs `req`.
    open spec fn framed(&self, req: Request, t: BusTransfer) -> bool {
        match req {
            Request::ReadRegister { register } => t.is_write_read(seq![register], 1),
            Request::WriteRegister { register, value } => t.is_write(seq![register, value]),
            Request::ReadBurst { first, len } => t.is_write_read(seq![first], len as nat),
            Request::WriteBurst { first, payload } => t.is_write(seq![first] + payload@),
        }
    }

    /// Where the register data starts among the received bytes.
    open spec fn data_offset(&self, req: Request) -> nat {
        0
    }

    /// Frames `req` as one bus transfer.
    fn frame(&self, req: &Request) -> (t: BusTransfer) {
        match req {
            Request::ReadRegister { register } => {
                let bytes = vec![*register];
                assert(bytes@ =~= seq![*register]);
                BusTransfer::WriteRead { bytes, read_len: 1 }
            },
            Request::WriteRegister { register, value } => {
                let bytes = vec![*register, *value];
                assert(bytes@ =~= seq![*register, *value]);
                BusTransfer::Write { bytes }
            },
            Request::ReadBurst { first, len } => {
                let bytes = vec![*first];
                assert(bytes@ =~= seq![*first]);
                BusTransfer::WriteRead { bytes, read_len: *len }
            },
            Request::WriteBurst { first, payload } => BusTransfer::Write { bytes: prefixed(*first, payload) },
        }
    }

    /// The register data among the bytes received for `req`.
    fn extract(&self, req: &Request, received: &Vec<u8>) -> (r: Vec<u8>) {
        copy_range(received, 0, received.len())
    }
}

/// SPI transport: a chip-selected bus device, and whether the sub-sensor
/// sends a dummy byte before the data of a read.
#[derive(Debug)]
pub struct SpiInterface<SPI> {
    pub(crate) spi: SPI,
    pub(crate) has_dummy_byte: bool,
}

impl<SPI> SpiInterface<SPI> {
    /// The transport for the device `spi`.
    pub(crate) fn new(spi: SPI, has_dummy_byte: bool) -> (r: Self)
        ensures
            r.spec_bus() == spi,
            r.spec_has_dummy_byte() == has_dummy_byte,
    {
        SpiInterface { spi, has_dummy_byte }
    }

    /// The bus the transport drives.
    pub closed spec fn spec_bus(&self) -> SPI {
        self.spi
    }

    /// Reads deliver one dummy byte before the data.
    pub closed spec fn spec_has_dummy_byte(&self) -> bool {
        self.has_dummy_byte
    }

    /// Reads deliver one dummy byte before the data.
    pub fn has_dummy_byte(&self) -> (r: bool)
        ensures
            r == self.spec_has_dummy_byte(),
    {
        self.has_dummy_byte
    }

    /// The bus, for performing transfers.
    pub fn bus_mut(&mut self) -> (r: &mut SPI)
        ensures
            *r == old(self).spec_bus(),
            final(self).spec_bus() == *final(r),
            final(self).spec_has_dummy_byte() == old(self).spec_has_dummy_byte(),
    {
        &mut self.spi
    }

    /// Number of dummy bytes before the data of a read.
    pub open spec fn dummy_len(&self) -> nat {
        if self.spec_has_dummy_byte() {
            1
        } else {
            0
        }
    }
}

impl<SPI> Framing for SpiInterface<SPI> {
    /// The transfer that performs `req`.
    open spec fn framed(&self, req: Request, t: BusTransfer) -> bool {
        match req {
            Request::ReadRegister { register } => if self.spec_has_dummy_byte() {
                t.is_write_read(seq![spi_read_marker(register)], 2)
            } else {
                t.is_transfer_in_place(seq![spi_read_marker(register), 0u8])
            },
            Request::WriteRegister { register, value } => t.is_write(seq![register, value]),
            Request::ReadBurst { first, len } => t.is_transfer_in_place(
                seq![spi_read_marker(first)] + zeros((self.dummy_len() + len) as nat),
            ),
            Request::WriteBurst { first, payload } => t.is_write(seq![first] + payload@),
        }
    }

    /// Where the register data starts among the received bytes: after the
    /// address slot and the dummy byte of an in-place transfer, after the
    /// dummy byte of a split one.
    open spec fn data_offset(&self, req: Request) -> nat {
        match req {
            Request::ReadRegister { .. } => 1,
            Request::ReadBurst { .. } => 1 + self.dummy_len(),
            _ => 0,
        }
    }

    /// Frames `req` as one bus transfer.
    fn frame(&self, req: &Request) -> (t: BusTransfer) {
        match req {
            Request::ReadRegister { register } => {
                if self.has_dummy_byte {
                    let bytes = vec![*register | 0x80];
                    assert(bytes@ =~= seq![spi_read_marker(*register)]);
                    BusTransfer::WriteRead { bytes, read_len: 2 }
                } else {
                    let bytes = vec![*register | 0x80, 0u8];
                    assert(bytes@ =~= seq![spi_read_marker(*register), 0u8]);
                    BusTransfer::TransferInPlace { bytes }
                }
            },
            Request::WriteRegister { register, value } => {
                let bytes = vec![*register, *value];
                assert(bytes@ =~= seq![*register, *value]);
                BusTransfer::Write { bytes }
            },
            Request::ReadBurst { first, len } => {
                let n: usize = if self.has_dummy_byte {
                    *len + 1
                } else {
                    *len
                };
                BusTransfer::TransferInPlace { bytes: padded(*first | 0x80, n) }
            },
            Request::WriteBurst { first, payload } => BusTransfer::Write { bytes: prefixed(*first, payload) },
        }
    }

    /// The register data among the bytes received for `req`.
    fn extract(&self, req: &Request, received: &Vec<u8>) -> (r: Vec<u8>) {
        let offset: usize = match req {
            Request::ReadRegister { .. } => 1,
            Request::ReadBurst { .. } => if self.has_dummy_byte {
                2
            } else {
                1
            },
            _ => 0,
        };
        copy_range(received, offset, received.len() - offset)
    }
}

} // verus!
