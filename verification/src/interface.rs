//! I2C/SPI transport adapters.
//!
//! Both adapters implement one read/write contract ([`WriteData`] and
//! [`ReadData`]): a register write sends an address byte and a value byte,
//! a register read yields one byte, and a burst read yields `count`
//! consecutive bytes without re-issuing the address. The bit-exact wire
//! framing of each bus is built here in verified code on top of a minimal
//! byte-level bus contract ([`I2cBus`], [`SpiBus`]) that the surrounding
//! platform code implements with its HAL.

use vstd::prelude::*;

use crate::types::Error;
use crate::Sealed;

verus! {

/// MMC5983 I2C device address (7-bit).
pub const MMC5983_ADDR: u8 = 0b0110000;

/// Bit 7 of the SPI address byte: set for a read, clear for a write.
pub const SPI_RW: u8 = 0x80;

/// Size of the SPI scratch buffer: one address byte plus up to 31 payload
/// bytes. A burst read of this many bytes or more cannot be framed.
pub const SPI_SCRATCH: usize = 32;

/// Byte-level contract of an I2C bus: what the platform's I2C
/// implementation must provide for this device's 7-bit address.
pub trait I2cBus {
    /// Raw communication error of the bus.
    type Comm;

    /// One write transaction of the payload bytes to the device address.
    fn bus_write(&mut self, payload: &Vec<u8>) -> Result<(), Self::Comm>;

    /// One write-then-read transaction: send `out`, then read exactly
    /// `count` bytes.
    fn bus_write_read(&mut self, out: u8, count: usize) -> (r: Result<Vec<u8>, Self::Comm>)
        ensures
            r matches Ok(v) ==> v@.len() == count,
    ;
}

/// Byte-level contract of an SPI device: what the platform's SPI
/// implementation must provide for this device's chip select.
pub trait SpiBus {
    /// Raw communication error of the bus.
    type Comm;

    /// One write transaction of the payload bytes.
    fn bus_write(&mut self, payload: &Vec<u8>) -> Result<(), Self::Comm>;

    /// One full-duplex exchange: the response holds exactly as many bytes
    /// as the request.
    fn bus_transfer_in_place(&mut self, data: Vec<u8>) -> (r: Result<Vec<u8>, Self::Comm>)
        ensures
            r matches Ok(v) ==> v@.len() == data@.len(),
    ;
}

/// I2C interface.
#[derive(Debug)]
pub struct I2cInterface<I2C> {
    /// Underlying I2C bus.
    pub i2c: I2C,
}

/// SPI interface.
#[derive(Debug)]
pub struct SpiInterface<SPI> {
    /// Underlying SPI device.
    pub spi: SPI,
}

/// Write half of the register-transport contract.
pub trait WriteData: Sealed {
    /// Raw communication error of the underlying bus.
    type Comm;

    /// Write `value` into the register at `addr`.
    fn write_register(&mut self, addr: u8, value: u8) -> (r: Result<(), Error<Self::Comm>>)
        ensures
            r matches Err(e) ==> e is Comm,
    ;
}

/// Read half of the register-transport contract.
pub trait ReadData: WriteData {
    /// Read the register at `addr`.
    fn read_register(&mut self, addr: u8) -> (r: Result<u8, Error<Self::Comm>>)
        ensures
            r matches Err(e) ==> e is Comm,
    ;

    /// Read `count` consecutive registers starting at `start_addr`,
    /// letting the device auto-increment the address.
    fn read_consecutive(&mut self, start_addr: u8, count: usize) -> (r: Result<
        Vec<u8>,
        Error<Self::Comm>,
    >)
        ensures
            r matches Ok(v) ==> v@.len() == count,
            r matches Err(e) ==> e is Comm || e is InvalidInputData,
    ;
}

/// Frame of an I2C register write: the register address, then the value.
pub fn i2c_write_frame(addr: u8, value: u8) -> (r: Vec<u8>)
    ensures
        r@.len() == 2,
        r@[0] == addr,
        r@[1] == value,
{
    let mut frame: Vec<u8> = Vec::new();
    frame.push(addr);
    frame.push(value);
    frame
}

/// Frame of an SPI register write: the address byte with the read bit
/// cleared, then the value.
pub fn spi_write_frame(addr: u8, value: u8) -> (r: Vec<u8>)
    ensures
        r@.len() == 2,
        r@[0] == addr & !SPI_RW,
        r@[1] == value,
{
    let mut frame: Vec<u8> = Vec::new();
    frame.push(addr & !SPI_RW);
    frame.push(value);
    frame
}

/// Frame of an SPI burst read: the start address with the read bit set,
/// followed by `count` placeholder bytes clocked out while the device
/// answers.
pub fn spi_burst_frame(start_addr: u8, count: usize) -> (r: Vec<u8>)
    requires
        count < SPI_SCRATCH,
    ensures
        r@.len() == count + 1,
        r@[0] == start_addr | SPI_RW,
        forall|i: int| 1 <= i < r@.len() ==> r@[i] == 0u8,
{
    let mut frame: Vec<u8> = Vec::new();
    frame.push(start_addr | SPI_RW);
    let mut i: usize = 0;
    while i < count
        invariant
            i <= count,
            frame@.len() == i + 1,
            frame@[0] == start_addr | SPI_RW,
            forall|j: int| 1 <= j < frame@.len() ==> frame@[j] == 0u8,
        decreases count - i,
    {
        frame.push(0u8);
        i = i + 1;
    }
    frame
}

/// The bytes of a burst response after the leading address byte.
fn tail_bytes(data: &Vec<u8>) -> (r: Vec<u8>)
    requires
        data@.len() >= 1,
    ensures
        r@.len() == data@.len() - 1,
        forall|i: int| 0 <= i < r@.len() ==> r@[i] == data@[i + 1],
{
    let mut out: Vec<u8> = Vec::new();
    let mut i: usize = 1;
    while i < data.len()
        invariant
            1 <= i <= data@.len(),
            out@.len() == i - 1,
            forall|j: int| 0 <= j < out@.len() ==> out@[j] == data@[j + 1],
        decreases data@.len() - i,
    {
        out.push(data[i]);
        i = i + 1;
    }
    out
}

impl<I2C> Sealed for I2cInterface<I2C> {

}

impl<SPI> Sealed for SpiInterface<SPI> {

}

impl<I2C: I2cBus> WriteData for I2cInterface<I2C> {
    type Comm = I2C::Comm;

    fn write_register(&mut self, addr: u8, value: u8) -> (r: Result<(), Error<I2C::Comm>>) {
        let payload = i2c_write_frame(addr, value);
        match self.i2c.bus_write(&payload) {
            Ok(()) => Ok(()),
            Err(e) => Err(Error::Comm(e)),
        }
    }
}

impl<I2C: I2cBus> ReadData for I2cInterface<I2C> {
    fn read_register(&mut self, addr: u8) -> (r: Result<u8, Error<I2C::Comm>>) {
        match self.i2c.bus_write_read(addr, 1) {
            Ok(data) => Ok(data[0]),
            Err(e) => Err(Error::Comm(e)),
        }
    }

    fn read_consecutive(&mut self, start_addr: u8, count: usize) -> (r: Result<
        Vec<u8>,
        Error<I2C::Comm>,
    >) {
        match self.i2c.bus_write_read(start_addr, count) {
            Ok(data) => Ok(data),
            Err(e) => Err(Error::Comm(e)),
        }
    }
}

impl<SPI: SpiBus> WriteData for SpiInterface<SPI> {
    type Comm = SPI::Comm;

    fn write_register(&mut self, addr: u8, value: u8) -> (r: Result<(), Error<SPI::Comm>>) {
        let payload = spi_write_frame(addr, value);
        match self.spi.bus_write(&payload) {
            Ok(()) => Ok(()),
            Err(e) => Err(Error::Comm(e)),
        }
    }
}

impl<SPI: SpiBus> ReadData for SpiInterface<SPI> {
    fn read_register(&mut self, addr: u8) -> (r: Result<u8, Error<SPI::Comm>>) {
        let frame = spi_burst_frame(addr, 1);
        match self.spi.bus_transfer_in_place(frame) {
            Ok(data) => Ok(data[1]),
            Err(e) => Err(Error::Comm(e)),
        }
    }

    fn read_consecutive(&mut self, start_addr: u8, count: usize) -> (r: Result<
        Vec<u8>,
        Error<SPI::Comm>,
    >)
        ensures
            count >= SPI_SCRATCH <==> (r matches Err(e) && e is InvalidInputData),
    {
        if count >= SPI_SCRATCH {
            return Err(Error::InvalidInputData);
        }
        let frame = spi_burst_frame(start_addr, count);
        match self.spi.bus_transfer_in_place(frame) {
            Ok(data) => Ok(tail_bytes(&data)),
            Err(e) => Err(Error::Comm(e)),
        }
    }
}

} // verus!
