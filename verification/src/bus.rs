//! The shared two-wire bus. A `Bus` owns one `rppal` I2C device; every
//! transaction is a single block read or write behind a trusted wrapper, and
//! everything between two transactions — masking, shifting, assembling words —
//! is verified against the bits module.
//!
//! A field update is one read, a local mutation and one write: it is not
//! atomic across the two transactions, so concurrent access to one register
//! needs external locking by the caller.

use vstd::prelude::*;
use crate::bits::{
    read_bit8, read_bit16, read_field8, read_field16, word_from_bytes, bytes_from_word,
    write_bit8, write_bit16, write_field8, write_field16,
};

verus! {

#[verifier::external_type_specification]
#[verifier::external_body]
pub struct ExI2c(rppal::i2c::I2c);

#[verifier::external_type_specification]
#[verifier::external_body]
pub struct ExI2cError(rppal::i2c::Error);

/// A failed bus transaction. Transient by design: callers retry on their next
/// polling iteration.
#[derive(Clone, Copy, PartialEq, Eq, Structural, Debug)]
pub enum BusError {
    Io,
}

/// Relies on rppal's `I2c::block_read`: one I2C read transaction of a single
/// byte at the given register address. What comes back depends on the device.
#[verifier::external_body]
fn block_read_byte(dev: &rppal::i2c::I2c, command: u8) -> Result<u8, rppal::i2c::Error> {
    let mut buffer: [u8; 1] = [0];
    dev.block_read(command, &mut buffer)?;
    Ok(buffer[0])
}

/// Relies on rppal's `I2c::block_read`: one I2C read transaction of two bytes
/// at the given register address, handed back as (first, second) in bus
/// order. What comes back depends on the device.
#[verifier::external_body]
fn block_read_pair(dev: &rppal::i2c::I2c, command: u8) -> Result<(u8, u8), rppal::i2c::Error> {
    let mut buffer: [u8; 2] = [0, 0];
    dev.block_read(command, &mut buffer)?;
    Ok((buffer[0], buffer[1]))
}

/// Relies on rppal's `I2c::block_write`: one I2C write transaction of a
/// single byte to the given register address.
#[verifier::external_body]
fn block_write_byte(dev: &rppal::i2c::I2c, command: u8, data: u8) -> Result<
    (),
    rppal::i2c::Error,
> {
    dev.block_write(command, &[data])
}

/// Relies on rppal's `I2c::block_write`: one I2C write transaction of two
/// bytes to the given register address, sent in the order given.
#[verifier::external_body]
fn block_write_pair(dev: &rppal::i2c::I2c, command: u8, first: u8, second: u8) -> Result<
    (),
    rppal::i2c::Error,
> {
    dev.block_write(command, &[first, second])
}

/// Relies on rppal's `I2c::set_slave_address`: selects which device on the
/// shared bus the following transactions address.
#[verifier::external_body]
fn device_set_slave(dev: &mut rppal::i2c::I2c, slave_address: u16) -> Result<
    (),
    rppal::i2c::Error,
> {
    dev.set_slave_address(slave_address)
}

/// The shared physical bus: one owned device handle. The lock that serializes
/// transactions between polling tasks wraps the whole `Bus` and is taken per
/// transaction by the drivers' callers.
pub struct Bus {
    dev: rppal::i2c::I2c,
}

/// Register-level read/write and bit-field read-modify-write primitives over
/// the bus. Word registers are big-endian: the first byte on the bus is the
/// high half.
pub trait I2CBit {
    /// Write one byte to an 8-bit register.
    fn ecriture_word(&self, command: u8, data: u8) -> Result<(), BusError>;

    /// Read one byte from an 8-bit register.
    fn lecture_word(&self, command: u8) -> Result<u8, BusError>;

    /// Write two bytes to a 16-bit register, high byte first.
    fn ecriture_dword(&self, command: u8, data: u16) -> Result<(), BusError>;

    /// Read two bytes from a 16-bit register, high byte first.
    fn lecture_dword(&self, command: u8) -> Result<u16, BusError>;

    /// Set or clear one bit of an 8-bit register, preserving the others: one
    /// read, a local mutation, one write.
    fn ecriture_bit8(&self, command: u8, bit: u8, state: bool) -> Result<(), BusError>
        requires
            bit < 8,
    ;

    /// Read one bit of an 8-bit register.
    fn lecture_bit8(&self, command: u8, bit: u8) -> Result<bool, BusError>
        requires
            bit < 8,
    ;

    /// Read the field of `lenght` bits at offset `bit` of an 8-bit register.
    fn lecture_bits8(&self, command: u8, bit: u8, lenght: u8) -> (r: Result<u8, BusError>)
        requires
            1 <= lenght,
            bit + lenght <= 8,
        ensures
            r is Ok ==> r->Ok_0 < (1u16 << lenght),
    ;

    /// Replace the field of `lenght` bits at offset `bit` of an 8-bit
    /// register, preserving the bits outside the field: one read, a local
    /// mutation, one write.
    fn ecriture_bits8(&self, command: u8, bit: u8, lenght: u8, value_to_write: u8) -> Result<
        (),
        BusError,
    >
        requires
            1 <= lenght,
            bit + lenght <= 8,
            value_to_write < (1u16 << lenght),
    ;

    /// Set or clear one bit of a 16-bit register, preserving the others: one
    /// read, a local mutation, one write.
    fn ecriture_bit16(&self, command: u8, bit: u8, state: bool) -> Result<(), BusError>
        requires
            bit < 16,
    ;

    /// Read one bit of a 16-bit register.
    fn lecture_bit16(&self, command: u8, bit: u8) -> Result<bool, BusError>
        requires
            bit < 16,
    ;

    /// Read the field of `lenght` bits at offset `bit` of a 16-bit register.
    fn lecture_bits16(&self, command: u8, bit: u8, lenght: u8) -> (r: Result<u16, BusError>)
        requires
            1 <= lenght,
            bit + lenght <= 16,
        ensures
            r is Ok ==> r->Ok_0 < (1u32 << lenght),
    ;

    /// Replace the field of `lenght` bits at offset `bit` of a 16-bit
    /// register, preserving the bits outside the field: one read, a local
    /// mutation, one write.
    fn ecriture_bits16(&self, command: u8, bit: u8, lenght: u8, value_to_write: u16) -> Result<
        (),
        BusError,
    >
        requires
            1 <= lenght,
            bit + lenght <= 16,
            value_to_write < (1u32 << lenght),
    ;
}

impl Bus {
    /// Take ownership of an opened I2C device.
    pub fn new(dev: rppal::i2c::I2c) -> Bus {
        Bus { dev }
    }

    /// Select which device on the shared bus the following transactions
    /// address.
    pub fn set_slave_address(&mut self, slave_address: u16) -> Result<(), BusError> {
        match device_set_slave(&mut self.dev, slave_address) {
            Ok(()) => Ok(()),
            Err(_) => Err(BusError::Io),
        }
    }

    /// Read a 16-bit register, high byte first.
    fn read_word16(&self, command: u8) -> Result<u16, BusError> {
        match block_read_pair(&self.dev, command) {
            Ok((high, low)) => Ok(word_from_bytes(high, low)),
            Err(_) => Err(BusError::Io),
        }
    }

    /// Write a 16-bit register, high byte first.
    fn write_word16(&self, command: u8, data: u16) -> Result<(), BusError> {
        let (high, low) = bytes_from_word(data);
        match block_write_pair(&self.dev, command, high, low) {
            Ok(()) => Ok(()),
            Err(_) => Err(BusError::Io),
        }
    }
}

impl I2CBit for Bus {
    fn ecriture_word(&self, command: u8, data: u8) -> Result<(), BusError> {
        match block_write_byte(&self.dev, command, data) {
            Ok(()) => Ok(()),
            Err(_) => Err(BusError::Io),
        }
    }

    fn lecture_word(&self, command: u8) -> Result<u8, BusError> {
        match block_read_byte(&self.dev, command) {
            Ok(data) => Ok(data),
            Err(_) => Err(BusError::Io),
        }
    }

    fn ecriture_dword(&self, command: u8, data: u16) -> Result<(), BusError> {
        self.write_word16(command, data)
    }

    fn lecture_dword(&self, command: u8) -> Result<u16, BusError> {
        self.read_word16(command)
    }

    fn ecriture_bit8(&self, command: u8, bit: u8, state: bool) -> Result<(), BusError> {
        let reg = self.lecture_word(command)?;
        self.ecriture_word(command, write_bit8(reg, bit, state))
    }

    fn lecture_bit8(&self, command: u8, bit: u8) -> Result<bool, BusError> {
        let reg = self.lecture_word(command)?;
        Ok(read_bit8(reg, bit))
    }

    fn lecture_bits8(&self, command: u8, bit: u8, lenght: u8) -> (r: Result<u8, BusError>) {
        let reg = self.lecture_word(command)?;
        Ok(read_field8(reg, bit, lenght))
    }

    fn ecriture_bits8(&self, command: u8, bit: u8, lenght: u8, value_to_write: u8) -> Result<
        (),
        BusError,
    > {
        let reg = self.lecture_word(command)?;
        self.ecriture_word(command, write_field8(reg, bit, lenght, value_to_write))
    }

    fn ecriture_bit16(&self, command: u8, bit: u8, state: bool) -> Result<(), BusError> {
        let reg = self.read_word16(command)?;
        self.write_word16(command, write_bit16(reg, bit, state))
    }

    fn lecture_bit16(&self, command: u8, bit: u8) -> Result<bool, BusError> {
        let reg = self.read_word16(command)?;
        Ok(read_bit16(reg, bit))
    }

    fn lecture_bits16(&self, command: u8, bit: u8, lenght: u8) -> (r: Result<u16, BusError>) {
        let reg = self.read_word16(command)?;
        Ok(read_field16(reg, bit, lenght))
    }

    fn ecriture_bits16(&self, command: u8, bit: u8, lenght: u8, value_to_write: u16) -> Result<
        (),
        BusError,
    > {
        let reg = self.read_word16(command)?;
        self.write_word16(command, write_field16(reg, bit, lenght, value_to_write))
    }
}

} // verus!
