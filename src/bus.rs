//! # Bus frames
//! The wire format of the L9961 on its two-wire bus, and the two bus transactions the driver
//! makes. A register is read by writing its one-byte address and reading two bytes per
//! register, big-endian; a register is written with the three bytes
//! `[address, value high byte, value low byte]`.
use crate::registers::Registers;
use embedded_hal::i2c::ErrorKind;
use vstd::prelude::*;

verus! {

/// A transaction that the driver handed to the bus.
#[derive(Clone, Copy, Debug, PartialEq, Eq)]
pub enum BusRequest {
    /// Write the register address `register`, then read `len` bytes
    Read { address: u8, register: u8, len: usize },
    /// Write the bytes of `frame`
    Write { address: u8, frame: [u8; 3] },
}

/// The big-endian word of a high and a low byte.
pub open spec fn be_word(hi: u8, lo: u8) -> u16 {
    (hi * 256 + lo) as u16
}

/// The words of a read of consecutive registers: each pair of bytes, big-endian.
pub open spec fn words_of(bytes: Seq<u8>) -> Seq<u16> {
    Seq::new((bytes.len() / 2) as nat, |i: int| be_word(bytes[2 * i], bytes[2 * i + 1]))
}

/// The bytes that write `value` to `register`.
pub open spec fn write_frame_of(register: Registers, value: u16) -> Seq<u8> {
    seq![register.address_of(), (value / 256) as u8, (value % 256) as u8]
}

/// The bytes that write `value` to `register`: the register address, then the value
/// big-endian.
pub fn write_frame(register: Registers, value: u16) -> (r: [u8; 3])
    ensures
        r@ == write_frame_of(register, value),
{
    let frame = [register.address(), (value / 256) as u8, (value % 256) as u8];
    assert(frame@ =~= write_frame_of(register, value));
    frame
}

/// The words of a read of consecutive registers: each pair of bytes, big-endian.
pub fn words_from_be_bytes(bytes: &[u8]) -> (r: Vec<u16>)
    ensures
        r@ == words_of(bytes@),
        r@.len() == bytes@.len() / 2,
        forall|i: int|
            0 <= i < r@.len() ==> #[trigger] r@[i] == be_word(bytes@[2 * i], bytes@[2 * i + 1]),
{
    let n = bytes.len();
    let count = n / 2;
    let mut words: Vec<u16> = Vec::new();
    let mut i: usize = 0;
    while i < count
        invariant
            n == bytes@.len(),
            count == n / 2,
            i <= count,
            words@.len() == i,
            forall|j: int|
                0 <= j < i ==> #[trigger] words@[j] == be_word(bytes@[2 * j], bytes@[2 * j + 1]),
        decreases count - i,
    {
        proof {
            vstd::arithmetic::div_mod::lemma_fundamental_div_mod(bytes@.len() as int, 2);
        }
        let word = bytes[2 * i] as u16 * 256 + bytes[2 * i + 1] as u16;
        words.push(word);
        i = i + 1;
    }
    assert(words@ =~= words_of(bytes@));
    words
}

/// Relies on `embedded_hal::i2c::I2c::write_read`: one transaction that writes `write` to the
/// device at `address` and then reads bytes until the buffer of `read_len` bytes is full.
/// Errors are reported by their `embedded_hal::i2c::Error::kind`.
#[verifier::external_body]
pub(crate) fn bus_write_read<I2C: embedded_hal::i2c::I2c>(
    i2c: &mut I2C,
    address: u8,
    write: &[u8],
    read_len: usize,
) -> (r: Result<Vec<u8>, ErrorKind>)
    ensures
        r matches Ok(bytes) ==> bytes@.len() == read_len,
{
    let mut buffer = std::vec![0u8; read_len];
    match i2c.write_read(address, write, &mut buffer) {
        Ok(()) => Ok(buffer),
        Err(e) => Err(embedded_hal::i2c::Error::kind(&e)),
    }
}

/// Relies on `embedded_hal::i2c::I2c::write`: one transaction that writes `write` to the
/// device at `address`. Errors are reported by their `embedded_hal::i2c::Error::kind`.
#[verifier::external_body]
pub(crate) fn bus_write<I2C: embedded_hal::i2c::I2c>(
    i2c: &mut I2C,
    address: u8,
    write: &[u8],
) -> (r: Result<(), ErrorKind>) {
    match i2c.write(address, write) {
        Ok(()) => Ok(()),
        Err(e) => Err(embedded_hal::i2c::Error::kind(&e)),
    }
}

} // verus!
