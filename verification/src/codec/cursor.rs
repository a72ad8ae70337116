//! Big-endian words and a read position over a buffer of bytes.

use vstd::prelude::*;
use byteorder::{BigEndian, ByteOrder};
use crate::error::ModbusError;

verus! {

/// The 16-bit word whose big-endian bytes are `high` and `low`.
pub open spec fn be_u16(high: u8, low: u8) -> u16 {
    (high as int * 256 + low as int) as u16
}

/// The two big-endian bytes of a 16-bit word.
pub open spec fn be_bytes(value: u16) -> Seq<u8> {
    seq![(value / 256) as u8, (value % 256) as u8]
}

/// A word is read back from its own big-endian bytes, and two bytes are the
/// big-endian bytes of the word they make.
pub proof fn lemma_be_round_trip(value: u16, high: u8, low: u8)
    ensures
        be_bytes(value).len() == 2,
        be_u16(be_bytes(value)[0], be_bytes(value)[1]) == value,
        be_bytes(be_u16(high, low)) == seq![high, low],
{
    assert(be_bytes(be_u16(high, low)) =~= seq![high, low]);
}

/// Decodes the first two bytes of `buffer` as a big-endian word with
/// `byteorder::BigEndian::read_u16`, which panics on a shorter buffer and
/// otherwise returns the first byte times 256 plus the second.
#[verifier::external_body]
fn read_u16_be(buffer: &[u8]) -> (value: u16)
    requires
        buffer@.len() >= 2,
    ensures
        value == be_u16(buffer@[0], buffer@[1]),
{
    BigEndian::read_u16(buffer)
}

/// Appends the two big-endian bytes of `value` to `out`.
pub fn push_u16(out: &mut Vec<u8>, value: u16)
    ensures
        final(out)@ == old(out)@ + be_bytes(value),
{
    out.push((value / 256) as u8);
    out.push((value % 256) as u8);
    assert(out@ =~= old(out)@ + be_bytes(value));
}

/// A buffer of bytes that is read from front to back. Its view is what is
/// left to read.
pub struct ByteCursor {
    data: Vec<u8>,
    position: usize,
}

impl View for ByteCursor {
    type V = Seq<u8>;

    closed spec fn view(&self) -> Seq<u8> {
        self.data@.skip(self.position as int)
    }
}

impl ByteCursor {
    #[verifier::type_invariant]
    spec fn position_in_data(self) -> bool {
        self.position <= self.data@.len()
    }

    /// A cursor at the start of `data`.
    pub fn new(data: Vec<u8>) -> (cursor: Self)
        ensures
            cursor@ == data@,
    {
        let cursor = ByteCursor { data, position: 0 };
        assert(cursor@ =~= data@);
        cursor
    }

    /// How many bytes are left to read.
    pub fn remaining(&self) -> (count: usize)
        ensures
            count == self@.len(),
    {
        proof {
            use_type_invariant(self);
            assert(self@.len() == self.data@.len() - self.position);
        }
        self.data.len() - self.position
    }

    /// The byte `offset` places ahead, without moving.
    pub(crate) fn peek_u8(&self, offset: usize) -> (byte: u8)
        requires
            offset < self@.len(),
        ensures
            byte == self@[offset as int],
    {
        proof {
            use_type_invariant(self);
            assert(self@.len() == self.data@.len() - self.position);
        }
        let length = self.data.len();
        assert(self.position + offset < length);
        self.data[self.position + offset]
    }

    /// The big-endian word `offset` places ahead, without moving.
    pub(crate) fn peek_u16(&self, offset: usize) -> (value: u16)
        requires
            offset + 2 <= self@.len(),
        ensures
            value == be_u16(self@[offset as int], self@[offset as int + 1]),
    {
        proof {
            use_type_invariant(self);
            assert(self@.len() == self.data@.len() - self.position);
        }
        let length = self.data.len();
        assert(self.position + offset + 2 <= length);
        let start = self.position + offset;
        let word = vstd::slice::slice_subrange(self.data.as_slice(), start, start + 2);
        read_u16_be(word)
    }

    /// Moves `count` bytes ahead.
    pub(crate) fn advance(&mut self, count: usize)
        requires
            count <= old(self)@.len(),
        ensures
            final(self)@ == old(self)@.skip(count as int),
    {
        proof {
            use_type_invariant(&*self);
            assert(self@.len() == self.data@.len() - self.position);
        }
        let length = self.data.len();
        assert(self.position + count <= length);
        self.position = self.position + count;
        assert(self@ =~= old(self)@.skip(count as int));
    }

    /// Reads one byte, or reports that none is left and stays in place.
    pub fn read_u8(&mut self) -> (byte: Result<u8, ModbusError>)
        ensures
            match byte {
                Ok(byte) => {
                    &&& old(self)@.len() >= 1
                    &&& byte == old(self)@[0]
                    &&& final(self)@ == old(self)@.skip(1)
                },
                Err(error) => {
                    &&& old(self)@.len() < 1
                    &&& error == ModbusError::UnexpectedEndOfData
                    &&& final(self)@ == old(self)@
                },
            },
    {
        if self.remaining() < 1 {
            return Err(ModbusError::UnexpectedEndOfData);
        }
        let byte = self.peek_u8(0);
        self.advance(1);
        Ok(byte)
    }

    /// Reads one big-endian word, or reports that fewer than two bytes are
    /// left and stays in place.
    pub fn read_u16(&mut self) -> (value: Result<u16, ModbusError>)
        ensures
            match value {
                Ok(value) => {
                    &&& old(self)@.len() >= 2
                    &&& value == be_u16(old(self)@[0], old(self)@[1])
                    &&& final(self)@ == old(self)@.skip(2)
                },
                Err(error) => {
                    &&& old(self)@.len() < 2
                    &&& error == ModbusError::UnexpectedEndOfData
                    &&& final(self)@ == old(self)@
                },
            },
    {
        if self.remaining() < 2 {
            return Err(ModbusError::UnexpectedEndOfData);
        }
        let value = self.peek_u16(0);
        self.advance(2);
        Ok(value)
    }

    /// Reads `count` bytes into a buffer of their own, or reports that
    /// fewer are left and stays in place.
    pub fn read_exact(&mut self, count: usize) -> (bytes: Result<Vec<u8>, ModbusError>)
        ensures
            match bytes {
                Ok(bytes) => {
                    &&& count <= old(self)@.len()
                    &&& bytes@ == old(self)@.take(count as int)
                    &&& final(self)@ == old(self)@.skip(count as int)
                },
                Err(error) => {
                    &&& count > old(self)@.len()
                    &&& error == ModbusError::UnexpectedEndOfData
                    &&& final(self)@ == old(self)@
                },
            },
    {
        if self.remaining() < count {
            return Err(ModbusError::UnexpectedEndOfData);
        }
        proof {
            use_type_invariant(&*self);
            assert(self@.len() == self.data@.len() - self.position);
        }
        let length = self.data.len();
        assert(self.position + count <= length);
        let start = self.position;
        let chunk = vstd::slice::slice_subrange(self.data.as_slice(), start, start + count);
        let bytes = vstd::slice::slice_to_vec(chunk);
        assert(bytes@ =~= self@.take(count as int));
        self.advance(count);
        Ok(bytes)
    }
}

} // verus!
