//! A cursor over a byte buffer that reads little-endian values.

use crate::error::Error;
use vstd::prelude::*;

verus! {

/// The unsigned 16-bit value whose low byte is `lo` and whose high byte is
/// `hi`.
pub open spec fn le_u16(lo: u8, hi: u8) -> u16 {
    (lo + 256 * hi) as u16
}

/// The value of a 16-bit word read as two's complement.
pub open spec fn as_signed(word: u16) -> i16 {
    if word < 0x8000 {
        word as i16
    } else {
        (word - 0x1_0000) as i16
    }
}

/// The signed 16-bit value whose low byte is `lo` and whose high byte is
/// `hi`.
pub open spec fn le_i16(lo: u8, hi: u8) -> i16 {
    as_signed(le_u16(lo, hi))
}

/// A byte buffer with a position in it. Values are read at the position,
/// which then moves past them; a read that lacks bytes fails and leaves the
/// position where it was.
pub struct Reader {
    data: Vec<u8>,
    curr: usize,
}

impl Reader {
    #[verifier::type_invariant]
    spec fn inv(self) -> bool {
        self.curr <= self.data.len()
    }

    /// The whole buffer.
    pub closed spec fn bytes(&self) -> Seq<u8> {
        self.data@
    }

    /// How many bytes have been read.
    pub closed spec fn position(&self) -> nat {
        self.curr as nat
    }

    /// The bytes that have not been read yet.
    pub open spec fn rest(&self) -> Seq<u8> {
        self.bytes().skip(self.position() as int)
    }

    /// A cursor at the start of `data`.
    pub fn new(data: Vec<u8>) -> (r: Reader)
        ensures
            r.bytes() == data@,
            r.position() == 0,
    {
        Reader { data, curr: 0 }
    }

    /// The number of bytes that have not been read yet.
    pub fn remaining(&self) -> (r: usize)
        ensures
            r == self.rest().len(),
            self.position() <= self.bytes().len(),
    {
        proof {
            use_type_invariant(self);
        }
        self.data.len() - self.curr
    }

    /// Reads one byte.
    pub fn read_u8(&mut self) -> (r: Result<u8, Error>)
        ensures
            final(self).bytes() == old(self).bytes(),
            old(self).rest().len() >= 1 ==> r == Ok::<u8, Error>(old(self).rest()[0])
                && final(self).position() == old(self).position() + 1,
            old(self).rest().len() < 1 ==> r == Err::<u8, Error>(Error::TruncatedRecord)
                && final(self).position() == old(self).position(),
    {
        proof {
            use_type_invariant(&*self);
        }
        if self.data.len() - self.curr < 1 {
            return Err(Error::TruncatedRecord);
        }
        let b: u8 = self.data[self.curr];
        self.curr = self.curr + 1;
        Ok(b)
    }

    /// Reads an unsigned 16-bit value, low byte first.
    pub fn read_u16(&mut self) -> (r: Result<u16, Error>)
        ensures
            final(self).bytes() == old(self).bytes(),
            old(self).rest().len() >= 2 ==> r == Ok::<u16, Error>(
                le_u16(old(self).rest()[0], old(self).rest()[1]),
            ) && final(self).position() == old(self).position() + 2,
            old(self).rest().len() < 2 ==> r == Err::<u16, Error>(Error::TruncatedRecord)
                && final(self).position() == old(self).position(),
    {
        proof {
            use_type_invariant(&*self);
        }
        if self.data.len() - self.curr < 2 {
            return Err(Error::TruncatedRecord);
        }
        let lo: u8 = self.data[self.curr];
        let hi: u8 = self.data[self.curr + 1];
        self.curr = self.curr + 2;
        Ok(lo as u16 + 256 * (hi as u16))
    }

    /// Reads a signed 16-bit value, low byte first.
    pub fn read_i16(&mut self) -> (r: Result<i16, Error>)
        ensures
            final(self).bytes() == old(self).bytes(),
            old(self).rest().len() >= 2 ==> r == Ok::<i16, Error>(
                le_i16(old(self).rest()[0], old(self).rest()[1]),
            ) && final(self).position() == old(self).position() + 2,
            old(self).rest().len() < 2 ==> r == Err::<i16, Error>(Error::TruncatedRecord)
                && final(self).position() == old(self).position(),
    {
        let word: u16 = match self.read_u16() {
            Ok(word) => word,
            Err(e) => {
                return Err(e);
            },
        };
        if word < 0x8000 {
            Ok(word as i16)
        } else {
            Ok((word - 0x8000) as i16 - 0x7fff - 1)
        }
    }
}

} // verus!
