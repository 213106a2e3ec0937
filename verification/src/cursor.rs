//! A cursor over the bytes accumulated for a possibly fragmented packet

use crate::error::DecodeError;
use vstd::prelude::*;

verus! {

/// The state of a [`ByteCursor`] as specifications see it: the underlying
/// bytes and the read position.
pub struct CursorView {
    pub bytes: Seq<u8>,
    pub pos: int,
}

impl CursorView {
    /// The number of bytes that have not been consumed yet.
    pub open spec fn remaining(&self) -> int {
        self.bytes.len() - self.pos
    }
}

/// The value of the unsigned 16-bit little-endian integer starting at byte
/// `i` of `s`.
pub open spec fn le16_at(s: Seq<u8>, i: int) -> int {
    s[i] + 0x100 * s[i + 1]
}

/// The value of the unsigned 32-bit little-endian integer starting at byte
/// `i` of `s`.
pub open spec fn le32_at(s: Seq<u8>, i: int) -> int {
    s[i] + 0x100 * s[i + 1] + 0x1_0000 * s[i + 2] + 0x100_0000 * s[i + 3]
}

/// The value of the unsigned 64-bit little-endian integer starting at byte
/// `i` of `s`.
pub open spec fn le64_at(s: Seq<u8>, i: int) -> int {
    s[i] + 0x100 * s[i + 1] + 0x1_0000 * s[i + 2] + 0x100_0000 * s[i + 3]
        + 0x1_0000_0000 * s[i + 4] + 0x100_0000_0000 * s[i + 5]
        + 0x1_0000_0000_0000 * s[i + 6] + 0x100_0000_0000_0000 * s[i + 7]
}

/// What a single-byte read returns on a cursor in state `c`: the byte at the
/// read position, or an end-of-data error when no byte remains.
pub open spec fn spec_read_u8(c: CursorView) -> Result<u8, DecodeError> {
    if c.remaining() >= 1 {
        Ok(c.bytes[c.pos])
    } else {
        Err(DecodeError::InsufficientData { expected: 1, actual: 0 })
    }
}

/// A read position over a caller-owned buffer of accumulated bytes.
///
/// The position only ever moves forward, and only by a successful read; a
/// failed read leaves the cursor untouched, and the underlying bytes are
/// never modified.
pub struct ByteCursor {
    buf: Vec<u8>,
    pos: usize,
}

impl View for ByteCursor {
    type V = CursorView;

    closed spec fn view(&self) -> CursorView {
        CursorView { bytes: self.buf@, pos: self.pos as int }
    }
}

impl ByteCursor {
    /// The read position never runs past the end of the buffer.
    pub open spec fn wf(&self) -> bool {
        0 <= self@.pos <= self@.bytes.len()
    }

    /// Wraps a buffer in a cursor positioned at its first byte.
    pub fn new(buf: Vec<u8>) -> (r: ByteCursor)
        ensures
            r.wf(),
            r@.bytes == buf@,
            r@.pos == 0,
    {
        ByteCursor { buf, pos: 0 }
    }

    /// Returns the current read position.
    pub fn position(&self) -> (r: usize)
        ensures
            r == self@.pos,
    {
        self.pos
    }

    /// Returns the number of bytes that have not been consumed yet.
    pub fn remaining(&self) -> (r: usize)
        requires
            self.wf(),
        ensures
            r == self@.remaining(),
    {
        self.buf.len() - self.pos
    }

    /// Moves the read position back to an earlier point in the buffer.
    pub(crate) fn set_position(&mut self, pos: usize)
        requires
            old(self).wf(),
            pos <= old(self)@.bytes.len(),
        ensures
            final(self).wf(),
            final(self)@.bytes == old(self)@.bytes,
            final(self)@.pos == pos as int,
    {
        self.pos = pos;
    }

    /// Returns the 16-bit little-endian integer at the read position without
    /// consuming it.
    pub fn peek_u16_le(&self) -> (r: Result<u16, DecodeError>)
        requires
            self.wf(),
        ensures
            self@.remaining() >= 2 ==> r == Ok::<u16, DecodeError>(le16_at(self@.bytes, self@.pos) as u16),
            self@.remaining() < 2 ==> r == Err::<u16, DecodeError>(DecodeError::InsufficientData {
                expected: 2,
                actual: self@.remaining() as usize,
            }),
    {
        if self.buf.len() - self.pos >= 2 {
            let b0 = self.buf[self.pos];
            let b1 = self.buf[self.pos + 1];
            Ok(b0 as u16 + b1 as u16 * 0x100)
        } else {
            Err(DecodeError::InsufficientData { expected: 2, actual: self.buf.len() - self.pos })
        }
    }

    /// Reads the byte at the read position and consumes it.
    pub fn read_u8(&mut self) -> (r: Result<u8, DecodeError>)
        requires
            old(self).wf(),
        ensures
            final(self).wf(),
            final(self)@.bytes == old(self)@.bytes,
            r == spec_read_u8(old(self)@),
            old(self)@.remaining() >= 1 ==> final(self)@.pos == old(self)@.pos + 1,
            old(self)@.remaining() < 1 ==> final(self)@ == old(self)@,
    {
        if self.buf.len() - self.pos >= 1 {
            let b = self.buf[self.pos];
            self.pos = self.pos + 1;
            Ok(b)
        } else {
            Err(DecodeError::InsufficientData { expected: 1, actual: 0 })
        }
    }

    /// Reads the 16-bit little-endian integer at the read position and
    /// consumes its two bytes.
    pub fn read_u16_le(&mut self) -> (r: Result<u16, DecodeError>)
        requires
            old(self).wf(),
        ensures
            final(self).wf(),
            final(self)@.bytes == old(self)@.bytes,
            old(self)@.remaining() >= 2 ==> {
                &&& r == Ok::<u16, DecodeError>(le16_at(old(self)@.bytes, old(self)@.pos) as u16)
                &&& final(self)@.pos == old(self)@.pos + 2
            },
            old(self)@.remaining() < 2 ==> {
                &&& r == Err::<u16, DecodeError>(DecodeError::InsufficientData {
                    expected: 2,
                    actual: old(self)@.remaining() as usize,
                })
                &&& final(self)@ == old(self)@
            },
    {
        if self.buf.len() - self.pos >= 2 {
            let b0 = self.buf[self.pos];
            let b1 = self.buf[self.pos + 1];
            self.pos = self.pos + 2;
            Ok(b0 as u16 + b1 as u16 * 0x100)
        } else {
            Err(DecodeError::InsufficientData { expected: 2, actual: self.buf.len() - self.pos })
        }
    }

    /// Reads the 32-bit little-endian integer at the read position and
    /// consumes its four bytes.
    pub fn read_u32_le(&mut self) -> (r: Result<u32, DecodeError>)
        requires
            old(self).wf(),
        ensures
            final(self).wf(),
            final(self)@.bytes == old(self)@.bytes,
            old(self)@.remaining() >= 4 ==> {
                &&& r == Ok::<u32, DecodeError>(le32_at(old(self)@.bytes, old(self)@.pos) as u32)
                &&& final(self)@.pos == old(self)@.pos + 4
            },
            old(self)@.remaining() < 4 ==> {
                &&& r == Err::<u32, DecodeError>(DecodeError::InsufficientData {
                    expected: 4,
                    actual: old(self)@.remaining() as usize,
                })
                &&& final(self)@ == old(self)@
            },
    {
        if self.buf.len() - self.pos >= 4 {
            let b0 = self.buf[self.pos];
            let b1 = self.buf[self.pos + 1];
            let b2 = self.buf[self.pos + 2];
            let b3 = self.buf[self.pos + 3];
            self.pos = self.pos + 4;
            Ok(b0 as u32 + b1 as u32 * 0x100 + b2 as u32 * 0x1_0000 + b3 as u32 * 0x100_0000)
        } else {
            Err(DecodeError::InsufficientData { expected: 4, actual: self.buf.len() - self.pos })
        }
    }

    /// Reads the 64-bit little-endian integer at the read position and
    /// consumes its eight bytes.
    pub fn read_u64_le(&mut self) -> (r: Result<u64, DecodeError>)
        requires
            old(self).wf(),
        ensures
            final(self).wf(),
            final(self)@.bytes == old(self)@.bytes,
            old(self)@.remaining() >= 8 ==> {
                &&& r == Ok::<u64, DecodeError>(le64_at(old(self)@.bytes, old(self)@.pos) as u64)
                &&& final(self)@.pos == old(self)@.pos + 8
            },
            old(self)@.remaining() < 8 ==> {
                &&& r == Err::<u64, DecodeError>(DecodeError::InsufficientData {
                    expected: 8,
                    actual: old(self)@.remaining() as usize,
                })
                &&& final(self)@ == old(self)@
            },
    {
        if self.buf.len() - self.pos >= 8 {
            let b0 = self.buf[self.pos];
            let b1 = self.buf[self.pos + 1];
            let b2 = self.buf[self.pos + 2];
            let b3 = self.buf[self.pos + 3];
            let b4 = self.buf[self.pos + 4];
            let b5 = self.buf[self.pos + 5];
            let b6 = self.buf[self.pos + 6];
            let b7 = self.buf[self.pos + 7];
            self.pos = self.pos + 8;
            Ok(b0 as u64 + b1 as u64 * 0x100 + b2 as u64 * 0x1_0000 + b3 as u64 * 0x100_0000
                + b4 as u64 * 0x1_0000_0000 + b5 as u64 * 0x100_0000_0000
                + b6 as u64 * 0x1_0000_0000_0000 + b7 as u64 * 0x100_0000_0000_0000)
        } else {
            Err(DecodeError::InsufficientData { expected: 8, actual: self.buf.len() - self.pos })
        }
    }

    /// Reads `count` bytes starting at the read position and consumes them.
    pub fn read_bytes(&mut self, count: usize) -> (r: Result<Vec<u8>, DecodeError>)
        requires
            old(self).wf(),
        ensures
            final(self).wf(),
            final(self)@.bytes == old(self)@.bytes,
            old(self)@.remaining() >= count ==> {
                &&& r matches Ok(bytes) && bytes@ == old(self)@.bytes.subrange(
                    old(self)@.pos,
                    old(self)@.pos + count,
                )
                &&& final(self)@.pos == old(self)@.pos + count
            },
            old(self)@.remaining() < count ==> {
                &&& r == Err::<Vec<u8>, DecodeError>(DecodeError::InsufficientData {
                    expected: count,
                    actual: old(self)@.remaining() as usize,
                })
                &&& final(self)@ == old(self)@
            },
    {
        if self.buf.len() - self.pos >= count {
            let ghost start = self@;
            let mut out: Vec<u8> = Vec::new();
            let mut i: usize = 0;
            while i < count
                invariant
                    i <= count,
                    self.wf(),
                    self@.bytes == start.bytes,
                    self@.pos == start.pos + i,
                    start.pos + count <= start.bytes.len(),
                    start.bytes.len() <= usize::MAX,
                    out@.len() == i as int,
                    forall|j: int| 0 <= j < i ==> out@[j] == start.bytes[start.pos + j],
                decreases count - i,
            {
                let b = self.buf[self.pos];
                self.pos = self.pos + 1;
                out.push(b);
                i = i + 1;
            }
            proof {
                assert(out@ =~= start.bytes.subrange(start.pos, start.pos + count));
            }
            Ok(out)
        } else {
            Err(DecodeError::InsufficientData { expected: count, actual: self.buf.len() - self.pos })
        }
    }
}

} // verus!
