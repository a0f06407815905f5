use vstd::prelude::*;

use crate::error::DecodeError;

verus! {

/// Little-endian 16-bit value held at byte offset `i` of `s`.
pub open spec fn le16_at(s: Seq<u8>, i: int) -> u16
    recommends
        0 <= i,
        i + 2 <= s.len(),
{
    (s[i] + s[i + 1] * 0x100) as u16
}

/// Little-endian 32-bit value held at byte offset `i` of `s`.
pub open spec fn le32_at(s: Seq<u8>, i: int) -> u32
    recommends
        0 <= i,
        i + 4 <= s.len(),
{
    (s[i] + s[i + 1] * 0x100 + s[i + 2] * 0x10000 + s[i + 3] * 0x100_0000) as u32
}

/// Little-endian 64-bit value held at byte offset `i` of `s`.
pub open spec fn le64_at(s: Seq<u8>, i: int) -> u64
    recommends
        0 <= i,
        i + 8 <= s.len(),
{
    (le32_at(s, i) + le32_at(s, i + 4) * 0x1_0000_0000) as u64
}

/// A random-access byte source: a finite in-memory byte stream with a cursor,
/// offering absolute seeks and exact-length little-endian reads.
///
/// Every decoder in this crate consumes this capability and never a concrete
/// I/O origin; a caller that owns a file reads it whole and hands the bytes
/// over. The cursor may be seeked past the end of the stream: every read
/// there fails with [`DecodeError::Truncated`], and no read ever changes the
/// underlying bytes.
pub struct ByteSource {
    data: Vec<u8>,
    pos: u64,
}

impl ByteSource {
    /// The bytes the source ranges over.
    pub closed spec fn bytes(&self) -> Seq<u8> {
        self.data@
    }

    /// The cursor, as an absolute byte offset into [`ByteSource::bytes`].
    pub closed spec fn pos(&self) -> u64 {
        self.pos
    }

    /// True when `n` more bytes are available at the cursor.
    pub open spec fn can_read(&self, n: int) -> bool {
        self.pos() + n <= self.bytes().len()
    }

    pub fn new(data: Vec<u8>) -> (r: ByteSource)
        ensures
            r.bytes() == data@,
            r.pos() == 0,
    {
        ByteSource { data, pos: 0 }
    }

    /// Moves the cursor to the absolute offset `off`, which may lie past the
    /// end of the stream.
    pub fn seek_to(&mut self, off: u64)
        ensures
            final(self).bytes() == old(self).bytes(),
            final(self).pos() == off,
    {
        self.pos = off;
    }

    /// The current cursor offset.
    pub fn position(&self) -> (p: u64)
        ensures
            p == self.pos(),
    {
        self.pos
    }

    /// True when `n` more bytes are available at the cursor.
    pub fn has_remaining(&self, n: u64) -> (r: bool)
        ensures
            r == self.can_read(n as int),
            self.bytes().len() <= usize::MAX,
    {
        let len: u64 = self.data.len() as u64;
        self.pos <= len && n <= len - self.pos
    }

    /// The cursor as an index into the underlying bytes, for a cursor known
    /// to lie inside them.
    fn cursor_index(&self) -> (p: usize)
        requires
            self.pos() <= self.bytes().len(),
        ensures
            p == self.pos(),
            self.bytes().len() <= usize::MAX,
    {
        let len: usize = self.data.len();
        assert(self.pos <= len as u64);
        self.pos as usize
    }

    /// Reads the next `n` bytes and advances the cursor past them; fails with
    /// `Truncated`, leaving the source unchanged, when fewer are available.
    pub fn read_bytes(&mut self, n: usize) -> (r: Result<Vec<u8>, DecodeError>)
        ensures
            final(self).bytes() == old(self).bytes(),
            old(self).can_read(n as int) ==> {
                &&& r matches Ok(v) && v@ == old(self).bytes().subrange(
                    old(self).pos() as int,
                    old(self).pos() + n,
                )
                &&& final(self).pos() == old(self).pos() + n
            },
            !old(self).can_read(n as int) ==> r == Err::<Vec<u8>, DecodeError>(
                DecodeError::Truncated,
            ) && *final(self) == *old(self),
    {
        if !self.has_remaining(n as u64) {
            return Err(DecodeError::Truncated);
        }
        let start = self.cursor_index();
        let mut v: Vec<u8> = Vec::new();
        let mut i: usize = 0;
        while i < n
            invariant
                self == old(self),
                i <= n,
                start == self.pos() as int,
                self.can_read(n as int),
                self.bytes().len() <= usize::MAX,
                v@ == self.bytes().subrange(start as int, start + i),
            decreases n - i,
        {
            v.push(self.data[start + i]);
            i = i + 1;
            assert(v@ =~= self.bytes().subrange(start as int, start + i as int));
        }
        self.pos = self.pos + n as u64;
        Ok(v)
    }

    /// Reads a little-endian 16-bit value and advances the cursor; fails with
    /// `Truncated`, leaving the source unchanged, when under two bytes remain.
    pub fn read_u16_le(&mut self) -> (r: Result<u16, DecodeError>)
        ensures
            final(self).bytes() == old(self).bytes(),
            old(self).can_read(2) ==> r == Ok::<u16, DecodeError>(
                le16_at(old(self).bytes(), old(self).pos() as int),
            ) && final(self).pos() == old(self).pos() + 2,
            !old(self).can_read(2) ==> r == Err::<u16, DecodeError>(DecodeError::Truncated)
                && *final(self) == *old(self),
    {
        if !self.has_remaining(2) {
            return Err(DecodeError::Truncated);
        }
        let p = self.cursor_index();
        let b0 = self.data[p] as u16;
        let b1 = self.data[p + 1] as u16;
        self.pos = self.pos + 2;
        Ok(b0 + b1 * 0x100)
    }

    /// Reads a little-endian 32-bit value and advances the cursor; fails with
    /// `Truncated`, leaving the source unchanged, when under four bytes remain.
    pub fn read_u32_le(&mut self) -> (r: Result<u32, DecodeError>)
        ensures
            final(self).bytes() == old(self).bytes(),
            old(self).can_read(4) ==> r == Ok::<u32, DecodeError>(
                le32_at(old(self).bytes(), old(self).pos() as int),
            ) && final(self).pos() == old(self).pos() + 4,
            !old(self).can_read(4) ==> r == Err::<u32, DecodeError>(DecodeError::Truncated)
                && *final(self) == *old(self),
    {
        if !self.has_remaining(4) {
            return Err(DecodeError::Truncated);
        }
        let p = self.cursor_index();
        let b0 = self.data[p] as u32;
        let b1 = self.data[p + 1] as u32;
        let b2 = self.data[p + 2] as u32;
        let b3 = self.data[p + 3] as u32;
        self.pos = self.pos + 4;
        Ok(b0 + b1 * 0x100 + b2 * 0x10000 + b3 * 0x100_0000)
    }

    /// Reads a little-endian 64-bit value and advances the cursor; fails with
    /// `Truncated`, leaving the source unchanged, when under eight bytes remain.
    pub fn read_u64_le(&mut self) -> (r: Result<u64, DecodeError>)
        ensures
            final(self).bytes() == old(self).bytes(),
            old(self).can_read(8) ==> r == Ok::<u64, DecodeError>(
                le64_at(old(self).bytes(), old(self).pos() as int),
            ) && final(self).pos() == old(self).pos() + 8,
            !old(self).can_read(8) ==> r == Err::<u64, DecodeError>(DecodeError::Truncated)
                && *final(self) == *old(self),
    {
        if !self.has_remaining(8) {
            return Err(DecodeError::Truncated);
        }
        let p = self.cursor_index();
        let b0 = self.data[p] as u32;
        let b1 = self.data[p + 1] as u32;
        let b2 = self.data[p + 2] as u32;
        let b3 = self.data[p + 3] as u32;
        let b4 = self.data[p + 4] as u32;
        let b5 = self.data[p + 5] as u32;
        let b6 = self.data[p + 6] as u32;
        let b7 = self.data[p + 7] as u32;
        let lo: u32 = b0 + b1 * 0x100 + b2 * 0x10000 + b3 * 0x100_0000;
        let hi: u32 = b4 + b5 * 0x100 + b6 * 0x10000 + b7 * 0x100_0000;
        self.pos = self.pos + 8;
        Ok(lo as u64 + (hi as u64) * 0x1_0000_0000)
    }
}

} // verus!
