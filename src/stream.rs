use vstd::prelude::*;

use crate::errors::SpecificError;

verus! {

/// The little-endian `u16` stored at `b[p]`, `b[p + 1]`.
pub open spec fn le_u16(b: Seq<u8>, p: int) -> u16 {
    (b[p] as int + 256 * (b[p + 1] as int)) as u16
}

/// The little-endian `u32` stored at `b[p]` to `b[p + 3]`.
pub open spec fn le_u32(b: Seq<u8>, p: int) -> u32 {
    (b[p] as int + 256 * (b[p + 1] as int) + 65536 * (b[p + 2] as int) + 16777216 * (
    b[p + 3] as int)) as u32
}

/// The little-endian `u16` at `buf[i]`, `buf[i + 1]`.
pub fn u16_at(buf: &[u8], i: usize) -> (r: u16)
    requires
        i + 2 <= buf.len(),
    ensures
        r == le_u16(buf@, i as int),
{
    buf[i] as u16 + 256 * (buf[i + 1] as u16)
}

/// The little-endian `u32` at `buf[i]` to `buf[i + 3]`.
pub fn u32_at(buf: &[u8], i: usize) -> (r: u32)
    requires
        i + 4 <= buf.len(),
    ensures
        r == le_u32(buf@, i as int),
{
    buf[i] as u32 + 256 * (buf[i + 1] as u32) + 65536 * (buf[i + 2] as u32) + 16777216 * (
    buf[i + 3] as u32)
}

/// A forward-only cursor over an exclusively borrowed byte buffer.
///
/// Every read or skip either consumes exactly the bytes it asks for or fails
/// with [`SpecificError::StreamFailure`] and leaves the cursor where it was.
pub struct MeshStream<'a> {
    data: &'a [u8],
    pos: usize,
}

impl<'a> MeshStream<'a> {
    /// The whole underlying buffer.
    pub closed spec fn bytes(&self) -> Seq<u8> {
        self.data@
    }

    /// How many bytes have been consumed so far.
    pub closed spec fn cursor(&self) -> int {
        self.pos as int
    }

    pub open spec fn well_formed(&self) -> bool {
        0 <= self.cursor() <= self.bytes().len()
    }

    /// Whether `n` more bytes remain after the cursor.
    pub open spec fn has(&self, n: int) -> bool {
        self.cursor() + n <= self.bytes().len()
    }

    /// A step from `prev` to `self` that consumed `n` bytes and nothing else.
    pub open spec fn advanced_from(&self, prev: &Self, n: int) -> bool {
        &&& self.well_formed()
        &&& self.bytes() == prev.bytes()
        &&& self.cursor() == prev.cursor() + n
    }

    /// Starts a stream at the first byte of `data`.
    pub fn new(data: &'a [u8]) -> (s: Self)
        ensures
            s.well_formed(),
            s.bytes() == data@,
            s.cursor() == 0,
    {
        MeshStream { data, pos: 0 }
    }

    /// How many bytes have been consumed so far.
    pub fn offset(&self) -> (r: usize)
        ensures
            r == self.cursor(),
    {
        self.pos
    }

    /// Reads a little-endian `u16`.
    pub fn read_u16_le(&mut self) -> (r: Result<u16, SpecificError>)
        requires
            old(self).well_formed(),
        ensures
            match r {
                Ok(v) => old(self).has(2) && v == le_u16(old(self).bytes(), old(self).cursor())
                    && final(self).advanced_from(old(self), 2),
                Err(e) => !old(self).has(2) && e == SpecificError::StreamFailure && final(self).advanced_from(old(self), 0),
            },
    {
        if self.data.len() - self.pos < 2 {
            return Err(SpecificError::StreamFailure);
        }
        let v = u16_at(self.data, self.pos);
        self.pos = self.pos + 2;
        Ok(v)
    }

    /// Reads a little-endian `u32`.
    pub fn read_u32_le(&mut self) -> (r: Result<u32, SpecificError>)
        requires
            old(self).well_formed(),
        ensures
            match r {
                Ok(v) => old(self).has(4) && v == le_u32(old(self).bytes(), old(self).cursor())
                    && final(self).advanced_from(old(self), 4),
                Err(e) => !old(self).has(4) && e == SpecificError::StreamFailure && final(self).advanced_from(old(self), 0),
            },
    {
        if self.data.len() - self.pos < 4 {
            return Err(SpecificError::StreamFailure);
        }
        let v = u32_at(self.data, self.pos);
        self.pos = self.pos + 4;
        Ok(v)
    }

    /// Reads exactly `n` bytes.
    pub fn read_exact(&mut self, n: usize) -> (r: Result<Vec<u8>, SpecificError>)
        requires
            old(self).well_formed(),
        ensures
            match r {
                Ok(v) => old(self).has(n as int) && v@ == old(self).bytes().subrange(
                    old(self).cursor(),
                    old(self).cursor() + n,
                ) && final(self).advanced_from(old(self), n as int),
                Err(e) => !old(self).has(n as int) && e == SpecificError::StreamFailure && final(self).advanced_from(old(self), 0),
            },
    {
        if self.data.len() - self.pos < n {
            return Err(SpecificError::StreamFailure);
        }
        let mut v: Vec<u8> = Vec::with_capacity(n);
        let p = self.pos;
        for k in 0..n
            invariant
                p == self.pos,
                p + n <= self.data.len(),
                v@ == self.data@.subrange(p as int, p + k),
        {
            v.push(self.data[p + k]);
        }
        self.pos = p + n;
        Ok(v)
    }

    /// Moves past `n` bytes without looking at them.
    pub fn skip_forward(&mut self, n: usize) -> (r: Result<(), SpecificError>)
        requires
            old(self).well_formed(),
        ensures
            match r {
                Ok(_) => old(self).has(n as int) && final(self).advanced_from(old(self), n as int),
                Err(e) => !old(self).has(n as int) && e == SpecificError::StreamFailure && final(self).advanced_from(old(self), 0),
            },
    {
        if self.data.len() - self.pos < n {
            return Err(SpecificError::StreamFailure);
        }
        self.pos = self.pos + n;
        Ok(())
    }
}

} // verus!
