use crate::error::ReadError;
use vstd::prelude::*;

verus! {

/// The little-endian value of the two bytes of `b` that start at `at`.
pub open spec fn le_u16_at(b: Seq<u8>, at: int) -> int {
    b[at] + 256 * b[at + 1]
}

/// The little-endian value of the four bytes of `b` that start at `at`.
pub open spec fn le_u32_at(b: Seq<u8>, at: int) -> int {
    b[at] + 256 * b[at + 1] + 65536 * b[at + 2] + 16777216 * b[at + 3]
}

/// The little-endian value of the eight bytes of `b` that start at `at`.
pub open spec fn le_u64_at(b: Seq<u8>, at: int) -> int {
    le_u32_at(b, at) + 4294967296 * le_u32_at(b, at + 4)
}

/// What a read of exactly `n` bytes does to a stream: with at least `n` bytes
/// left it succeeds and consumes them; with fewer it fails and consumes
/// nothing.
pub open spec fn reads_exactly(before: Seq<u8>, after: Seq<u8>, n: int, ok: bool) -> bool {
    if before.len() >= n {
        ok && after == before.skip(n)
    } else {
        !ok && after == before
    }
}

/// A source of bytes that is read front to back in little-endian units.
pub trait DSer: Sized {
    /// The bytes that have not been read yet.
    spec fn remaining(&self) -> Seq<u8>;

    /// Reads eight bytes as a little-endian `u64`.
    fn read_u64(&mut self) -> (r: Result<u64, ReadError>)
        ensures
            reads_exactly(old(self).remaining(), final(self).remaining(), 8, r is Ok),
            r matches Ok(v) ==> v == le_u64_at(old(self).remaining(), 0),
            r matches Err(e) ==> e == ReadError::Truncated,
    ;

    /// Reads four bytes as a little-endian `u32`.
    fn read_u32(&mut self) -> (r: Result<u32, ReadError>)
        ensures
            reads_exactly(old(self).remaining(), final(self).remaining(), 4, r is Ok),
            r matches Ok(v) ==> v == le_u32_at(old(self).remaining(), 0),
            r matches Err(e) ==> e == ReadError::Truncated,
    ;

    /// Reads two bytes as a little-endian `u16`.
    fn read_u16(&mut self) -> (r: Result<u16, ReadError>)
        ensures
            reads_exactly(old(self).remaining(), final(self).remaining(), 2, r is Ok),
            r matches Ok(v) ==> v == le_u16_at(old(self).remaining(), 0),
            r matches Err(e) ==> e == ReadError::Truncated,
    ;

    /// Reads one byte.
    fn read_u8(&mut self) -> (r: Result<u8, ReadError>)
        ensures
            reads_exactly(old(self).remaining(), final(self).remaining(), 1, r is Ok),
            r matches Ok(v) ==> v == old(self).remaining()[0],
            r matches Err(e) ==> e == ReadError::Truncated,
    ;

    /// Reads the next `sz` bytes.
    fn read_bytes(&mut self, sz: usize) -> (r: Result<Vec<u8>, ReadError>)
        ensures
            reads_exactly(old(self).remaining(), final(self).remaining(), sz as int, r is Ok),
            r matches Ok(v) ==> v@ == old(self).remaining().take(sz as int),
            r matches Err(e) ==> e == ReadError::Truncated,
    ;
}

/// A record of fixed size that can be filled from a byte source.
pub trait DeSerializable: Sized {
    /// The number of bytes that the record takes in a stream.
    spec fn wire_len() -> nat;

    /// The record that the first `wire_len()` bytes of `bytes` stand for.
    spec fn from_wire(bytes: Seq<u8>) -> Self;

    /// Fills the record from the next `wire_len()` bytes of `ds`. Where the
    /// source is too short the record and the source stay as they were.
    fn from_dser<S: DSer>(&mut self, ds: &mut S) -> (r: Result<(), ReadError>)
        ensures
            reads_exactly(
                old(ds).remaining(),
                final(ds).remaining(),
                Self::wire_len() as int,
                r is Ok,
            ),
            r is Ok ==> *final(self) == Self::from_wire(old(ds).remaining()),
            r matches Err(e) ==> e == ReadError::Truncated && *final(self) == *old(self),
    ;
}

/// Reads one record of type `T` from `ds`, starting from `T`'s default value.
pub fn read_dser<S: DSer, T: DeSerializable + Default>(ds: &mut S) -> (r: Result<T, ReadError>)
    ensures
        reads_exactly(old(ds).remaining(), final(ds).remaining(), T::wire_len() as int, r is Ok),
        r matches Ok(v) ==> v == T::from_wire(old(ds).remaining()),
        r matches Err(e) ==> e == ReadError::Truncated,
{
    let mut x = T::default();
    match x.from_dser(ds) {
        Ok(()) => Ok(x),
        Err(e) => Err(e),
    }
}

/// A byte slice with a read position: the in-memory byte source.
pub struct ByteCursor<'a> {
    data: &'a [u8],
    pos: usize,
}

impl<'a> ByteCursor<'a> {
    #[verifier::type_invariant]
    spec fn in_bounds(self) -> bool {
        self.pos <= self.data@.len()
    }

    /// A cursor at the start of `data`.
    pub fn new(data: &'a [u8]) -> (c: Self)
        ensures
            c.remaining() == data@,
    {
        ByteCursor { data, pos: 0 }
    }

    /// Takes the next `n` bytes off the front, or nothing if fewer are left.
    fn advance(&mut self, n: usize) -> (r: Option<&'a [u8]>)
        ensures
            reads_exactly(old(self).remaining(), final(self).remaining(), n as int, r is Some),
            r matches Some(s) ==> s@ == old(self).remaining().take(n as int),
    {
        proof {
            use_type_invariant(&*self);
        }
        if n <= self.data.len() - self.pos {
            let s = &self.data[self.pos..self.pos + n];
            assert(self.data@.skip(self.pos + n) == self.remaining().skip(n as int));
            self.pos = self.pos + n;
            Some(s)
        } else {
            None
        }
    }
}

impl<'a> DSer for ByteCursor<'a> {
    closed spec fn remaining(&self) -> Seq<u8> {
        self.data@.skip(self.pos as int)
    }

    fn read_u64(&mut self) -> (r: Result<u64, ReadError>) {
        match self.advance(8) {
            Some(s) => {
                let lo: u64 = u32_from_slice(s, 0) as u64;
                let hi: u64 = u32_from_slice(s, 4) as u64;
                Ok(lo + 4294967296 * hi)
            },
            None => Err(ReadError::Truncated),
        }
    }

    fn read_u32(&mut self) -> (r: Result<u32, ReadError>) {
        match self.advance(4) {
            Some(s) => Ok(u32_from_slice(s, 0)),
            None => Err(ReadError::Truncated),
        }
    }

    fn read_u16(&mut self) -> (r: Result<u16, ReadError>) {
        match self.advance(2) {
            Some(s) => Ok(u16_from_slice(s, 0)),
            None => Err(ReadError::Truncated),
        }
    }

    fn read_u8(&mut self) -> (r: Result<u8, ReadError>) {
        match self.advance(1) {
            Some(s) => Ok(s[0]),
            None => Err(ReadError::Truncated),
        }
    }

    fn read_bytes(&mut self, sz: usize) -> (r: Result<Vec<u8>, ReadError>) {
        match self.advance(sz) {
            Some(s) => Ok(vstd::slice::slice_to_vec(s)),
            None => Err(ReadError::Truncated),
        }
    }
}

/// Reads a little-endian `u32` from `b` at offset `at`.
pub fn u32_from_slice(b: &[u8], at: usize) -> (r: u32)
    requires
        at + 4 <= b@.len(),
    ensures
        r == le_u32_at(b@, at as int),
{
    let b0: u32 = b[at] as u32;
    let b1: u32 = b[at + 1] as u32;
    let b2: u32 = b[at + 2] as u32;
    let b3: u32 = b[at + 3] as u32;
    b0 + 256 * b1 + 65536 * b2 + 16777216 * b3
}

/// Reads a little-endian `u16` from `b` at offset `at`.
pub fn u16_from_slice(b: &[u8], at: usize) -> (r: u16)
    requires
        at + 2 <= b@.len(),
    ensures
        r == le_u16_at(b@, at as int),
{
    let b0: u16 = b[at] as u16;
    let b1: u16 = b[at + 1] as u16;
    b0 + 256 * b1
}

} // verus!
