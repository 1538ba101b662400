use crate::error::ReadError;
use crate::rctrle::{decompress, decompressed, rle_decode, rotate_bytes, rotated, Reader};
use crate::util::{le_u32_at, read_dser, u32_from_slice, ByteCursor, DSer, DeSerializable};
use vstd::prelude::*;

verus! {

/// How the payload of a chunk is encoded.
#[derive(Copy, Clone, Debug, PartialEq, Eq, Structural)]
pub enum Encoding {
    /// Tag 0: the payload is stored as it is.
    Stored,
    /// Tag 1: the payload is run-length encoded.
    RLE,
    /// Tag 2: run-length encoded, and below that literals and back-references.
    RLECompressed,
    /// Tag 3: each byte of the payload is rotated.
    Rotate,
    /// Any other tag.
    Unknown,
}

/// The encoding that a tag byte stands for.
pub open spec fn encoding_of(tag: u8) -> Encoding {
    if tag == 0 {
        Encoding::Stored
    } else if tag == 1 {
        Encoding::RLE
    } else if tag == 2 {
        Encoding::RLECompressed
    } else if tag == 3 {
        Encoding::Rotate
    } else {
        Encoding::Unknown
    }
}

impl From<u8> for Encoding {
    fn from(n: u8) -> (e: Self) {
        match n {
            0 => Encoding::Stored,
            1 => Encoding::RLE,
            2 => Encoding::RLECompressed,
            3 => Encoding::Rotate,
            _ => Encoding::Unknown,
        }
    }
}

impl vstd::std_specs::convert::FromSpecImpl<u8> for Encoding {
    open spec fn obeys_from_spec() -> bool {
        true
    }

    open spec fn from_spec(n: u8) -> Self {
        encoding_of(n)
    }
}

/// The five bytes in front of a chunk's payload: the encoding tag and the
/// length of the payload as stored.
pub struct ChunkHeader {
    enc: Encoding,
    len: u32,
}

impl ChunkHeader {
    /// The encoding that the header declares.
    pub closed spec fn encoding(&self) -> Encoding {
        self.enc
    }

    /// The number of payload bytes that follow the header.
    pub closed spec fn length(&self) -> u32 {
        self.len
    }
}

impl Default for ChunkHeader {
    fn default() -> (h: Self)
        ensures
            h.encoding() == Encoding::Stored,
            h.length() == 0,
    {
        ChunkHeader { enc: Encoding::Stored, len: 0 }
    }
}

impl DeSerializable for ChunkHeader {
    open spec fn wire_len() -> nat {
        5
    }

    closed spec fn from_wire(bytes: Seq<u8>) -> Self {
        ChunkHeader { enc: encoding_of(bytes[0]), len: le_u32_at(bytes, 1) as u32 }
    }

    fn from_dser<S: DSer>(&mut self, ds: &mut S) -> (r: Result<(), ReadError>) {
        match ds.read_bytes(5) {
            Ok(v) => {
                self.enc = Encoding::from(v[0]);
                self.len = u32_from_slice(v.as_slice(), 1);
                Ok(())
            },
            Err(e) => Err(e),
        }
    }
}

/// What a header read from the front of `bytes` holds.
pub proof fn lemma_header_from_wire(bytes: Seq<u8>)
    requires
        bytes.len() >= 5,
    ensures
        ChunkHeader::from_wire(bytes).encoding() == encoding_of(bytes[0]),
        ChunkHeader::from_wire(bytes).length() == le_u32_at(bytes, 1),
{
}

/// The decoded payload of a chunk with the encoding it was stored in.
pub struct Chunk {
    data: Vec<u8>,
    enc: Encoding,
}

impl Chunk {
    /// The decoded bytes.
    pub closed spec fn bytes(&self) -> Seq<u8> {
        self.data@
    }

    /// The encoding that the chunk was stored in.
    pub closed spec fn tag(&self) -> Encoding {
        self.enc
    }

    /// A chunk of decoded bytes `data` that were stored as `enc`.
    pub fn new(enc: Encoding, data: Vec<u8>) -> (c: Self)
        ensures
            c.bytes() == data@,
            c.tag() == enc,
    {
        Self { data, enc }
    }

    /// The decoded bytes.
    pub fn data(&self) -> (d: &Vec<u8>)
        ensures
            d@ == self.bytes(),
    {
        &self.data
    }

    /// The encoding that the chunk was stored in.
    pub fn encoding(&self) -> (e: Encoding)
        ensures
            e == self.tag(),
    {
        self.enc
    }
}

/// What a payload decodes to under an encoding.
pub open spec fn decoded_payload(enc: Encoding, payload: Seq<u8>) -> Result<Seq<u8>, ReadError> {
    match enc {
        Encoding::Stored => Ok(payload),
        Encoding::RLE => Ok(rle_decode(payload)),
        Encoding::RLECompressed => decompressed(rle_decode(payload)),
        Encoding::Rotate => Ok(rotated(payload)),
        Encoding::Unknown => Ok(Seq::empty()),
    }
}

/// The length of the chunk at the front of `s`, header and payload, as its
/// header declares it.
pub open spec fn chunk_length(s: Seq<u8>) -> int {
    5 + le_u32_at(s, 1)
}

/// Whether `s` holds the whole chunk that starts at its front.
pub open spec fn chunk_complete(s: Seq<u8>) -> bool {
    s.len() >= 5 && s.len() >= chunk_length(s)
}

/// How many bytes of `s` reading one chunk takes: the whole chunk where it
/// is there, the header alone where the payload is cut short, nothing where
/// the header is.
pub open spec fn chunk_consumed(s: Seq<u8>) -> int {
    if s.len() < 5 {
        0
    } else if s.len() < chunk_length(s) {
        5
    } else {
        chunk_length(s)
    }
}

/// The chunk at the front of `s`: its encoding and its decoded payload.
pub open spec fn parsed_chunk(s: Seq<u8>) -> Result<(Encoding, Seq<u8>), ReadError> {
    if !chunk_complete(s) {
        Err(ReadError::Truncated)
    } else {
        match decoded_payload(encoding_of(s[0]), s.subrange(5, chunk_length(s))) {
            Ok(data) => Ok((encoding_of(s[0]), data)),
            Err(e) => Err(e),
        }
    }
}

/// Reads chunks one after another from a byte source.
pub struct ChunkReader<S: DSer> {
    s: S,
}

impl<S: DSer> ChunkReader<S> {
    /// The bytes of the source that no chunk has taken yet.
    pub closed spec fn remaining(&self) -> Seq<u8> {
        self.s.remaining()
    }

    /// A chunk reader at the current position of `s`.
    pub fn new(s: S) -> (rd: Self)
        ensures
            rd.remaining() == s.remaining(),
    {
        ChunkReader { s }
    }

    /// Passes over one chunk without decoding it.
    pub fn skip_chunk(&mut self) -> (r: Result<(), ReadError>)
        ensures
            final(self).remaining() == old(self).remaining().skip(
                chunk_consumed(old(self).remaining()),
            ),
            r == if chunk_complete(old(self).remaining()) {
                Ok::<(), ReadError>(())
            } else {
                Err::<(), ReadError>(ReadError::Truncated)
            },
    {
        let header = match read_dser::<S, ChunkHeader>(&mut self.s) {
            Ok(h) => h,
            Err(e) => {
                return Err(e);
            },
        };
        match self.s.read_bytes(header.len as usize) {
            Ok(_) => Ok(()),
            Err(e) => Err(e),
        }
    }

    /// Reads one chunk: its header, the payload that the header announces,
    /// and the decoding of that payload.
    pub fn read_chunk(&mut self) -> (r: Result<Chunk, ReadError>)
        ensures
            final(self).remaining() == old(self).remaining().skip(
                chunk_consumed(old(self).remaining()),
            ),
            match parsed_chunk(old(self).remaining()) {
                Ok((enc, data)) => r matches Ok(c) && c.tag() == enc && c.bytes() == data,
                Err(e) => r matches Err(x) && x == e,
            },
    {
        let ghost input = self.s.remaining();
        let header = match read_dser::<S, ChunkHeader>(&mut self.s) {
            Ok(h) => h,
            Err(e) => {
                return Err(e);
            },
        };
        let payload = match self.s.read_bytes(header.len as usize) {
            Ok(p) => p,
            Err(e) => {
                return Err(e);
            },
        };
        assert(payload@ == input.subrange(5, 5 + header.len));
        let mut data: Vec<u8> = Vec::new();
        match self.decode_chunk(&header, payload.as_slice(), &mut data) {
            Ok(()) => Ok(Chunk::new(header.enc, data)),
            Err(e) => Err(e),
        }
    }

    /// Appends to `to` what the payload `from` decodes to under the encoding
    /// of `h`. Where the payload cannot be decoded `to` stays as it was.
    fn decode_chunk(&self, h: &ChunkHeader, from: &[u8], to: &mut Vec<u8>) -> (r: Result<
        (),
        ReadError,
    >)
        ensures
            match decoded_payload(h.encoding(), from@) {
                Ok(data) => r is Ok && final(to)@ == old(to)@ + data,
                Err(e) => r == Err::<(), ReadError>(e) && final(to)@ == old(to)@,
            },
    {
        match h.enc {
            Encoding::Stored => {
                to.extend_from_slice(from);
                Ok(())
            },
            Encoding::RLE => {
                self.decode_chunk_rle(from, to);
                Ok(())
            },
            Encoding::RLECompressed => self.decode_chunk_rle_repeat(from, to),
            Encoding::Rotate => {
                self.decode_chunk_rotate(from, to);
                Ok(())
            },
            Encoding::Unknown => Ok(()),
        }
    }

    /// Run-length decodes `from`, expands the result, and appends that to `to`.
    fn decode_chunk_rle_repeat(&self, from: &[u8], to: &mut Vec<u8>) -> (r: Result<(), ReadError>)
        ensures
            match decompressed(rle_decode(from@)) {
                Ok(data) => r is Ok && final(to)@ == old(to)@ + data,
                Err(e) => r == Err::<(), ReadError>(e) && final(to)@ == old(to)@,
            },
    {
        let mut imbuf: Vec<u8> = Vec::new();
        self.decode_chunk_rle(from, &mut imbuf);
        self.decode_chunk_repeat(imbuf.as_slice(), to)
    }

    /// Appends the run-length decoding of `from` to `to`.
    fn decode_chunk_rle(&self, from: &[u8], to: &mut Vec<u8>)
        ensures
            final(to)@ == old(to)@ + rle_decode(from@),
    {
        let mut rd = Reader::new(ByteCursor::new(from));
        rd.read_to_end(to);
    }

    /// Appends the expansion of the literals and back-references of `from`
    /// to `to`. The back-references reach into the expansion only.
    fn decode_chunk_repeat(&self, from: &[u8], to: &mut Vec<u8>) -> (r: Result<(), ReadError>)
        ensures
            match decompressed(from@) {
                Ok(data) => r is Ok && final(to)@ == old(to)@ + data,
                Err(e) => r == Err::<(), ReadError>(e) && final(to)@ == old(to)@,
            },
    {
        match decompress(from) {
            Ok(v) => {
                to.extend_from_slice(v.as_slice());
                Ok(())
            },
            Err(e) => Err(e),
        }
    }

    /// Appends the bytes of `from` to `to`, each rotated right by the
    /// rotation of its index.
    fn decode_chunk_rotate(&self, from: &[u8], to: &mut Vec<u8>)
        ensures
            final(to)@ == old(to)@ + rotated(from@),
    {
        let mut bytes = vstd::slice::slice_to_vec(from);
        rotate_bytes(bytes.as_mut_slice());
        to.extend_from_slice(bytes.as_slice());
    }
}

/// The sum of the bytes of `s`.
pub open spec fn byte_sum(s: Seq<u8>) -> nat
    decreases s.len(),
{
    if s.len() == 0 {
        0
    } else {
        byte_sum(s.drop_last()) + s.last() as nat
    }
}

/// Whether the last four bytes of `s`, read as a little-endian number, are
/// the sum of all the bytes before them, taken modulo 2^32 as a 32-bit
/// counter keeps it. A buffer of fewer than eight bytes never matches.
pub open spec fn checksum_matches(s: Seq<u8>) -> bool {
    s.len() >= 8 && byte_sum(s.take(s.len() - 4)) % 0x1_0000_0000 == le_u32_at(s, s.len() - 4)
}

/// Tells whether the checksum stored at the end of a file is the sum of the
/// bytes in front of it, counted in 32 bits. The answer is advice: no input
/// makes this fail.
pub fn validate_checksum(s: &[u8]) -> (valid: bool)
    ensures
        valid == checksum_matches(s@),
{
    if s.len() < 8 {
        return false;
    }
    let end: usize = s.len() - 4;
    let fch: u32 = u32_from_slice(s, end);
    let mut checksum: u32 = 0;
    let mut i: usize = 0;
    while i < end
        invariant
            i <= end == s@.len() - 4,
            checksum == byte_sum(s@.take(i as int)) % 0x1_0000_0000,
        decreases end - i,
    {
        let x = s[i];
        assert(s@.take(i + 1).drop_last() == s@.take(i as int));
        checksum = checksum.wrapping_add(x as u32);
        i = i + 1;
    }
    checksum == fch
}

} // verus!
