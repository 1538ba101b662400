use rct_reader::encode::rle_encode;
use rct_reader::error::ReadError;
use rct_reader::sawyer::{validate_checksum, Chunk, ChunkReader, Encoding};
use rct_reader::util::{ByteCursor, DSer};

fn chunk(tag: u8, payload: &[u8]) -> Vec<u8> {
    let mut out = vec![tag];
    out.extend_from_slice(&(payload.len() as u32).to_le_bytes());
    out.extend_from_slice(payload);
    out
}

#[test]
fn encoding_from_tag() {
    assert_eq!(Encoding::from(0), Encoding::Stored);
    assert_eq!(Encoding::from(1), Encoding::RLE);
    assert_eq!(Encoding::from(2), Encoding::RLECompressed);
    assert_eq!(Encoding::from(3), Encoding::Rotate);
    assert_eq!(Encoding::from(4), Encoding::Unknown);
    assert_eq!(Encoding::from(0xFF), Encoding::Unknown);
}

#[test]
fn chunk_holds_what_it_was_given() {
    let c = Chunk::new(Encoding::Rotate, vec![1, 2, 3]);
    assert_eq!(c.data(), &vec![1, 2, 3]);
    assert_eq!(c.encoding(), Encoding::Rotate);
}

#[test]
fn read_stored_chunk() {
    let file = chunk(0, &[9, 8, 7]);
    let mut rd = ChunkReader::new(ByteCursor::new(&file));
    let c = rd.read_chunk().unwrap();
    assert_eq!(c.encoding(), Encoding::Stored);
    assert_eq!(c.data(), &vec![9, 8, 7]);
}

#[test]
fn read_rle_chunk() {
    let file = chunk(1, &[0xFE, 5, 1, 6, 7]);
    let mut rd = ChunkReader::new(ByteCursor::new(&file));
    let c = rd.read_chunk().unwrap();
    assert_eq!(c.encoding(), Encoding::RLE);
    assert_eq!(c.data(), &vec![5, 5, 5, 6, 7]);
}

#[test]
fn read_rle_compressed_chunk() {
    // The run-length layer holds: literal 0x41, then a reference of length
    // 4 at offset -1.
    let inner = [0xFFu8, 0x41, 0xFB];
    let file = chunk(2, &rle_encode(&inner));
    let mut rd = ChunkReader::new(ByteCursor::new(&file));
    let c = rd.read_chunk().unwrap();
    assert_eq!(c.encoding(), Encoding::RLECompressed);
    assert_eq!(c.data(), &vec![0x41; 5]);
}

#[test]
fn read_rotated_chunk() {
    let file = chunk(3, &[0xAB, 0xAB, 0xAB, 0xAB, 0x01]);
    let mut rd = ChunkReader::new(ByteCursor::new(&file));
    let c = rd.read_chunk().unwrap();
    assert_eq!(c.encoding(), Encoding::Rotate);
    assert_eq!(c.data(), &vec![0xD5, 0x75, 0x5D, 0x57, 0x80]);
}

#[test]
fn read_chunk_of_unknown_encoding_is_empty() {
    let mut file = chunk(9, &[1, 2, 3]);
    file.extend_from_slice(&chunk(0, &[4]));
    let mut rd = ChunkReader::new(ByteCursor::new(&file));
    let c = rd.read_chunk().unwrap();
    assert_eq!(c.encoding(), Encoding::Unknown);
    assert_eq!(c.data(), &Vec::<u8>::new());
    assert_eq!(rd.read_chunk().unwrap().data(), &vec![4]);
}

#[test]
fn read_empty_chunk() {
    for tag in 0..=4u8 {
        let file = chunk(tag, &[]);
        let mut rd = ChunkReader::new(ByteCursor::new(&file));
        assert_eq!(rd.read_chunk().unwrap().data(), &Vec::<u8>::new());
    }
}

#[test]
fn read_chunks_back_to_back() {
    let mut file = chunk(0, &[1]);
    file.extend_from_slice(&chunk(1, &[0xFF, 2]));
    file.extend_from_slice(&chunk(3, &[2]));
    let mut rd = ChunkReader::new(ByteCursor::new(&file));
    assert_eq!(rd.read_chunk().unwrap().data(), &vec![1]);
    assert_eq!(rd.read_chunk().unwrap().data(), &vec![2, 2]);
    assert_eq!(rd.read_chunk().unwrap().data(), &vec![1]);
    assert!(matches!(rd.read_chunk(), Err(ReadError::Truncated)));
}

#[test]
fn read_chunk_with_header_cut_short() {
    let file = [0u8, 1, 0, 0];
    let mut rd = ChunkReader::new(ByteCursor::new(&file));
    assert!(matches!(rd.read_chunk(), Err(ReadError::Truncated)));
}

#[test]
fn read_chunk_with_payload_cut_short() {
    let mut file = chunk(0, &[1, 2, 3]);
    file.pop();
    let mut rd = ChunkReader::new(ByteCursor::new(&file));
    assert!(matches!(rd.read_chunk(), Err(ReadError::Truncated)));
}

#[test]
fn read_chunk_with_bad_reference() {
    let file = chunk(2, &rle_encode(&[0xFB]));
    let mut rd = ChunkReader::new(ByteCursor::new(&file));
    assert!(matches!(rd.read_chunk(), Err(ReadError::BadReference)));
}

#[test]
fn read_chunk_with_escape_at_end() {
    let file = chunk(2, &rle_encode(&[0xFF]));
    let mut rd = ChunkReader::new(ByteCursor::new(&file));
    assert!(matches!(rd.read_chunk(), Err(ReadError::Truncated)));
}

#[test]
fn skip_chunk_passes_over_payload() {
    // The first chunk could not be decoded; skipping does not look at it.
    let mut file = chunk(2, &rle_encode(&[0xFB]));
    file.extend_from_slice(&chunk(0, &[7, 7]));
    let mut rd = ChunkReader::new(ByteCursor::new(&file));
    assert_eq!(rd.skip_chunk(), Ok(()));
    assert_eq!(rd.read_chunk().unwrap().data(), &vec![7, 7]);
    assert_eq!(rd.skip_chunk(), Err(ReadError::Truncated));
}

#[test]
fn skip_chunk_cut_short() {
    let mut file = chunk(0, &[1, 2, 3]);
    file.pop();
    let mut rd = ChunkReader::new(ByteCursor::new(&file));
    assert_eq!(rd.skip_chunk(), Err(ReadError::Truncated));
}

#[test]
fn chunk_reader_starts_where_the_source_stands() {
    let mut file = vec![0xEE, 0xEE];
    file.extend_from_slice(&chunk(0, &[5]));
    let mut source = ByteCursor::new(&file);
    assert_eq!(source.read_u16(), Ok(0xEEEE));
    let mut rd = ChunkReader::new(source);
    assert_eq!(rd.read_chunk().unwrap().data(), &vec![5]);
}

#[test]
fn checksum_of_byte_sum() {
    assert!(validate_checksum(&[1, 2, 3, 4, 10, 0, 0, 0]));
    assert!(!validate_checksum(&[1, 2, 3, 4, 11, 0, 0, 0]));
    assert!(!validate_checksum(&[1, 2, 3, 4, 10, 1, 0, 0]));
    let mut file = vec![0xFFu8; 1000];
    file.extend_from_slice(&255_000u32.to_le_bytes());
    assert!(validate_checksum(&file));
    file[0] = 0xFE;
    assert!(!validate_checksum(&file));
}

#[test]
fn checksum_needs_eight_bytes() {
    assert!(!validate_checksum(&[]));
    assert!(!validate_checksum(&[0, 0, 0, 0]));
    assert!(!validate_checksum(&[0, 0, 0, 0, 0, 0, 0]));
    assert!(validate_checksum(&[0, 0, 0, 0, 0, 0, 0, 0]));
}

#[test]
fn checksum_is_counted_in_32_bits() {
    // 16_843_010 bytes of 0xFF sum to 2^32 + 254.
    let mut file = vec![0xFFu8; 16_843_010];
    file.extend_from_slice(&254u32.to_le_bytes());
    assert!(validate_checksum(&file));
    let n = file.len();
    file[n - 4] = 253;
    assert!(!validate_checksum(&file));
    // One byte fewer stays below 2^32.
    let mut below = vec![0xFFu8; 16_843_009];
    below.extend_from_slice(&(16_843_009u32 * 255).to_le_bytes());
    assert!(validate_checksum(&below));
}

#[test]
fn checksum_of_a_body_that_is_no_multiple_of_a_block() {
    let mut file: Vec<u8> = (0..5000u32).map(|i| (i % 256) as u8).collect();
    let sum: u32 = file.iter().map(|b| u32::from(*b)).sum();
    file.extend_from_slice(&sum.to_le_bytes());
    assert!(validate_checksum(&file));
}
