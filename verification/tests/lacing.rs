use vorbis_dec::error::Error;
use vorbis_dec::lacing::read_xiph_lacing;

#[test]
fn lacing_zero() {
    let buf: Vec<u8> = vec![0];
    assert_eq!(read_xiph_lacing(&buf, 0), Ok((0, 1)));
}

#[test]
fn lacing_three_hundred() {
    let buf: Vec<u8> = vec![255, 45];
    assert_eq!(read_xiph_lacing(&buf, 0), Ok((300, 2)));
}

#[test]
fn lacing_longer_run() {
    let buf: Vec<u8> = vec![255, 255, 0];
    assert_eq!(read_xiph_lacing(&buf, 0), Ok((510, 3)));
}

#[test]
fn lacing_stops_at_first_terminator() {
    let buf: Vec<u8> = vec![45, 99];
    assert_eq!(read_xiph_lacing(&buf, 0), Ok((45, 1)));
}

#[test]
fn lacing_truncated_run_fails() {
    let buf: Vec<u8> = vec![255, 255];
    assert_eq!(read_xiph_lacing(&buf, 0), Err(Error::InvalidData));
}

#[test]
fn lacing_empty_fails() {
    let buf: Vec<u8> = vec![];
    assert_eq!(read_xiph_lacing(&buf, 0), Err(Error::InvalidData));
}

#[test]
fn lacing_reads_from_offset() {
    let buf: Vec<u8> = vec![2, 255, 45];
    assert_eq!(read_xiph_lacing(&buf, 1), Ok((300, 3)));
}

#[test]
fn lacing_canonical_encoding_round_trip() {
    // The canonical encoding of v: v / 255 bytes of 255, then v % 255.
    for v in [0u64, 1, 254, 255, 300, 510, 1000, 100_000] {
        let mut buf: Vec<u8> = Vec::new();
        for _ in 0..(v / 255) {
            buf.push(255);
        }
        buf.push((v % 255) as u8);
        let len = buf.len();
        assert_eq!(read_xiph_lacing(&buf, 0), Ok((v, len)));
    }
}
