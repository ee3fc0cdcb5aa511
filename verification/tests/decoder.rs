use vorbis_dec::decoder::{vorbis_descr, Dec};
use vorbis_dec::error::Error;
use vorbis_dec::frame::{Packet, TimeInfo};

// A valid identification header: 2 channels, 44100 Hz, blocksizes 8 and 11.
fn valid_ident() -> Vec<u8> {
    vec![
        0x01, 0x76, 0x6f, 0x72, 0x62, 0x69, 0x73, 0x00, 0x00, 0x00, 0x00, 0x02, 0x44, 0xac, 0x00,
        0x00, 0x00, 0x00, 0x00, 0x00, 0x80, 0xb5, 0x01, 0x00, 0x00, 0x00, 0x00, 0x00, 0xb8, 0x01,
    ]
}

// A valid comment header: empty vendor string, no comments.
fn valid_comment() -> Vec<u8> {
    let mut v: Vec<u8> = vec![0x03];
    v.extend_from_slice(b"vorbis");
    v.extend_from_slice(&0u32.to_le_bytes());
    v.extend_from_slice(&0u32.to_le_bytes());
    v.push(1);
    v
}

fn fresh_dec() -> Dec {
    vorbis_descr().create()
}

fn some_packet() -> Packet {
    Packet { data: vec![0x12, 0x34, 0x56], t: TimeInfo::empty() }
}

#[test]
fn describe_registration_record() {
    let des = vorbis_descr();
    let descr = des.describe();
    assert_eq!(descr.codec, "vorbis");
    assert_eq!(descr.name, "lewton");
    assert_eq!(descr.desc, "lewton vorbis decoder");
    assert_eq!(descr.mime, "audio/VORBIS");
}

#[test]
fn receive_frame_on_fresh_decoder_needs_data() {
    let mut dec = fresh_dec();
    let r = dec.receive_frame();
    assert!(matches!(r, Err(Error::MoreDataNeeded)));
    let r2 = dec.receive_frame();
    assert!(matches!(r2, Err(Error::MoreDataNeeded)));
}

#[test]
fn send_packet_before_configure_errs_cleanly() {
    let mut dec = fresh_dec();
    let r = dec.send_packet(&some_packet());
    assert!(matches!(r, Err(Error::ConfigurationIncomplete)));
    assert!(matches!(dec.receive_frame(), Err(Error::MoreDataNeeded)));
}

#[test]
fn configure_without_extradata_incomplete() {
    let mut dec = fresh_dec();
    assert!(matches!(dec.configure(), Err(Error::ConfigurationIncomplete)));
}

#[test]
fn configure_empty_extradata_invalid() {
    let mut dec = fresh_dec();
    dec.set_extradata(&[]);
    assert!(matches!(dec.configure(), Err(Error::InvalidData)));
}

#[test]
fn configure_bad_marker_invalid() {
    let mut dec = fresh_dec();
    dec.set_extradata(&[1, 30, 16]);
    assert!(matches!(dec.configure(), Err(Error::InvalidData)));
    // A later packet still sees an unconfigured decoder.
    assert!(matches!(dec.send_packet(&some_packet()), Err(Error::ConfigurationIncomplete)));
}

#[test]
fn configure_truncated_lacing_invalid() {
    let mut dec = fresh_dec();
    dec.set_extradata(&[2, 255, 255]);
    assert!(matches!(dec.configure(), Err(Error::InvalidData)));
}

#[test]
fn configure_length_beyond_buffer_invalid() {
    let mut dec = fresh_dec();
    dec.set_extradata(&[2, 30, 0]);
    assert!(matches!(dec.configure(), Err(Error::InvalidData)));
}

#[test]
fn configure_garbage_headers_invalid() {
    let mut dec = fresh_dec();
    dec.set_extradata(&[2, 2, 2, 0xff, 0xfe, 0xfd, 0xfc, 0xfb]);
    assert!(matches!(dec.configure(), Err(Error::InvalidData)));
}

#[test]
fn configure_valid_ident_and_comment_bad_setup_invalid() {
    let mut dec = fresh_dec();
    let ident = valid_ident();
    let comment = valid_comment();
    let mut extra: Vec<u8> = vec![2, ident.len() as u8, comment.len() as u8];
    extra.extend_from_slice(&ident);
    extra.extend_from_slice(&comment);
    extra.extend_from_slice(&[0xde, 0xad, 0xbe, 0xef]);
    dec.set_extradata(&extra);
    assert!(matches!(dec.configure(), Err(Error::InvalidData)));
    assert!(matches!(dec.send_packet(&some_packet()), Err(Error::ConfigurationIncomplete)));
}

#[test]
fn configure_valid_ident_missing_setup_invalid() {
    let mut dec = fresh_dec();
    let ident = valid_ident();
    let comment = valid_comment();
    let mut extra: Vec<u8> = vec![2, ident.len() as u8, comment.len() as u8];
    extra.extend_from_slice(&ident);
    extra.extend_from_slice(&comment);
    dec.set_extradata(&extra);
    assert!(matches!(dec.configure(), Err(Error::InvalidData)));
}

#[test]
fn flush_always_succeeds() {
    let mut dec = fresh_dec();
    assert!(dec.flush().is_ok());
    assert!(dec.flush().is_ok());
    // Flushing leaves the pending queue alone: it is still empty.
    assert!(matches!(dec.receive_frame(), Err(Error::MoreDataNeeded)));
}

#[test]
fn flush_keeps_stored_extradata() {
    let mut dec = fresh_dec();
    dec.set_extradata(&[1, 2, 3]);
    assert!(dec.flush().is_ok());
    // The stored extradata survived the flush: configure still consumes it
    // (and rejects it for its bad marker rather than reporting it missing).
    assert!(matches!(dec.configure(), Err(Error::InvalidData)));
}
