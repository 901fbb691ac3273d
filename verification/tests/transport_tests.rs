use ticklore::transport::{
    decode_length_prefix, frame_payload, new_frame, TransportError, LENGTH_PREFIX_SIZE,
    MAXIMUM_MESSAGE_LENGTH,
};

#[test]
fn frame_prefixes_big_endian_length() {
    let mut frame = new_frame();
    assert_eq!(frame, vec![0, 0, 0, 0]);
    frame.extend_from_slice(b"abc");
    assert!(frame_payload(&mut frame).is_ok());
    assert_eq!(frame, vec![0, 0, 0, 3, b'a', b'b', b'c']);
}

#[test]
fn frame_of_empty_payload() {
    let mut frame = new_frame();
    assert!(frame_payload(&mut frame).is_ok());
    assert_eq!(frame, vec![0, 0, 0, 0]);
}

#[test]
fn frame_length_uses_all_bytes() {
    let mut frame = new_frame();
    frame.extend(std::iter::repeat(7u8).take(0x1_0203));
    assert!(frame_payload(&mut frame).is_ok());
    assert_eq!(&frame[..LENGTH_PREFIX_SIZE], &[0x00, 0x01, 0x02, 0x03]);
    assert_eq!(frame.len(), LENGTH_PREFIX_SIZE + 0x1_0203);
}

#[test]
fn frame_at_the_cap_is_accepted() {
    let mut frame = new_frame();
    frame.resize(LENGTH_PREFIX_SIZE + MAXIMUM_MESSAGE_LENGTH as usize, 1);
    assert!(frame_payload(&mut frame).is_ok());
    assert_eq!(&frame[..4], &[0x00, 0x40, 0x00, 0x00]);
}

#[test]
fn frame_over_the_cap_is_refused_unchanged() {
    let mut frame = new_frame();
    frame.resize(LENGTH_PREFIX_SIZE + MAXIMUM_MESSAGE_LENGTH as usize + 1, 1);
    assert!(matches!(frame_payload(&mut frame), Err(TransportError::MessageTooLarge)));
    assert_eq!(&frame[..4], &[0, 0, 0, 0]);
    assert_eq!(frame.len(), LENGTH_PREFIX_SIZE + MAXIMUM_MESSAGE_LENGTH as usize + 1);
}

#[test]
fn decode_reads_big_endian() {
    assert!(matches!(decode_length_prefix([0, 0, 0, 3]), Ok(3)));
    assert!(matches!(decode_length_prefix([0, 0x01, 0x02, 0x03]), Ok(0x1_0203)));
    assert!(matches!(decode_length_prefix([0, 0x40, 0, 0]), Ok(4_194_304)));
}

#[test]
fn decode_refuses_over_the_cap() {
    assert!(matches!(decode_length_prefix([0, 0x40, 0, 1]), Err(TransportError::MessageTooLarge)));
    assert!(matches!(decode_length_prefix([0xff, 0xff, 0xff, 0xff]), Err(TransportError::MessageTooLarge)));
}

#[test]
fn framed_message_reads_back_its_length() {
    let mut frame = new_frame();
    frame.extend_from_slice(&[9u8; 300]);
    assert!(frame_payload(&mut frame).is_ok());
    let prefix = [frame[0], frame[1], frame[2], frame[3]];
    match decode_length_prefix(prefix) {
        Ok(n) => assert_eq!(&frame[LENGTH_PREFIX_SIZE..LENGTH_PREFIX_SIZE + n], &[9u8; 300][..]),
        Err(_) => panic!("the length of a framed message reads back"),
    }
}

#[test]
fn transport_error_variants_hold_their_causes() {
    let io = TransportError::IO(std::io::Error::new(std::io::ErrorKind::UnexpectedEof, "eof"));
    assert!(matches!(io, TransportError::IO(ref e) if e.kind() == std::io::ErrorKind::UnexpectedEof));
    let bad = bincode::deserialize::<u64>(&[1, 2]).unwrap_err();
    assert!(matches!(TransportError::Bincode(bad), TransportError::Bincode(_)));
}
