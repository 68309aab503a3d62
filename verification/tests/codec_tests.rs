use discord_ipc::{pack, unpack, Error};

#[test]
fn test_pack_layout_little_endian() {
    let header = pack(1, 0x0102);
    assert_eq!(header, vec![1, 0, 0, 0, 0x02, 0x01, 0, 0]);
}

#[test]
fn test_header_round_trip() {
    for &(opcode, length) in &[
        (0u32, 0u32),
        (1, 42),
        (2, 4),
        (0xDEAD_BEEF, 0x0102_0304),
        (u32::MAX, u32::MAX),
    ] {
        let header = pack(opcode, length);
        assert_eq!(header.len(), 8);
        assert_eq!(unpack(&header), Ok((opcode, length)));
    }
}

#[test]
fn test_unpack_short_buffer_fails() {
    assert_eq!(unpack(&Vec::new()), Err(Error::MalformedHeader));
    assert_eq!(unpack(&vec![0u8; 7]), Err(Error::MalformedHeader));
}

#[test]
fn test_unpack_reads_first_eight_bytes() {
    let mut bytes = pack(3, 9);
    bytes.push(0xFF);
    assert_eq!(unpack(&bytes), Ok((3, 9)));
}
