use disco5::computer::cartridge::LoadError;
use disco5::computer::listing::parse_listing_line;
use disco5::computer::Computer;

#[test]
fn parses_offset_and_bytes() {
    let parsed = parse_listing_line(&b"600: a2 10 A0 0a 94 0 e8".to_vec());
    assert_eq!(parsed, Some((600, vec![0xa2, 0x10, 0xa0, 0x0a, 0x94, 0x00, 0xe8])));
    assert_eq!(parse_listing_line(&b"65535:".to_vec()), Some((65535, vec![])));
}

#[test]
fn rejects_malformed_lines() {
    for line in [
        &b""[..],
        b": 00",
        b"600 a2",
        b"600:a2",
        b"600: a2 ",
        b"600:  a2",
        b"600: 1ff",
        b"600: g1",
        b"65536: 00",
        b"99999999999: 00",
    ] {
        assert_eq!(parse_listing_line(&line.to_vec()), None, "{:?}", line);
    }
}

#[test]
fn listing_lines_load_into_memory() {
    let mut computer: Computer = Default::default();
    computer
        .load_listing_line(&b"600: a2 10 a0 0a 94 00 e8 88 c0 00 d0 f8 00".to_vec())
        .unwrap();
    computer.load_listing_line(&b"16: ff".to_vec()).unwrap();
    assert_eq!(computer.cpu.pc, 600);
    assert_eq!(&computer.address_space.bytes[600..604], &[0xa2, 0x10, 0xa0, 0x0a]);
    assert_eq!(computer.address_space.bytes[16], 0xff);
    assert_eq!(
        computer.load_listing_line(&b"65535: 01 02".to_vec()),
        Err(LoadError::OutOfMemory)
    );
    assert_eq!(computer.load_listing_line(&b"x".to_vec()), Err(LoadError::Malformed));
    assert_eq!(computer.address_space.bytes[65535], 0);
}
