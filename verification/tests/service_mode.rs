use dcc_rs::packets::service_mode::{
    AddressOnly, AddressQuery, DecoderLock, FactoryReset, Instruction, Operation, PagePreset,
    PhysicalRegister,
};
use dcc_rs::packets::MAX_BITS;
use dcc_rs::Error;

/// Expands bytes into bits, most significant bit first, as they appear on
/// the wire.
fn bits_of_bytes(bytes: &[u8]) -> Vec<bool> {
    let mut out = Vec::new();
    for &b in bytes {
        for k in 0..8 {
            out.push((b >> (7 - k)) & 1 == 1);
        }
    }
    out
}

#[test]
fn serialise_instruction_packet_write_byte() {
    // [    preamble    ] S      WWAA SAAA A AAA A_S_DD DD_DD DD_S_E EEE_E EEES
    // 1111 1111 1111 111_0 0111 1100 0001 0_111 1_0_10 10_10 10_0_1 111_1 0011
    let pkt = Instruction::builder()
        .cv_address(48)
        .unwrap()
        .write_byte(0xaa)
        .build()
        .unwrap();

    let mut buf = [false; MAX_BITS];
    let len = pkt.serialise(&mut buf).unwrap();
    assert_eq!(len, 52);

    let expected_arr = [
        0b1111_1111_u8, // PPPP PPPP
        0b1111_1110,    // PPPP PPPS
        0b0111_1100,    // 0111 WWAA
        0b0001_0111,    // SAAA AAAA
        0b1_0_10_10_10, // ASDD DDDD
        0b10_0_1_111_1, // DDSE EEEE
        0b001_1_0000,   // EEES ----
    ];
    let expected = bits_of_bytes(&expected_arr);
    assert_eq!(&buf[..len], &expected[..52]);
}

#[test]
fn serialise_instruction_packet_verify_bit() {
    // [    preamble    ] S      WWAA SAAA A AAA A_S_DD DK_BO OO_S_E EEE_E EEES
    // 1111 1111 1111 111_0 0111 1001 0001 0_100 1_0_11 10_11 01_0_1 011_1 0111
    let pkt = Instruction::builder()
        .cv_address(298)
        .unwrap()
        .verify_bit(5, true)
        .unwrap()
        .build()
        .unwrap();

    let mut buf = [false; MAX_BITS];
    let len = pkt.serialise(&mut buf).unwrap();
    assert_eq!(len, 52);

    let expected_arr = [
        0b1111_1111_u8, // PPPP PPPP
        0b1111_1110,    // PPPP PPPS
        0b0111_1001,    // 0111 WWAA
        0b0001_0100,    // SAAA AAAA
        0b1_0_11_10_11, // ASDD DKBO
        0b01_0_1_011_1, // OOSE EEEE
        0b101_1_0000,   // EEES ----
    ];
    let expected = bits_of_bytes(&expected_arr);
    assert_eq!(&buf[..len], &expected[..52]);
}

#[test]
fn serialise_address_only_packet() {
    // [    preamble    ] S 0111 C000 S 0DDD DDDD S EEEE EEEE S
    // 1111 1111 1111 111_0 0111 1000 0 0011 1011 0 0100 0011 1
    let pkt = AddressOnly::write(59).unwrap();

    let mut buf = [false; MAX_BITS];
    let len = pkt.serialise(&mut buf).unwrap();
    assert_eq!(len, 43);

    let expected_arr = [
        0b1111_1111_u8, // PPPP PPPP
        0b1111_1110,    // PPPP PPPS
        0b0111_1000,    // 0111 C000
        0b0_0011_101,   // S0DD DDDD
        0b1_0_01_0000,  // DSEE EEEE
        0b11_1_0_0000,  // EES- ----
    ];
    let expected = bits_of_bytes(&expected_arr);
    assert_eq!(&buf[..len], &expected[..43]);
}

#[test]
fn serialise_physical_register_packet() {
    // [    preamble    ] S 0111 CRRR S DDDD DDDD S EEEE EEEE S
    // 1111 1111 1111 111_0 0111 1101 0 1010 1010 0 1101 0111 1
    let pkt = PhysicalRegister::builder()
        .operation(Operation::Write)
        .register(6)
        .unwrap()
        .value(0xaa)
        .build()
        .unwrap();

    let mut buf = [false; MAX_BITS];
    let len = pkt.serialise(&mut buf).unwrap();
    assert_eq!(len, 43);

    let expected_arr = [
        0b1111_1111_u8, // PPPP PPPP
        0b1111_1110,    // PPPP PPPS
        0b0111_1101,    // 0111 CRRR
        0b0_1010_101,   // SDDD DDDD
        0b0_0_11_0101,  // DSEE EEEE
        0b11_1_0_0000,  // EES- ----
    ];
    let expected = bits_of_bytes(&expected_arr);
    assert_eq!(&buf[..len], &expected[..43]);
}

#[test]
fn cv_address_bounds() {
    assert_eq!(
        Instruction::builder().cv_address(0).err(),
        Some(Error::InvalidAddress)
    );
    assert_eq!(
        Instruction::builder().cv_address(1024).err(),
        Some(Error::InvalidAddress)
    );
    assert!(Instruction::builder().cv_address(1).is_ok());
    assert!(Instruction::builder().cv_address(1023).is_ok());
}

#[test]
fn bit_offset_bounds() {
    assert_eq!(
        Instruction::builder().write_bit(8, true).err(),
        Some(Error::InvalidOffset)
    );
    assert_eq!(
        Instruction::builder().verify_bit(8, false).err(),
        Some(Error::InvalidOffset)
    );
    assert!(Instruction::builder().write_bit(7, true).is_ok());
    assert!(Instruction::builder().verify_bit(0, false).is_ok());
}

#[test]
fn instruction_missing_fields() {
    assert_eq!(
        Instruction::builder().build().err(),
        Some(Error::MissingField)
    );
    assert_eq!(
        Instruction::builder()
            .cv_address(5)
            .unwrap()
            .build()
            .err(),
        Some(Error::MissingField)
    );
    assert_eq!(
        Instruction::builder().write_byte(1).build().err(),
        Some(Error::MissingField)
    );
}

#[test]
fn physical_register_bounds_and_missing_fields() {
    assert_eq!(
        PhysicalRegister::builder().register(0).err(),
        Some(Error::InvalidAddress)
    );
    assert_eq!(
        PhysicalRegister::builder().register(9).err(),
        Some(Error::InvalidAddress)
    );
    // registers 1-8 are all valid, stored zero-based
    assert!(PhysicalRegister::builder().register(1).is_ok());
    assert!(PhysicalRegister::builder().register(8).is_ok());
    assert_eq!(
        PhysicalRegister::builder().build().err(),
        Some(Error::MissingField)
    );
    assert_eq!(
        PhysicalRegister::builder()
            .operation(Operation::Verify)
            .register(2)
            .unwrap()
            .build()
            .err(),
        Some(Error::MissingField)
    );
}

#[test]
fn address_only_bounds() {
    assert_eq!(AddressOnly::write(127).err(), Some(Error::InvalidAddress));
    assert_eq!(AddressOnly::verify(255).err(), Some(Error::InvalidAddress));
    assert!(AddressOnly::write(126).is_ok());
    assert!(AddressOnly::verify(0).is_ok());
}

#[test]
fn decoder_lock_builder() {
    assert_eq!(
        DecoderLock::builder().address(127).err(),
        Some(Error::InvalidAddress)
    );
    assert_eq!(
        DecoderLock::builder().build().err(),
        Some(Error::MissingField)
    );
    let pkt = DecoderLock::builder().address(77).unwrap().build().unwrap();
    assert_eq!(pkt.address, 77);
}

#[test]
fn serialise_decoder_lock_packet() {
    let pkt = DecoderLock::builder().address(77).unwrap().build().unwrap();
    let mut buf = [false; MAX_BITS];
    let len = pkt.serialise(&mut buf).unwrap();
    assert_eq!(len, 52);
    let expected = bits_of_bytes(&[0x00, 0b1111_1001, 77, 77 ^ 0b1111_1001]);
    // data bytes sit behind their start bits; check them by decoding
    for (k, &want) in [0x00u8, 0b1111_1001, 77, 77 ^ 0b1111_1001].iter().enumerate() {
        let start = 16 + 9 * k;
        let mut got = 0u8;
        for i in 0..8 {
            got = (got << 1) | (buf[start + i] as u8);
        }
        assert_eq!(got, want);
    }
    // and the payload XORs to zero
    assert_eq!(expected.len(), 32);
    assert_eq!(0x00u8 ^ 0b1111_1001 ^ 77 ^ (77 ^ 0b1111_1001), 0);
}

#[test]
fn serialise_address_query_packet() {
    let pkt = AddressQuery::address(90);
    let mut buf = [false; MAX_BITS];
    let len = pkt.serialise(&mut buf).unwrap();
    assert_eq!(len, 43);
    let expected = bits_of_bytes(&[90, 0b1111_1001, 90 ^ 0b1111_1001]);
    assert_eq!(&buf[16..24], &expected[..8]);
    assert_eq!(&buf[25..33], &expected[8..16]);
    assert_eq!(&buf[34..42], &expected[16..24]);
    assert!(buf[42]);
}

#[test]
fn serialise_fixed_payload_packets() {
    // page preset
    let mut buf = [false; MAX_BITS];
    let len = PagePreset.serialise(&mut buf).unwrap();
    assert_eq!(len, 43);
    let expected = bits_of_bytes(&[0b0111_1101, 0b0000_0001, 0b0111_1100]);
    assert_eq!(&buf[16..24], &expected[..8]);
    assert_eq!(&buf[25..33], &expected[8..16]);
    assert_eq!(&buf[34..42], &expected[16..24]);
    assert_eq!(0b0111_1101u8 ^ 0b0000_0001 ^ 0b0111_1100, 0);

    // factory reset
    let mut buf = [false; MAX_BITS];
    let len = FactoryReset.serialise(&mut buf).unwrap();
    assert_eq!(len, 43);
    let expected = bits_of_bytes(&[0b0111_1111, 0b0000_1000, 0b0111_0111]);
    assert_eq!(&buf[16..24], &expected[..8]);
    assert_eq!(&buf[25..33], &expected[8..16]);
    assert_eq!(&buf[34..42], &expected[16..24]);
    assert_eq!(0b0111_1111u8 ^ 0b0000_1000 ^ 0b0111_0111, 0);
}
