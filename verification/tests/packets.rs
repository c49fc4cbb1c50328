use dcc_rs::packets::{Direction, SpeedAndDirection, MAX_BITS};
use dcc_rs::Error;

/// Expands bytes into bits, most significant bit first, as they appear on
/// the wire.
fn bits_of_bytes(bytes: &[u8]) -> Vec<bool> {
    let mut out = Vec::new();
    for &b in bytes {
        for k in 0..8 {
            out.push((b >> (7 - k)) & 1 == 1);
        }
    }
    out
}

#[test]
fn make_speed_and_direction() -> Result<(), Error> {
    let pkt = SpeedAndDirection::builder()
        .address(35)?
        .speed(14)?
        .direction(Direction::Forward)
        .build();
    assert_eq!(pkt.address, 35);
    let expected = 0b0111_1000;
    assert_eq!(pkt.instruction, expected);
    assert_eq!(pkt.ecc, 0x5b);

    Ok(())
}

#[test]
fn serialise_speed_and_direction() -> Result<(), Error> {
    let pkt = SpeedAndDirection::builder()
        .address(35)?
        .speed(14)?
        .direction(Direction::Forward)
        .build();
    let mut buf = [false; MAX_BITS];
    let len = pkt.serialise(&mut buf)?;
    // instruction is:
    // 01 D S SSSS
    // 01 1 1 1101
    let expected_arr = [
        0xff_u8,      // preamble
        0b1111_1110,  // preamble + start
        35,           // address
        0b0_0111_100, // start + instr[..7]
        0b0_0_010110, // instr[7] + start + ecc[..6]
        0b11_1_00000, // ecc[6..] + stop + 5 zeroes
    ];
    let expected = bits_of_bytes(&expected_arr);
    assert_eq!(len, 43);
    assert_eq!(&buf[..len], &expected[..43]);
    Ok(())
}

#[test]
fn speed_and_direction_address_bounds() {
    assert_eq!(
        SpeedAndDirection::builder().address(0).err(),
        Some(Error::InvalidAddress)
    );
    assert_eq!(
        SpeedAndDirection::builder().address(128).err(),
        Some(Error::InvalidAddress)
    );
    // 1 and 127 are the valid boundaries
    assert!(SpeedAndDirection::builder().address(1).is_ok());
    assert!(SpeedAndDirection::builder().address(127).is_ok());
}

#[test]
fn speed_and_direction_speed_bounds() {
    assert_eq!(
        SpeedAndDirection::builder().speed(29).err(),
        Some(Error::InvalidSpeed)
    );
    assert!(SpeedAndDirection::builder().speed(0).is_ok());
    assert!(SpeedAndDirection::builder().speed(28).is_ok());
}

#[test]
fn speed_and_direction_defaults() {
    // no fields set: address 3, speed 0 (stop), direction forward
    let pkt = SpeedAndDirection::builder().build();
    assert_eq!(pkt.address, 3);
    assert_eq!(pkt.instruction, 0b0110_0000);
    assert_eq!(pkt.ecc, 3 ^ 0b0110_0000);
}

#[test]
fn speed_and_direction_e_stop_overrides_speed() {
    let pkt = SpeedAndDirection::builder()
        .address(10)
        .unwrap()
        .speed(20)
        .unwrap()
        .direction(Direction::Backward)
        .e_stop(true)
        .build();
    assert_eq!(pkt.instruction, 0b0100_0001);
    assert_eq!(pkt.ecc, 10 ^ 0b0100_0001);
}

#[test]
fn speed_and_direction_checksum_is_xor() {
    for address in [1u8, 3, 35, 127] {
        for speed in [0u8, 1, 14, 28] {
            let pkt = SpeedAndDirection::builder()
                .address(address)
                .unwrap()
                .speed(speed)
                .unwrap()
                .direction(Direction::Backward)
                .build();
            // XOR over the whole payload, checksum included, is zero
            assert_eq!(pkt.address ^ pkt.instruction ^ pkt.ecc, 0);
        }
    }
}

#[test]
fn serialised_frame_decodes_back() {
    // build -> serialise -> manual bit-level decode recovers the fields
    let pkt = SpeedAndDirection::builder()
        .address(91)
        .unwrap()
        .speed(7)
        .unwrap()
        .direction(Direction::Backward)
        .build();
    let mut buf = [false; MAX_BITS];
    let len = pkt.serialise(&mut buf).unwrap();
    assert_eq!(len, 43);
    // preamble of ones, then a zero start bit
    for i in 0..15 {
        assert!(buf[i]);
    }
    assert!(!buf[15]);
    // read the three data bytes back out of the bit stream
    let mut bytes = [0u8; 3];
    for k in 0..3 {
        let start = 16 + 9 * k;
        let mut b = 0u8;
        for i in 0..8 {
            b = (b << 1) | (buf[start + i] as u8);
        }
        bytes[k] = b;
        if k < 2 {
            // a zero start bit separates the data bytes
            assert!(!buf[start + 8]);
        }
    }
    // stop bit terminates the frame
    assert!(buf[42]);
    assert_eq!(bytes[0], 91);
    // decode speed: five-bit code, low bit stored in instruction bit 4
    let code = ((bytes[1] & 0x0f) << 1) | ((bytes[1] >> 4) & 1);
    assert_eq!(code, 7 + 3);
    assert_eq!(code - 3, 7);
    // decode direction from instruction bit 5
    assert_eq!((bytes[1] >> 5) & 1, 0);
    assert_eq!(bytes[0] ^ bytes[1] ^ bytes[2], 0);
}

#[test]
fn direction_toggle_and_default() {
    let mut d = Direction::default();
    assert_eq!(d, Direction::Forward);
    d.toggle();
    assert_eq!(d, Direction::Backward);
    d.toggle();
    assert_eq!(d, Direction::Forward);
}

#[test]
fn frame_assembler_rejects_oversized_payload() {
    // five data bytes need 61 bits and do not fit the 52-bit buffer
    let mut buf = [false; MAX_BITS];
    let data = [0u8, 1, 2, 3, 4];
    assert_eq!(
        dcc_rs::packets::serialise(&data, &mut buf),
        Err(Error::TooLong)
    );
    // nothing was written
    assert!(buf.iter().all(|&b| !b));
}

#[test]
fn frame_assembler_layout() {
    let mut buf = [false; MAX_BITS];
    let data = [0xa5u8, 0x5a];
    let n = dcc_rs::packets::serialise(&data, &mut buf).unwrap();
    assert_eq!(n, 34);
    let expected_arr = [
        0xff_u8,       // preamble
        0b1111_111_0,  // preamble + start
        0xa5,          // first byte
        0b0_0101_101,  // start + second byte[..7]
        0b0_1_000000,  // second byte[7] + stop
    ];
    let expected = bits_of_bytes(&expected_arr);
    assert_eq!(&buf[..n], &expected[..34]);
}
