use dcc_rs::packets::{Direction, SpeedAndDirection, MAX_BITS};
use dcc_rs::{DccInterruptHandler, Error, OutputPin, BUFFER_SIZE};

#[derive(Default)]
struct MockPin {
    state: bool,
}

impl MockPin {
    fn is_set_high(&self) -> bool {
        self.state
    }

    fn is_set_low(&self) -> bool {
        !self.state
    }
}

impl OutputPin for MockPin {
    type Error = core::convert::Infallible;

    fn set_high(&mut self) -> Result<(), Self::Error> {
        self.state = true;
        Ok(())
    }

    fn set_low(&mut self) -> Result<(), Self::Error> {
        self.state = false;
        Ok(())
    }
}

/// Expands bytes into bits, most significant bit first, as they appear on
/// the wire.
fn bits_of_bytes(bytes: &[u8]) -> Vec<bool> {
    let mut out = Vec::new();
    for &b in bytes {
        for k in 0..8 {
            out.push((b >> (7 - k)) & 1 == 1);
        }
    }
    out
}

#[test]
fn mock_pin_works() {
    let mut pin = MockPin::default();
    assert!(pin.is_set_low());
    pin.set_high().unwrap();
    assert!(pin.is_set_high());
    pin.set_low().unwrap();
    assert!(pin.is_set_low());
}

#[test]
fn send_a_packet() {
    const ONE: u32 = 100;
    const ZERO: u32 = 58;
    let pin = MockPin::default();
    let mut dcc = DccInterruptHandler::new(pin, ZERO, ONE);
    let buffer = bits_of_bytes(&[0x00, 0xff]);
    dcc.write(&buffer).unwrap();

    // first two ticks are idle
    for _ in 0..2 {
        let new_delay = dcc.tick().unwrap();
        assert_eq!(new_delay, 500);
    }

    // run 32 ticks to make sure that the clock settings are correct
    // (2 ticks per bit)
    for _ in 0..16 {
        let new_delay = dcc.tick().unwrap();
        assert_eq!(new_delay, ZERO);
    }

    for _ in 0..16 {
        let new_delay = dcc.tick().unwrap();
        assert_eq!(new_delay, ONE);
    }

    // after packet is finished we just have idle zeroes
    for _ in 0..8 {
        let new_delay = dcc.tick().unwrap();
        assert_eq!(new_delay, 500);
    }
}

#[test]
fn delays_follow_the_configured_durations() {
    // one-bit half-period 58, zero-bit half-period 100
    let mut dcc = DccInterruptHandler::new(MockPin::default(), 100, 58);
    let buffer = bits_of_bytes(&[0x00, 0xff]);
    dcc.write(&buffer).unwrap();

    // two idle ticks drain the staging buffer
    for _ in 0..2 {
        assert_eq!(dcc.tick().unwrap(), 500);
    }
    // sixteen half-bits of the zero byte, two ticks per bit
    for _ in 0..16 {
        assert_eq!(dcc.tick().unwrap(), 100);
    }
    // sixteen half-bits of the one byte
    for _ in 0..16 {
        assert_eq!(dcc.tick().unwrap(), 58);
    }
}

#[test]
fn pin_toggles_once_per_tick() {
    let mut dcc = DccInterruptHandler::new(MockPin::default(), 100, 58);
    let buffer = [true, false, true];
    dcc.write(&buffer).unwrap();
    // idle: low then high; each data bit: low then high
    let expected_delays = [500, 500, 58, 58, 100, 100, 58, 58];
    for (i, &d) in expected_delays.iter().enumerate() {
        let delay = dcc.tick().unwrap();
        assert_eq!(delay, d, "tick {i}");
    }
}

#[test]
fn oversized_write_is_rejected_and_preserves_state() {
    let mut dcc = DccInterruptHandler::new(MockPin::default(), 100, 58);
    dcc.write(&[true, true, false]).unwrap();
    // a bit sequence longer than the buffer capacity is refused
    let too_long = vec![false; BUFFER_SIZE + 1];
    assert_eq!(dcc.write(&too_long), Err(Error::TooLong));
    // the previously staged packet is untouched and still transmits
    let expected_delays = [500, 500, 58, 58, 58, 58, 100, 100, 500, 500];
    for (i, &d) in expected_delays.iter().enumerate() {
        let delay = dcc.tick().unwrap();
        assert_eq!(delay, d, "tick {i}");
    }
}

#[test]
fn exact_capacity_write_is_accepted() {
    let mut dcc = DccInterruptHandler::new(MockPin::default(), 100, 58);
    let full = vec![true; BUFFER_SIZE];
    assert_eq!(dcc.write(&full), Ok(()));
}

#[test]
fn staging_twice_transmits_once() {
    let mut dcc = DccInterruptHandler::new(MockPin::default(), 100, 58);
    let bits = [true, true];
    // staging the same bits twice before any tick drains them:
    // last writer wins, nothing queues
    dcc.write(&bits).unwrap();
    dcc.write(&bits).unwrap();
    // one idle boundary, one transmission, then idle filler only
    let expected_delays = [500, 500, 58, 58, 58, 58, 500, 500, 500, 500, 500, 500];
    for (i, &d) in expected_delays.iter().enumerate() {
        let delay = dcc.tick().unwrap();
        assert_eq!(delay, d, "tick {i}");
    }
}

#[test]
fn restaging_replaces_pending_packet() {
    let mut dcc = DccInterruptHandler::new(MockPin::default(), 100, 58);
    dcc.write(&[true, true, true]).unwrap();
    // a second write before the drain replaces the pending packet
    dcc.write(&[false, false]).unwrap();
    let expected_delays = [500, 500, 100, 100, 100, 100, 500, 500];
    for (i, &d) in expected_delays.iter().enumerate() {
        let delay = dcc.tick().unwrap();
        assert_eq!(delay, d, "tick {i}");
    }
}

#[test]
fn idle_engine_emits_filler_forever() {
    let mut dcc = DccInterruptHandler::new(MockPin::default(), 100, 58);
    for _ in 0..50 {
        assert_eq!(dcc.tick().unwrap(), 500);
    }
}

#[test]
fn serialised_packet_can_be_staged_and_sent() {
    let pkt = SpeedAndDirection::builder()
        .address(35)
        .unwrap()
        .speed(14)
        .unwrap()
        .direction(Direction::Forward)
        .build();
    let mut buf = [false; MAX_BITS];
    let len = pkt.serialise(&mut buf).unwrap();
    let mut dcc = DccInterruptHandler::new(MockPin::default(), 100, 58);
    dcc.write(&buf[..len]).unwrap();

    // drain the idle boundary
    assert_eq!(dcc.tick().unwrap(), 500);
    assert_eq!(dcc.tick().unwrap(), 500);
    // the frame replays bit by bit: each bit's duration appears twice
    for (i, &bit) in buf[..len].iter().enumerate() {
        let want = if bit { 58 } else { 100 };
        assert_eq!(dcc.tick().unwrap(), want, "first half of bit {i}");
        assert_eq!(dcc.tick().unwrap(), want, "second half of bit {i}");
    }
    // then the line goes back to idle filler
    assert_eq!(dcc.tick().unwrap(), 500);
}
