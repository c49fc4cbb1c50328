//! Types and serialisers for the packet kinds defined by the NMRA standard.

pub mod service_mode;

use vstd::prelude::*;

use crate::Error;

verus! {

/// Capacity, in bits, of a [`SerialiseBuffer`]: enough for the largest frame
/// the codec produces (a four-byte service-mode frame of 52 bits).
pub const MAX_BITS: usize = 52;

/// Buffer long enough to serialise any common DCC packet into, one `bool`
/// per bit in transmission order.
pub type SerialiseBuffer = [bool; MAX_BITS];

/// Bit `i` of `b` counting from the most significant bit down, so that
/// `byte_bit(b, 0)` is the bit transmitted first.
pub open spec fn byte_bit(b: u8, i: int) -> bool {
    (b >> ((7 - i) as u8)) & 1 == 1
}

/// The eight bits of `b` in transmission (most-significant-first) order.
pub open spec fn bits_of_byte(b: u8) -> Seq<bool> {
    Seq::new(8, |i: int| byte_bit(b, i))
}

/// The fixed run of one-bits that opens every frame.
pub open spec fn preamble_bits() -> Seq<bool> {
    Seq::new(15, |i: int| true)
}

/// The framed data bytes: each byte is preceded by a `0` start bit and laid
/// out most-significant-bit first.
pub open spec fn body_bits(data: Seq<u8>) -> Seq<bool>
    decreases data.len(),
{
    if data.len() == 0 {
        Seq::empty()
    } else {
        body_bits(data.drop_last()) + seq![false] + bits_of_byte(data.last())
    }
}

/// The complete wire image of a frame around `data`: preamble, the framed
/// bytes, and a final `1` stop bit.
pub open spec fn frame_bits(data: Seq<u8>) -> Seq<bool> {
    preamble_bits() + body_bits(data) + seq![true]
}

pub proof fn lemma_body_bits_len(data: Seq<u8>)
    ensures
        body_bits(data).len() == 9 * data.len(),
    decreases data.len(),
{
    if data.len() != 0 {
        lemma_body_bits_len(data.drop_last());
    }
}

/// Bitwise exclusive-or of all bytes of `data`, the error-detecting code a
/// frame carries as its final byte.
pub open spec fn xor_seq(data: Seq<u8>) -> u8
    decreases data.len(),
{
    if data.len() == 0 {
        0
    } else {
        xor_seq(data.drop_last()) ^ data.last()
    }
}

/// Law: a byte sequence extended by its own XOR checksum XORs to zero, so
/// every serialised frame's payload, checksum byte included, XORs to zero.
pub proof fn lemma_checksum_xors_to_zero(data: Seq<u8>)
    ensures
        xor_seq(data.push(xor_seq(data))) == 0,
{
    let x = xor_seq(data);
    assert(data.push(x).drop_last() =~= data);
    assert(data.push(x).last() == x);
    assert(x ^ x == 0) by (bit_vector);
}

/// Law: a three-byte frame payload whose last byte is the XOR of the first
/// two XORs to zero.
pub proof fn lemma_three_byte_checksum(a: u8, b: u8)
    ensures
        xor_seq(seq![a, b, a ^ b]) == 0,
{
    let s3 = seq![a, b, a ^ b];
    let s2 = seq![a, b];
    let s1 = seq![a];
    assert(s3.drop_last() =~= s2);
    assert(s2.drop_last() =~= s1);
    assert(s1.drop_last() =~= Seq::<u8>::empty());
    assert(xor_seq(Seq::<u8>::empty()) == 0);
    assert(s1.last() == a);
    assert(xor_seq(s1) == 0 ^ a);
    assert(s2.last() == b);
    assert(xor_seq(s2) == (0 ^ a) ^ b);
    assert(s3.last() == a ^ b);
    assert(xor_seq(s3) == ((0 ^ a) ^ b) ^ (a ^ b));
    assert(((0 ^ a) ^ b) ^ (a ^ b) == 0) by (bit_vector);
}

/// Law: a four-byte frame payload whose last byte is the XOR of the first
/// three XORs to zero.
pub proof fn lemma_four_byte_checksum(a: u8, b: u8, c: u8)
    ensures
        xor_seq(seq![a, b, c, (a ^ b) ^ c]) == 0,
{
    let s4 = seq![a, b, c, (a ^ b) ^ c];
    let s3 = seq![a, b, c];
    let s2 = seq![a, b];
    let s1 = seq![a];
    assert(s4.drop_last() =~= s3);
    assert(s3.drop_last() =~= s2);
    assert(s2.drop_last() =~= s1);
    assert(s1.drop_last() =~= Seq::<u8>::empty());
    assert(xor_seq(Seq::<u8>::empty()) == 0);
    assert(s1.last() == a);
    assert(xor_seq(s1) == 0 ^ a);
    assert(s2.last() == b);
    assert(xor_seq(s2) == (0 ^ a) ^ b);
    assert(s3.last() == c);
    assert(xor_seq(s3) == ((0 ^ a) ^ b) ^ c);
    assert(s4.last() == (a ^ b) ^ c);
    assert(xor_seq(s4) == (((0 ^ a) ^ b) ^ c) ^ ((a ^ b) ^ c));
    assert((((0 ^ a) ^ b) ^ c) ^ ((a ^ b) ^ c) == 0) by (bit_vector);
}

/// The byte encoded by eight bits in transmission (most-significant-first)
/// order: the manual decode of one framed byte.
pub open spec fn byte_of_bits(s: Seq<bool>) -> u8
    recommends
        s.len() == 8,
{
    ((if s[0] {
        128int
    } else {
        0int
    }) + (if s[1] {
        64int
    } else {
        0int
    }) + (if s[2] {
        32int
    } else {
        0int
    }) + (if s[3] {
        16int
    } else {
        0int
    }) + (if s[4] {
        8int
    } else {
        0int
    }) + (if s[5] {
        4int
    } else {
        0int
    }) + (if s[6] {
        2int
    } else {
        0int
    }) + (if s[7] {
        1int
    } else {
        0int
    })) as u8
}

/// The byte framed at index `k` of a serialised frame: eight bits read just
/// behind the `k`-th start bit.
pub open spec fn byte_at(frame: Seq<bool>, k: int) -> u8 {
    byte_of_bits(frame.subrange(16 + 9 * k, 24 + 9 * k))
}

/// Decoding the eight transmitted bits of a byte gives that byte back.
pub proof fn lemma_byte_of_bits_inverse(b: u8)
    ensures
        byte_of_bits(bits_of_byte(b)) == b,
{
    let s = bits_of_byte(b);
    assert(s[0] == ((b >> 7) & 1 == 1));
    assert(s[1] == ((b >> 6) & 1 == 1));
    assert(s[2] == ((b >> 5) & 1 == 1));
    assert(s[3] == ((b >> 4) & 1 == 1));
    assert(s[4] == ((b >> 3) & 1 == 1));
    assert(s[5] == ((b >> 2) & 1 == 1));
    assert(s[6] == ((b >> 1) & 1 == 1));
    assert(s[7] == ((b >> 0) & 1 == 1));
    assert((if (b >> 7) & 1 == 1 {
        128int
    } else {
        0int
    }) + (if (b >> 6) & 1 == 1 {
        64int
    } else {
        0int
    }) + (if (b >> 5) & 1 == 1 {
        32int
    } else {
        0int
    }) + (if (b >> 4) & 1 == 1 {
        16int
    } else {
        0int
    }) + (if (b >> 3) & 1 == 1 {
        8int
    } else {
        0int
    }) + (if (b >> 2) & 1 == 1 {
        4int
    } else {
        0int
    }) + (if (b >> 1) & 1 == 1 {
        2int
    } else {
        0int
    }) + (if (b >> 0) & 1 == 1 {
        1int
    } else {
        0int
    }) == b) by (bit_vector);
}

proof fn lemma_body_bits_decompose(data: Seq<u8>, k: int)
    requires
        0 <= k < data.len(),
    ensures
        body_bits(data)[9 * k] == false,
        body_bits(data).subrange(9 * k + 1, 9 * k + 9) == bits_of_byte(data[k]),
    decreases data.len(),
{
    lemma_body_bits_len(data);
    lemma_body_bits_len(data.drop_last());
    if k == data.len() - 1 {
        assert(body_bits(data).subrange(9 * k + 1, 9 * k + 9) =~= bits_of_byte(data.last()));
    } else {
        lemma_body_bits_decompose(data.drop_last(), k);
        assert(body_bits(data).subrange(9 * k + 1, 9 * k + 9) =~= body_bits(
            data.drop_last(),
        ).subrange(9 * k + 1, 9 * k + 9));
    }
}

/// Every framed byte of a serialised frame decodes back to the data byte it
/// came from, and the framing bits around the data are as the wire format
/// demands: preamble ones, a `0` start bit before each byte, a final `1`.
pub proof fn lemma_frame_bits_decode(data: Seq<u8>, k: int)
    requires
        0 <= k < data.len(),
    ensures
        frame_bits(data)[15 + 9 * k] == false,
        byte_at(frame_bits(data), k) == data[k],
        forall|i: int| 0 <= i < 15 ==> frame_bits(data)[i] == true,
        frame_bits(data).last() == true,
{
    lemma_body_bits_len(data);
    lemma_body_bits_decompose(data, k);
    assert(frame_bits(data).subrange(16 + 9 * k, 24 + 9 * k) =~= body_bits(data).subrange(
        9 * k + 1,
        9 * k + 9,
    ));
    lemma_byte_of_bits_inverse(data[k]);
}

/// Lay a DCC frame out in `buf`: a 15-bit preamble of ones, then each byte of
/// `data` behind a `0` start bit, then a single `1` stop bit. The last byte of
/// `data` is expected to be the checksum computed by the caller. Returns the
/// number of bits written, or `Error::TooLong`, leaving `buf` untouched, if
/// the frame would not fit.
pub fn serialise(data: &[u8], buf: &mut SerialiseBuffer) -> (r: Result<usize, Error>)
    ensures
        match r {
            Ok(n) => {
                &&& 16 + 9 * data@.len() <= MAX_BITS
                &&& n == 16 + 9 * data@.len()
                &&& final(buf)@.subrange(0, n as int) == frame_bits(data@)
                &&& final(buf)@.subrange(n as int, MAX_BITS as int) == old(buf)@.subrange(
                    n as int,
                    MAX_BITS as int,
                )
            },
            Err(e) => {
                &&& e == Error::TooLong
                &&& 16 + 9 * data@.len() > MAX_BITS
                &&& final(buf)@ == old(buf)@
            },
        },
{
    let len = data.len();
    if len > (MAX_BITS - 16) / 9 {
        return Err(Error::TooLong);
    }
    let mut i: usize = 0;
    while i < 15
        invariant
            i <= 15,
            buf@.len() == MAX_BITS,
            forall|t: int| 0 <= t < i ==> buf@[t] == true,
            forall|t: int| i <= t < MAX_BITS ==> buf@[t] == old(buf)@[t],
        decreases 15 - i,
    {
        buf[i] = true;
        i += 1;
    }
    let mut pos: usize = 15;
    let mut k: usize = 0;
    while k < len
        invariant
            k <= len,
            len <= 4,
            data@.len() == len,
            pos == 15 + 9 * k,
            buf@.len() == MAX_BITS,
            forall|t: int| 0 <= t < 15 ==> buf@[t] == true,
            buf@.subrange(15, pos as int) == body_bits(data@.take(k as int)),
            forall|t: int| pos <= t < MAX_BITS ==> buf@[t] == old(buf)@[t],
        decreases len - k,
    {
        proof {
            lemma_body_bits_len(data@.take(k as int));
        }
        let ghost buf_at_entry = buf@;
        buf[pos] = false;
        proof {
            assert(buf@.subrange(15, pos as int) =~= buf_at_entry.subrange(15, pos as int));
        }
        let b = data[k];
        let mut j: usize = 0;
        while j < 8
            invariant
                j <= 8,
                pos == 15 + 9 * k,
                k < len,
                len <= 4,
                data@.len() == len,
                b == data@[k as int],
                buf@.len() == MAX_BITS,
                forall|t: int| 0 <= t < 15 ==> buf@[t] == true,
                buf@.subrange(15, pos as int) == body_bits(data@.take(k as int)),
                buf@[pos as int] == false,
                forall|t: int| 0 <= t < j ==> buf@[pos + 1 + t] == byte_bit(b, t),
                forall|t: int| pos + 1 + j <= t < MAX_BITS ==> buf@[t] == old(buf)@[t],
            decreases 8 - j,
        {
            let sh: u8 = (7 - j) as u8;
            let bit = ((b >> sh) & 1) == 1;
            proof {
                assert(bit == byte_bit(b, j as int));
            }
            let ghost prev = buf@;
            buf[pos + 1 + j] = bit;
            proof {
                assert(buf@.subrange(15, pos as int) =~= prev.subrange(15, pos as int));
            }
            j += 1;
        }
        proof {
            assert(data@.take(k + 1).drop_last() =~= data@.take(k as int));
            assert(data@.take(k + 1).last() == data@[k as int]);
            assert(buf@.subrange(pos as int, pos + 1) =~= seq![false]);
            assert(buf@.subrange(pos + 1, pos + 9) =~= bits_of_byte(b));
            assert(buf@.subrange(15, pos + 9) =~= body_bits(data@.take(k as int)) + seq![false]
                + bits_of_byte(b));
            assert(body_bits(data@.take(k + 1)) == body_bits(data@.take(k as int)) + seq![false]
                + bits_of_byte(b));
        }
        pos += 9;
        k += 1;
    }
    proof {
        assert(data@.take(len as int) =~= data@);
        lemma_body_bits_len(data@);
    }
    let ghost before_stop = buf@;
    buf[pos] = true;
    proof {
        assert(buf@.subrange(0, 15) =~= preamble_bits());
        assert(buf@.subrange(15, pos as int) =~= before_stop.subrange(15, pos as int));
        assert(buf@.subrange(pos as int, pos + 1) =~= seq![true]);
        assert(buf@.subrange(0, pos + 1) =~= buf@.subrange(0, 15) + buf@.subrange(
            15,
            pos as int,
        ) + buf@.subrange(pos as int, pos + 1));
        assert(buf@.subrange(pos + 1, MAX_BITS as int) =~= old(buf)@.subrange(
            pos + 1,
            MAX_BITS as int,
        ));
    }
    Ok(pos + 1)
}

/// Possible directions, usually referenced to the "forward" direction of a
/// loco.
#[derive(Debug, Copy, Clone, PartialEq, Eq, Structural)]
pub enum Direction {
    /// Forward
    Forward,
    /// Backward
    Backward,
}

impl Default for Direction {
    fn default() -> (r: Self)
        ensures
            r == Direction::Forward,
    {
        Direction::Forward
    }
}

impl Direction {
    /// The opposite direction.
    pub open spec fn spec_opposite(self) -> Direction {
        match self {
            Direction::Forward => Direction::Backward,
            Direction::Backward => Direction::Forward,
        }
    }

    /// Switches a direction to the opposite one.
    pub fn toggle(&mut self)
        ensures
            *final(self) == old(self).spec_opposite(),
    {
        *self = match *self {
            Direction::Forward => Direction::Backward,
            Direction::Backward => Direction::Forward,
        };
    }
}

/// The address a speed-and-direction packet is built for when none was set.
pub open spec fn effective_address(address: Option<u8>) -> u8 {
    match address {
        Option::None => 3,
        Option::Some(a) => a,
    }
}

/// The direction a speed-and-direction packet is built for when none was set.
pub open spec fn effective_direction(direction: Option<Direction>) -> Direction {
    match direction {
        Option::None => Direction::Forward,
        Option::Some(d) => d,
    }
}

/// The five-bit speed code carried on the wire: 0 is stop, and speeds 1-28
/// are biased by 3 to step over the reserved stop and emergency-stop codes.
pub open spec fn speed_code(speed: Option<u8>) -> u8
    recommends
        speed matches Option::Some(s) ==> s <= 28,
{
    match speed {
        Option::None => 0,
        Option::Some(s) => if s == 0 {
            0
        } else {
            (s + 3) as u8
        },
    }
}

/// The instruction byte of a speed-and-direction packet: `01` marks the
/// packet kind, one bit carries the direction, and the five remaining bits
/// carry the speed code with its least significant bit stored highest, or the
/// emergency-stop code.
pub open spec fn instruction_byte(speed: Option<u8>, e_stop: bool, direction: Direction) -> u8 {
    let base: u8 = if direction == Direction::Forward {
        0x60
    } else {
        0x40
    };
    if e_stop {
        base | 0x01
    } else {
        (base | ((speed_code(speed) >> 1) & 0x0f)) | ((speed_code(speed) & 1) << 4)
    }
}

/// The speed encoded in an instruction byte: the manual decode used to check
/// a round trip. Codes 0-3 are stop or emergency stop and decode to speed 0.
pub open spec fn decoded_speed(instr: u8) -> u8 {
    let code = (((instr & 0x0f) << 1) | ((instr >> 4) & 1)) as u8;
    if code < 4 {
        0
    } else {
        (code - 3) as u8
    }
}

/// The direction encoded in an instruction byte.
pub open spec fn decoded_direction(instr: u8) -> Direction {
    if (instr >> 5) & 1 == 1 {
        Direction::Forward
    } else {
        Direction::Backward
    }
}

/// Whether an instruction byte carries the emergency-stop code.
pub open spec fn decoded_e_stop(instr: u8) -> bool {
    instr & 0x0f == 1
}

/// Speed and Direction packet. Used to command a loco to move in the given
/// direction at the given speed.
pub struct SpeedAndDirection {
    /// The 7-bit decoder address the command is for.
    pub address: u8,
    /// The instruction byte: packet kind, direction and speed code.
    pub instruction: u8,
    /// The XOR checksum of the address and instruction bytes.
    pub ecc: u8,
}

impl SpeedAndDirection {
    /// A packet is well formed when its checksum byte is the XOR of its
    /// address and instruction bytes.
    pub open spec fn wf(self) -> bool {
        self.ecc == self.address ^ self.instruction
    }

    /// The three data bytes of the packet in wire order.
    pub open spec fn payload(self) -> Seq<u8> {
        seq![self.address, self.instruction, self.ecc]
    }

    /// Builder interface for `SpeedAndDirection`. Use of the builder ensures
    /// that only valid packets are produced.
    pub fn builder() -> (r: SpeedAndDirectionBuilder)
        ensures
            r@ == (SpeedAndDirectionBuilderState {
                address: Option::None,
                speed: Option::None,
                e_stop: false,
                direction: Option::None,
            }),
            r.wf(),
    {
        SpeedAndDirectionBuilder {
            address: None,
            speed: None,
            e_stop: false,
            direction: None,
        }
    }

    /// Serialise the packet into the provided buffer. Always succeeds: a
    /// three-byte frame of 43 bits fits every [`SerialiseBuffer`].
    pub fn serialise(&self, buf: &mut SerialiseBuffer) -> (r: Result<usize, Error>)
        ensures
            r == Ok::<usize, Error>(43usize),
            final(buf)@.subrange(0, 43) == frame_bits(self.payload()),
            final(buf)@.subrange(43, MAX_BITS as int) == old(buf)@.subrange(43, MAX_BITS as int),
    {
        let data: [u8; 3] = [self.address, self.instruction, self.ecc];
        proof {
            assert(data@ =~= self.payload());
        }
        serialise(data.as_slice(), buf)
    }
}

/// What a [`SpeedAndDirectionBuilder`] has accumulated so far.
pub struct SpeedAndDirectionBuilderState {
    /// The address set so far, if any.
    pub address: Option<u8>,
    /// The speed set so far, if any.
    pub speed: Option<u8>,
    /// Whether the packet will carry the emergency-stop code.
    pub e_stop: bool,
    /// The direction set so far, if any.
    pub direction: Option<Direction>,
}

/// Builder used to construct a `SpeedAndDirection` packet. Each setter
/// validates its input as soon as it is supplied.
pub struct SpeedAndDirectionBuilder {
    address: Option<u8>,
    speed: Option<u8>,
    e_stop: bool,
    direction: Option<Direction>,
}

impl View for SpeedAndDirectionBuilder {
    type V = SpeedAndDirectionBuilderState;

    closed spec fn view(&self) -> SpeedAndDirectionBuilderState {
        SpeedAndDirectionBuilderState {
            address: self.address,
            speed: self.speed,
            e_stop: self.e_stop,
            direction: self.direction,
        }
    }
}

impl SpeedAndDirectionBuilder {
    /// A builder is well formed when every field it has accepted passed its
    /// validation: an address in 1-127 and a speed no greater than 28.
    pub open spec fn wf(self) -> bool {
        &&& self@.address matches Option::Some(a) ==> 1 <= a <= 127
        &&& self@.speed matches Option::Some(s) ==> s <= 28
    }

    /// Sets the address. In short mode the address has to be between 1 and
    /// 127. Returns `Error::InvalidAddress` if the provided address is
    /// outside this range.
    pub fn address(self, address: u8) -> (r: Result<SpeedAndDirectionBuilder, Error>)
        requires
            self.wf(),
        ensures
            match r {
                Ok(b) => {
                    &&& 1 <= address <= 127
                    &&& b@ == (SpeedAndDirectionBuilderState { address: Option::Some(address), ..self@ })
                    &&& b.wf()
                },
                Err(e) => {
                    &&& e == Error::InvalidAddress
                    &&& (address == 0 || address > 127)
                },
            },
    {
        if address == 0 || address > 0x7f {
            Err(Error::InvalidAddress)
        } else {
            Ok(SpeedAndDirectionBuilder { address: Some(address), ..self })
        }
    }

    /// Sets the speed. The 28-step speed has to be between 0 and 28. Returns
    /// `Error::InvalidSpeed` if the provided speed is outside this range.
    pub fn speed(self, speed: u8) -> (r: Result<SpeedAndDirectionBuilder, Error>)
        requires
            self.wf(),
        ensures
            match r {
                Ok(b) => {
                    &&& speed <= 28
                    &&& b@ == (SpeedAndDirectionBuilderState { speed: Option::Some(speed), ..self@ })
                    &&& b.wf()
                },
                Err(e) => {
                    &&& e == Error::InvalidSpeed
                    &&& speed > 28
                },
            },
    {
        if speed > 28 {
            Err(Error::InvalidSpeed)
        } else {
            Ok(SpeedAndDirectionBuilder { speed: Some(speed), ..self })
        }
    }

    /// Sets the direction.
    pub fn direction(self, direction: Direction) -> (r: SpeedAndDirectionBuilder)
        requires
            self.wf(),
        ensures
            r@ == (SpeedAndDirectionBuilderState { direction: Option::Some(direction), ..self@ }),
            r.wf(),
    {
        SpeedAndDirectionBuilder { direction: Some(direction), ..self }
    }

    /// Sends the e-stop signal. Overrides any other set speed value.
    pub fn e_stop(self, e_stop: bool) -> (r: SpeedAndDirectionBuilder)
        requires
            self.wf(),
        ensures
            r@ == (SpeedAndDirectionBuilderState { e_stop: e_stop, ..self@ }),
            r.wf(),
    {
        SpeedAndDirectionBuilder { e_stop, ..self }
    }

    /// Build a `SpeedAndDirection` packet using the provided values, falling
    /// back to sensible defaults if not all fields have been provided:
    /// address 3, speed 0 (stop) and direction forward.
    pub fn build(self) -> (r: SpeedAndDirection)
        requires
            self.wf(),
        ensures
            r.address == effective_address(self@.address),
            r.instruction == instruction_byte(
                self@.speed,
                self@.e_stop,
                effective_direction(self@.direction),
            ),
            r.ecc == r.address ^ r.instruction,
            r.wf(),
    {
        let address = match self.address {
            Some(a) => a,
            None => 3,
        };
        let speed: u8 = match self.speed {
            Some(0) | None => 0,
            Some(s) => s + 3,
        };
        let mut instruction: u8 = 0b0100_0000;
        let forward = match self.direction {
            Some(Direction::Backward) => false,
            _ => true,
        };
        if forward {
            instruction |= 0b0010_0000;
        }
        if self.e_stop {
            instruction |= 0x01;
        } else {
            instruction |= (speed >> 1) & 0x0f;
            instruction |= (speed & 0x01) << 4;
        }
        proof {
            assert(0b0100_0000u8 | 0b0010_0000u8 == 0x60u8) by (bit_vector);
        }
        let ecc = address ^ instruction;
        SpeedAndDirection { address, instruction, ecc }
    }
}

/// Law: for every valid address, speed and direction, building a packet,
/// serialising it and manually decoding the frame bits recovers the address,
/// the speed and the direction unchanged, and the packet does not carry the
/// emergency-stop code.
pub proof fn lemma_speed_and_direction_round_trip(address: u8, speed: u8, direction: Direction)
    requires
        1 <= address <= 127,
        speed <= 28,
    ensures
        ({
            let instr = instruction_byte(Option::Some(speed), false, direction);
            let frame = frame_bits(seq![address, instr, address ^ instr]);
            &&& byte_at(frame, 0) == address
            &&& decoded_speed(byte_at(frame, 1)) == speed
            &&& decoded_direction(byte_at(frame, 1)) == direction
            &&& !decoded_e_stop(byte_at(frame, 1))
        }),
{
    let instr = instruction_byte(Option::Some(speed), false, direction);
    let payload = seq![address, instr, address ^ instr];
    lemma_frame_bits_decode(payload, 0);
    lemma_frame_bits_decode(payload, 1);
    let code = speed_code(Option::Some(speed));
    assert(code == if speed == 0 { 0u8 } else { (speed + 3) as u8 });
    assert(code <= 31);
    let base: u8 = if direction == Direction::Forward { 0x60 } else { 0x40 };
    assert(instr == (base | ((code >> 1) & 0x0f)) | ((code & 1) << 4));
    assert(((((instr & 0x0f) << 1) | ((instr >> 4) & 1)) as u8) == code) by (bit_vector)
        requires
            code <= 31,
            base == 0x60 || base == 0x40,
            instr == (base | ((code >> 1) & 0x0f)) | ((code & 1) << 4),
    ;
    assert((instr >> 5) & 1 == (if base == 0x60 { 1u8 } else { 0u8 })) by (bit_vector)
        requires
            base == 0x60 || base == 0x40,
            instr == (base | ((code >> 1) & 0x0f)) | ((code & 1) << 4),
    ;
    assert(code != 1 && code != 2 && code != 3 ==> instr & 0x0f != 1) by (bit_vector)
        requires
            code <= 31,
            base == 0x60 || base == 0x40,
            instr == (base | ((code >> 1) & 0x0f)) | ((code & 1) << 4),
    ;
}

/// Law: every well-formed speed-and-direction packet's payload, checksum
/// byte included, XORs to zero.
pub proof fn lemma_speed_and_direction_checksum(pkt: SpeedAndDirection)
    requires
        pkt.wf(),
    ensures
        xor_seq(pkt.payload()) == 0,
{
    let a = pkt.address;
    let ins = pkt.instruction;
    lemma_three_byte_checksum(a, ins);
    assert(pkt.payload() =~= seq![a, ins, a ^ ins]);
}

} // verus!
