//! Generator for the NMRA Digital Command Control (DCC) track signal.
//!
//! The crate has two halves:
//!
//! * [`packets`] — a bit-exact codec that assembles DCC frames (preamble,
//!   per-byte start bits, checksum byte, stop bit) from validated packet
//!   values, and
//! * [`DccInterruptHandler`] — an interrupt-driven transmission engine that
//!   clocks a staged frame out of a double-buffered bit store, one polarity
//!   edge per tick.

use vstd::prelude::*;

pub mod packets;

verus! {

/// Error values returned by the codec builders and the transmission engine.
#[derive(Copy, Clone, Debug, PartialEq, Eq, Structural)]
pub enum Error {
    /// Data packet was too long for the destination buffer
    TooLong,
    /// Not a valid address for the selected packet kind
    InvalidAddress,
    /// Not a valid 28-step speed value
    InvalidSpeed,
    /// Not a valid bit position within a configuration-variable byte
    InvalidOffset,
    /// A field required by the selected operation was never supplied
    MissingField,
}

/// Capacity, in bits, of each of the engine's two buffers.
pub const BUFFER_SIZE: usize = 24 * 8;

/// The half-bit period, in microseconds, emitted while the engine is idle: a
/// long stretched filler bit that pads the line between packets.
pub const IDLE_FILLER_MICROS: u32 = 500;

/// A single digital output with fallible set-high and set-low operations:
/// the only hardware the transmission engine depends on. The host implements
/// it for the GPIO line that drives the track polarity.
pub trait OutputPin {
    /// Error type returned by a failed pin operation.
    type Error;

    /// Drives the pin low.
    fn set_low(&mut self) -> Result<(), Self::Error>;

    /// Drives the pin high.
    fn set_high(&mut self) -> Result<(), Self::Error>;
}

/// Transmission state of the engine: either emitting idle filler or clocking
/// out the active buffer bit by bit. `second_half_of_bit` tracks which of
/// the two equal-duration polarity segments of the current bit is being
/// emitted.
#[derive(Copy, Clone, Debug, PartialEq, Eq, Structural)]
pub enum TxState {
    /// Nothing to transmit; the line carries filler bits.
    Idle {
        /// Whether the first half of the filler bit has been emitted.
        second_half_of_bit: bool,
    },
    /// The active buffer is being clocked out.
    Transmitting {
        /// Index of the current bit within the active buffer.
        offset: usize,
        /// Whether the first half of the current bit has been emitted.
        second_half_of_bit: bool,
    },
}

/// The abstract state of a [`DccInterruptHandler`]: the staged and active
/// bit sequences, the transmission state, and the configured half-bit
/// durations.
#[verifier::ext_equal]
pub struct EngineView {
    /// Bits staged for transmission, waiting for the next idle boundary.
    pub staged: Seq<bool>,
    /// Bits currently being clocked out.
    pub active: Seq<bool>,
    /// Where in the transmission the engine stands.
    pub state: TxState,
    /// Half-bit period of a zero bit, in microseconds.
    pub zero_bit_duration: u32,
    /// Half-bit period of a one bit, in microseconds.
    pub one_bit_duration: u32,
}

impl EngineView {
    /// Both buffers fit the fixed capacity, and while transmitting the
    /// current offset lies inside the active buffer.
    pub open spec fn wf(self) -> bool {
        &&& self.staged.len() <= BUFFER_SIZE
        &&& self.active.len() <= BUFFER_SIZE
        &&& self.state matches TxState::Transmitting { offset, .. } ==> offset
            < self.active.len()
    }

    /// The half-bit period the engine emits for the given bit value.
    pub open spec fn half_bit_duration(self, bit: bool) -> u32 {
        if bit {
            self.one_bit_duration
        } else {
            self.zero_bit_duration
        }
    }

    /// The same engine with `bits` staged in place of whatever was staged
    /// before: what one `write` call does.
    pub open spec fn with_staged(self, bits: Seq<bool>) -> EngineView {
        EngineView { staged: bits, ..self }
    }

    /// One tick of the transmission state machine: the engine after the
    /// tick, and the number of microseconds until the next tick is due.
    ///
    /// From idle the engine emits a filler half-bit; at the end of a filler
    /// bit it drains a staged packet, if any, into the active buffer. While
    /// transmitting it emits the two halves of the bit at `offset`, and
    /// returns to idle once the last bit is complete.
    pub open spec fn step(self) -> (EngineView, u32) {
        match self.state {
            TxState::Idle { second_half_of_bit } => {
                if second_half_of_bit && self.staged.len() != 0 {
                    (
                        EngineView {
                            staged: Seq::empty(),
                            active: self.staged,
                            state: TxState::Transmitting { offset: 0, second_half_of_bit: false },
                            ..self
                        },
                        IDLE_FILLER_MICROS,
                    )
                } else {
                    (
                        EngineView {
                            state: TxState::Idle { second_half_of_bit: !second_half_of_bit },
                            ..self
                        },
                        IDLE_FILLER_MICROS,
                    )
                }
            },
            TxState::Transmitting { offset, second_half_of_bit } => {
                let d = self.half_bit_duration(self.active[offset as int]);
                if !second_half_of_bit {
                    (
                        EngineView {
                            state: TxState::Transmitting { offset, second_half_of_bit: true },
                            ..self
                        },
                        d,
                    )
                } else if offset + 1 < self.active.len() {
                    (
                        EngineView {
                            state: TxState::Transmitting {
                                offset: (offset + 1) as usize,
                                second_half_of_bit: false,
                            },
                            ..self
                        },
                        d,
                    )
                } else {
                    (
                        EngineView {
                            state: TxState::Idle { second_half_of_bit: false },
                            ..self
                        },
                        d,
                    )
                }
            },
        }
    }
}

/// The delays returned by `n` consecutive ticks starting from `v`.
pub open spec fn run_delays(v: EngineView, n: nat) -> Seq<u32>
    decreases n,
{
    if n == 0 {
        Seq::empty()
    } else {
        seq![v.step().1] + run_delays(v.step().0, (n - 1) as nat)
    }
}

/// The engine state after `n` consecutive ticks starting from `v`.
pub open spec fn run_state(v: EngineView, n: nat) -> EngineView
    decreases n,
{
    if n == 0 {
        v
    } else {
        run_state(v.step().0, (n - 1) as nat)
    }
}

/// The delays that clock out `bits`: each bit takes two half-bits of its
/// duration, one bits short and zero bits long.
pub open spec fn bit_delays(bits: Seq<bool>, zero_bit_duration: u32, one_bit_duration: u32) -> Seq<
    u32,
>
    decreases bits.len(),
{
    if bits.len() == 0 {
        Seq::empty()
    } else {
        let d = if bits[0] {
            one_bit_duration
        } else {
            zero_bit_duration
        };
        seq![d, d] + bit_delays(bits.drop_first(), zero_bit_duration, one_bit_duration)
    }
}

pub proof fn lemma_run_delays_len(v: EngineView, n: nat)
    ensures
        run_delays(v, n).len() == n,
    decreases n,
{
    if n != 0 {
        lemma_run_delays_len(v.step().0, (n - 1) as nat);
    }
}

proof fn lemma_transmit_replays(v: EngineView, offset: usize)
    requires
        v.wf(),
        v.state == (TxState::Transmitting { offset, second_half_of_bit: false }),
    ensures
        run_delays(v, (2 * (v.active.len() - offset)) as nat) == bit_delays(
            v.active.skip(offset as int),
            v.zero_bit_duration,
            v.one_bit_duration,
        ),
        run_state(v, (2 * (v.active.len() - offset)) as nat) == (EngineView {
            state: TxState::Idle { second_half_of_bit: false },
            ..v
        }),
    decreases v.active.len() - offset,
{
    let n = (2 * (v.active.len() - offset)) as nat;
    let d = v.half_bit_duration(v.active[offset as int]);
    let v1 = v.step().0;
    let v2 = v1.step().0;
    let rest = v.active.skip(offset as int);
    assert(rest[0] == v.active[offset as int]);
    assert(bit_delays(rest, v.zero_bit_duration, v.one_bit_duration) == seq![d, d] + bit_delays(
        rest.drop_first(),
        v.zero_bit_duration,
        v.one_bit_duration,
    ));
    assert(run_delays(v, n) == seq![d] + run_delays(v1, (n - 1) as nat));
    assert(run_delays(v1, (n - 1) as nat) == seq![d] + run_delays(v2, (n - 2) as nat));
    assert(run_state(v, n) == run_state(v1, (n - 1) as nat));
    assert(run_state(v1, (n - 1) as nat) == run_state(v2, (n - 2) as nat));
    if offset + 1 < v.active.len() {
        lemma_transmit_replays(v2, (offset + 1) as usize);
        assert(rest.drop_first() =~= v2.active.skip(offset + 1));
        assert(run_delays(v, n) =~= seq![d, d] + bit_delays(
            rest.drop_first(),
            v.zero_bit_duration,
            v.one_bit_duration,
        ));
    } else {
        assert(v2.state == (TxState::Idle { second_half_of_bit: false }));
        assert(run_delays(v2, (n - 2) as nat) == Seq::<u32>::empty());
        assert(rest.drop_first() =~= Seq::<bool>::empty());
        assert(bit_delays(rest.drop_first(), v.zero_bit_duration, v.one_bit_duration)
            == Seq::<u32>::empty());
        assert(run_delays(v, n) =~= seq![d, d]);
        assert(bit_delays(rest, v.zero_bit_duration, v.one_bit_duration) =~= seq![d, d]);
    }
}

/// Law: an engine sitting idle at the start of a filler bit with a packet
/// staged emits two filler half-bits — the idle boundary that drains the
/// staging buffer — and then replays exactly the staged bit pattern, two
/// half-bits per staged bit, finishing back in idle with nothing staged: the
/// packet is transmitted exactly once.
pub proof fn lemma_staged_packet_replayed(v: EngineView)
    requires
        v.wf(),
        v.state == (TxState::Idle { second_half_of_bit: false }),
        v.staged.len() > 0,
    ensures
        run_delays(v, (2 + 2 * v.staged.len()) as nat) == seq![
            IDLE_FILLER_MICROS,
            IDLE_FILLER_MICROS,
        ] + bit_delays(v.staged, v.zero_bit_duration, v.one_bit_duration),
        run_state(v, (2 + 2 * v.staged.len()) as nat) == (EngineView {
            staged: Seq::empty(),
            active: v.staged,
            state: TxState::Idle { second_half_of_bit: false },
            ..v
        }),
{
    let n = (2 + 2 * v.staged.len()) as nat;
    let v1 = v.step().0;
    let v2 = v1.step().0;
    assert(v1.state == (TxState::Idle { second_half_of_bit: true }));
    assert(v2 == (EngineView {
        staged: Seq::empty(),
        active: v.staged,
        state: TxState::Transmitting { offset: 0, second_half_of_bit: false },
        ..v
    }));
    assert(run_delays(v, n) == seq![IDLE_FILLER_MICROS] + run_delays(v1, (n - 1) as nat));
    assert(run_delays(v1, (n - 1) as nat) == seq![IDLE_FILLER_MICROS] + run_delays(
        v2,
        (n - 2) as nat,
    ));
    assert(run_state(v, n) == run_state(v1, (n - 1) as nat));
    assert(run_state(v1, (n - 1) as nat) == run_state(v2, (n - 2) as nat));
    lemma_transmit_replays(v2, 0);
    assert(v2.active.skip(0) =~= v.staged);
    assert(run_delays(v, n) =~= seq![IDLE_FILLER_MICROS, IDLE_FILLER_MICROS] + bit_delays(
        v.staged,
        v.zero_bit_duration,
        v.one_bit_duration,
    ));
}

/// Law: an idle engine with nothing staged emits only filler half-bits and
/// stays idle with nothing staged, however many ticks elapse.
pub proof fn lemma_idle_engine_stays_idle(v: EngineView, n: nat)
    requires
        v.wf(),
        v.staged.len() == 0,
        v.state matches TxState::Idle { .. },
    ensures
        run_state(v, n).staged.len() == 0,
        run_state(v, n).active == v.active,
        run_state(v, n).state matches TxState::Idle { .. },
        run_delays(v, n).len() == n,
        forall|i: int| 0 <= i < n ==> run_delays(v, n)[i] == IDLE_FILLER_MICROS,
    decreases n,
{
    lemma_run_delays_len(v, n);
    if n != 0 {
        let v1 = v.step().0;
        lemma_idle_engine_stays_idle(v1, (n - 1) as nat);
        lemma_run_delays_len(v1, (n - 1) as nat);
        assert forall|i: int| 0 <= i < n implies run_delays(v, n)[i] == IDLE_FILLER_MICROS by {
            if i > 0 {
                assert(run_delays(v, n)[i] == run_delays(v1, (n - 1) as nat)[i - 1]);
            }
        }
    }
}

/// Law: staging the same bits twice before any tick drains them leaves the
/// engine exactly as staging them once does — the last writer wins, nothing
/// queues, and the packet will be transmitted exactly once.
pub proof fn lemma_staging_twice_is_staging_once(v: EngineView, bits: Seq<bool>)
    ensures
        v.with_staged(bits).with_staged(bits) == v.with_staged(bits),
{
}

/// The main interrupt handler. Calling the [`tick`](Self::tick) method
/// advances the internal state and toggles the provided output pin to
/// control the track polarity.
pub struct DccInterruptHandler<P: OutputPin> {
    write_buffer: [bool; BUFFER_SIZE],
    write_buffer_len: usize,
    buffer: [bool; BUFFER_SIZE],
    buffer_num_bits: usize,
    state: TxState,
    output_pin: P,
    zero_bit_duration: u32,
    one_bit_duration: u32,
}

impl<P: OutputPin> View for DccInterruptHandler<P> {
    type V = EngineView;

    closed spec fn view(&self) -> EngineView {
        EngineView {
            staged: self.write_buffer@.take(self.write_buffer_len as int),
            active: self.buffer@.take(self.buffer_num_bits as int),
            state: self.state,
            zero_bit_duration: self.zero_bit_duration,
            one_bit_duration: self.one_bit_duration,
        }
    }
}

impl<P: OutputPin> DccInterruptHandler<P> {
    /// The engine's invariant: both logical buffer lengths fit the fixed
    /// capacity and the abstract state is well formed.
    pub closed spec fn wf(&self) -> bool {
        &&& self.write_buffer_len <= BUFFER_SIZE
        &&& self.buffer_num_bits <= BUFFER_SIZE
        &&& self@.wf()
    }

    /// Initialise the interrupt handler. `output_pin` is the GPIO pin
    /// connected to e.g. a motor shield's `direction` pin to control the
    /// track polarity; the two durations are the half-bit periods, in
    /// microseconds, of zero and one bits on the wire.
    pub fn new(output_pin: P, zero_bit_duration: u32, one_bit_duration: u32) -> (r:
        DccInterruptHandler<P>)
        ensures
            r.wf(),
            r@ == (EngineView {
                staged: Seq::empty(),
                active: Seq::empty(),
                state: TxState::Idle { second_half_of_bit: false },
                zero_bit_duration,
                one_bit_duration,
            }),
    {
        let r = DccInterruptHandler {
            write_buffer: [false; BUFFER_SIZE],
            write_buffer_len: 0,
            buffer: [false; BUFFER_SIZE],
            buffer_num_bits: 0,
            state: TxState::Idle { second_half_of_bit: false },
            output_pin,
            zero_bit_duration,
            one_bit_duration,
        };
        proof {
            assert(r@.staged =~= Seq::<bool>::empty());
            assert(r@.active =~= Seq::<bool>::empty());
        }
        r
    }

    /// Run on interrupt; drives the output pin for the current half-bit and
    /// returns the new clock count to set the interrupt to. A pin failure is
    /// propagated unchanged and leaves the engine state as it was.
    pub fn tick(&mut self) -> (r: Result<u32, P::Error>)
        requires
            old(self).wf(),
        ensures
            final(self).wf(),
            match r {
                Ok(new_clock) => final(self)@ == old(self)@.step().0 && new_clock == old(
                    self,
                )@.step().1,
                Err(_) => final(self)@ == old(self)@,
            },
    {
        let new_clock: u32;
        match self.state {
            TxState::Idle { second_half_of_bit } => {
                if second_half_of_bit {
                    match self.output_pin.set_high() {
                        Ok(()) => {},
                        Err(e) => {
                            return Err(e);
                        },
                    }
                } else {
                    match self.output_pin.set_low() {
                        Ok(()) => {},
                        Err(e) => {
                            return Err(e);
                        },
                    }
                }
                new_clock = IDLE_FILLER_MICROS;
                if second_half_of_bit && self.write_buffer_len != 0 {
                    // copy write buffer into internal buffer
                    self.buffer = self.write_buffer;
                    self.buffer_num_bits = self.write_buffer_len;
                    self.write_buffer_len = 0;
                    self.state = TxState::Transmitting { offset: 0, second_half_of_bit: false };
                    proof {
                        assert(self@.staged =~= Seq::<bool>::empty());
                        assert(self@ =~= old(self)@.step().0);
                    }
                } else {
                    self.state = TxState::Idle { second_half_of_bit: !second_half_of_bit };
                    proof {
                        assert(self@ =~= old(self)@.step().0);
                    }
                }
            },
            TxState::Transmitting { offset, second_half_of_bit } => {
                // transmit the next bit-half in the sequence
                let current_bit = self.buffer[offset];
                new_clock = if current_bit {
                    self.one_bit_duration
                } else {
                    self.zero_bit_duration
                };
                let new_offset: usize;
                if second_half_of_bit {
                    match self.output_pin.set_high() {
                        Ok(()) => {},
                        Err(e) => {
                            return Err(e);
                        },
                    }
                    new_offset = offset + 1;
                } else {
                    match self.output_pin.set_low() {
                        Ok(()) => {},
                        Err(e) => {
                            return Err(e);
                        },
                    }
                    new_offset = offset;
                }
                // if there is remaining data then continue transmitting,
                // otherwise go back to idle
                if new_offset < self.buffer_num_bits {
                    self.state = TxState::Transmitting {
                        offset: new_offset,
                        second_half_of_bit: !second_half_of_bit,
                    };
                } else {
                    self.state = TxState::Idle { second_half_of_bit: false };
                }
                proof {
                    assert(self@ =~= old(self)@.step().0);
                }
            },
        }
        Ok(new_clock)
    }

    /// Stage a packet for transmission: the bits are copied into the staging
    /// buffer, replacing whatever was staged before, and are drained into
    /// the active buffer at the next idle boundary. Returns
    /// `Error::TooLong`, changing nothing, if the bits do not fit.
    pub fn write(&mut self, buf: &[bool]) -> (r: Result<(), Error>)
        requires
            old(self).wf(),
        ensures
            final(self).wf(),
            match r {
                Ok(()) => buf@.len() <= BUFFER_SIZE && final(self)@ == old(self)@.with_staged(
                    buf@,
                ),
                Err(e) => {
                    &&& e == Error::TooLong
                    &&& buf@.len() > BUFFER_SIZE
                    &&& final(self)@ == old(self)@
                },
            },
    {
        if buf.len() > BUFFER_SIZE {
            Err(Error::TooLong)
        } else {
            let n = buf.len();
            let mut i: usize = 0;
            while i < n
                invariant
                    i <= n,
                    n <= BUFFER_SIZE,
                    buf@.len() == n,
                    self.write_buffer@.len() == BUFFER_SIZE,
                    forall|t: int| 0 <= t < i ==> self.write_buffer@[t] == buf@[t],
                    self.buffer == old(self).buffer,
                    self.buffer_num_bits == old(self).buffer_num_bits,
                    self.state == old(self).state,
                    self.zero_bit_duration == old(self).zero_bit_duration,
                    self.one_bit_duration == old(self).one_bit_duration,
                decreases n - i,
            {
                self.write_buffer[i] = buf[i];
                i += 1;
            }
            self.write_buffer_len = n;
            proof {
                assert(self@.staged =~= buf@);
                assert(self@ =~= old(self)@.with_staged(buf@));
            }
            Ok(())
        }
    }
}

} // verus!
