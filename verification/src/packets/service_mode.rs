//! Types and serialisers for each "service mode" (programming track) packet
//! kind defined by the NMRA standard.

use vstd::prelude::*;

use crate::Error;
use crate::packets::{
    serialise, frame_bits, xor_seq, lemma_three_byte_checksum, lemma_four_byte_checksum,
    SerialiseBuffer, MAX_BITS,
};

verus! {

/// Whether a service-mode packet asks the decoder to verify a stored value
/// or to write a new one.
#[derive(Copy, Clone, Debug, PartialEq, Eq, Structural)]
pub enum Operation {
    /// Compare against the stored value and acknowledge on a match
    Verify,
    /// Replace the stored value
    Write,
}

/// "A packet sequence sent to guarantee the contents of the page register"
pub struct PagePreset;

impl PagePreset {
    /// The fixed three data bytes of the packet in wire order.
    pub open spec fn payload(self) -> Seq<u8> {
        seq![0b0111_1101u8, 0b0000_0001u8, 0b0111_1100u8]
    }

    /// Serialise the packet into the provided buffer. Always succeeds: a
    /// three-byte frame of 43 bits fits every buffer.
    pub fn serialise(&self, buf: &mut SerialiseBuffer) -> (r: Result<usize, Error>)
        ensures
            r == Ok::<usize, Error>(43usize),
            final(buf)@.subrange(0, 43) == frame_bits(self.payload()),
            final(buf)@.subrange(43, MAX_BITS as int) == old(buf)@.subrange(43, MAX_BITS as int),
    {
        let data: [u8; 3] = [0b0111_1101, 0b0000_0001, 0b0111_1100];
        proof {
            assert(data@ =~= self.payload());
        }
        serialise(data.as_slice(), buf)
    }
}

/// Law: the page-preset payload, checksum byte included, XORs to zero.
pub proof fn lemma_page_preset_checksum(pkt: PagePreset)
    ensures
        xor_seq(pkt.payload()) == 0,
{
    assert(0b0111_1101u8 ^ 0b0000_0001u8 == 0b0111_1100u8) by (bit_vector);
    lemma_three_byte_checksum(0b0111_1101u8, 0b0000_0001u8);
    assert(pkt.payload() =~= seq![
        0b0111_1101u8,
        0b0000_0001u8,
        0b0111_1101u8 ^ 0b0000_0001u8,
    ]);
}

/// Instruction kinds supported by the [`Instruction`] packet:
/// * `VerifyCvByte`: the decoder compares its recorded CV value against the
///   provided data byte and responds with an acknowledgement if they match
/// * `WriteCvByte`: the decoder writes the provided data byte into the
///   specified CV slot and may acknowledge a successful write
/// * `VerifyCvBit`: compare the given bit with the bit in the specified
///   position within the CV and acknowledge if they match
/// * `WriteCvBit`: write the given bit into the specified position within
///   the specified CV; the decoder may acknowledge success
#[derive(Copy, Clone, Debug, PartialEq, Eq, Structural)]
pub enum InstructionType {
    /// Write one bit of a CV
    WriteCvBit {
        /// Bit position within the CV byte, 0-7
        offset: u8,
        /// The bit value to store
        value: bool,
    },
    /// Verify one bit of a CV
    VerifyCvBit {
        /// Bit position within the CV byte, 0-7
        offset: u8,
        /// The bit value to compare against
        value: bool,
    },
    /// Write a whole CV byte
    WriteCvByte {
        /// The byte value to store
        value: u8,
    },
    /// Verify a whole CV byte
    VerifyCvByte {
        /// The byte value to compare against
        value: u8,
    },
}

/// The `Instruction` service-mode packet instructs the decoder to write or
/// verify the addressed 10-bit CV against the provided data.
pub struct Instruction {
    /// What to do with the addressed CV.
    pub typ: InstructionType,
    /// The zero-based 10-bit CV address (the CV number minus one).
    pub cv_address: u16,
}

impl Instruction {
    /// The first data byte: `0111` marks service mode, two bits select the
    /// instruction kind, and the low bits carry the CV address's top bits.
    pub open spec fn type_byte(self) -> u8 {
        let base = 0x70u8 | ((self.cv_address >> 8) as u8);
        match self.typ {
            InstructionType::WriteCvBit { .. } => base | 0x08,
            InstructionType::VerifyCvBit { .. } => base | 0x08,
            InstructionType::WriteCvByte { .. } => base | 0x0C,
            InstructionType::VerifyCvByte { .. } => base | 0x04,
        }
    }

    /// The third data byte: the CV value in byte modes, or a combination of
    /// write flag, bit value and bit position in bit modes.
    pub open spec fn data_byte(self) -> u8 {
        match self.typ {
            InstructionType::WriteCvBit { offset, value } => (0b1111_0000u8 | offset) | ((
            if value {
                1u8
            } else {
                0u8
            }) << 3),
            InstructionType::VerifyCvBit { offset, value } => (0b1110_0000u8 | offset) | ((
            if value {
                1u8
            } else {
                0u8
            }) << 3),
            InstructionType::WriteCvByte { value } => value,
            InstructionType::VerifyCvByte { value } => value,
        }
    }

    /// The four data bytes of the packet in wire order.
    pub open spec fn payload(self) -> Seq<u8> {
        let t = self.type_byte();
        let lo = (self.cv_address & 0x00ff) as u8;
        let d = self.data_byte();
        seq![t, lo, d, (t ^ lo) ^ d]
    }

    /// Create a builder for the Instruction packet.
    pub fn builder() -> (r: InstructionBuilder)
        ensures
            r@ == (InstructionBuilderState {
                cv_address: Option::None,
                typ: Option::None,
            }),
    {
        InstructionBuilder { cv_address: None, typ: None }
    }

    /// Serialise the Instruction packet into the provided buffer. Always
    /// succeeds: a four-byte frame of 52 bits fits every buffer.
    pub fn serialise(&self, buf: &mut SerialiseBuffer) -> (r: Result<usize, Error>)
        ensures
            r == Ok::<usize, Error>(52usize),
            final(buf)@.subrange(0, 52) == frame_bits(self.payload()),
    {
        let base: u8 = 0x70 | (self.cv_address >> 8) as u8;
        let rest_of_address = (self.cv_address & 0x00ff) as u8;
        let type_and_start_of_address: u8;
        let data: u8;
        match self.typ {
            InstructionType::WriteCvBit { offset, value } => {
                type_and_start_of_address = base | 0x08;
                data = (0b1111_0000 | offset) | ((if value {
                    1u8
                } else {
                    0u8
                }) << 3);
            },
            InstructionType::VerifyCvBit { offset, value } => {
                type_and_start_of_address = base | 0x08;
                data = (0b1110_0000 | offset) | ((if value {
                    1u8
                } else {
                    0u8
                }) << 3);
            },
            InstructionType::WriteCvByte { value } => {
                type_and_start_of_address = base | 0x0C;
                data = value;
            },
            InstructionType::VerifyCvByte { value } => {
                type_and_start_of_address = base | 0x04;
                data = value;
            },
        }
        let bytes: [u8; 4] = [
            type_and_start_of_address,
            rest_of_address,
            data,
            (type_and_start_of_address ^ rest_of_address) ^ data,
        ];
        proof {
            assert(bytes@ =~= self.payload());
        }
        serialise(bytes.as_slice(), buf)
    }
}

/// Law: every instruction packet's payload, checksum byte included, XORs to
/// zero.
pub proof fn lemma_instruction_checksum(pkt: Instruction)
    ensures
        xor_seq(pkt.payload()) == 0,
{
    let t = pkt.type_byte();
    let lo = (pkt.cv_address & 0x00ff) as u8;
    let d = pkt.data_byte();
    lemma_four_byte_checksum(t, lo, d);
    assert(pkt.payload() =~= seq![t, lo, d, (t ^ lo) ^ d]);
}

/// What an [`InstructionBuilder`] has accumulated so far.
pub struct InstructionBuilderState {
    /// The zero-based CV address set so far, if any.
    pub cv_address: Option<u16>,
    /// The instruction kind set so far, if any.
    pub typ: Option<InstructionType>,
}

/// Builder for [`Instruction`] packets. Each setter validates its input as
/// soon as it is supplied, so only valid instructions are created.
pub struct InstructionBuilder {
    cv_address: Option<u16>,
    typ: Option<InstructionType>,
}

impl View for InstructionBuilder {
    type V = InstructionBuilderState;

    closed spec fn view(&self) -> InstructionBuilderState {
        InstructionBuilderState { cv_address: self.cv_address, typ: self.typ }
    }
}

impl InstructionBuilder {
    /// Set the address. Returns `Error::InvalidAddress` if the provided CV
    /// number is not in the range 1-1023.
    ///
    /// The configuration variable addressed on the wire is the 10-bit
    /// address plus one, so this method subtracts one from the supplied CV
    /// number to determine its address.
    pub fn cv_address(self, cv_address: u16) -> (r: Result<InstructionBuilder, Error>)
        ensures
            match r {
                Ok(b) => {
                    &&& 0 < cv_address < 0x0400
                    &&& b@ == (InstructionBuilderState {
                        cv_address: Option::Some((cv_address - 1) as u16),
                        ..self@
                    })
                },
                Err(e) => {
                    &&& e == Error::InvalidAddress
                    &&& (cv_address == 0 || cv_address >= 0x0400)
                },
            },
    {
        if 0 < cv_address && cv_address < 0x0400 {
            Ok(InstructionBuilder { cv_address: Some(cv_address - 1), ..self })
        } else {
            Err(Error::InvalidAddress)
        }
    }

    /// Select a `WriteCvByte` instruction with the provided byte value.
    pub fn write_byte(self, value: u8) -> (r: InstructionBuilder)
        ensures
            r@ == (InstructionBuilderState {
                typ: Option::Some(InstructionType::WriteCvByte { value }),
                ..self@
            }),
    {
        InstructionBuilder { typ: Some(InstructionType::WriteCvByte { value }), ..self }
    }

    /// Select a `VerifyCvByte` instruction with the provided byte value.
    pub fn verify_byte(self, value: u8) -> (r: InstructionBuilder)
        ensures
            r@ == (InstructionBuilderState {
                typ: Option::Some(InstructionType::VerifyCvByte { value }),
                ..self@
            }),
    {
        InstructionBuilder { typ: Some(InstructionType::VerifyCvByte { value }), ..self }
    }

    /// Select a `WriteCvBit` instruction with the provided bit position and
    /// value. Returns `Error::InvalidOffset` if the position is not 0-7.
    pub fn write_bit(self, offset: u8, value: bool) -> (r: Result<InstructionBuilder, Error>)
        ensures
            match r {
                Ok(b) => {
                    &&& offset < 8
                    &&& b@ == (InstructionBuilderState {
                        typ: Option::Some(InstructionType::WriteCvBit { offset, value }),
                        ..self@
                    })
                },
                Err(e) => {
                    &&& e == Error::InvalidOffset
                    &&& offset >= 8
                },
            },
    {
        if offset < 0x08 {
            Ok(InstructionBuilder { typ: Some(InstructionType::WriteCvBit { offset, value }), ..self })
        } else {
            Err(Error::InvalidOffset)
        }
    }

    /// Select a `VerifyCvBit` instruction with the provided bit position and
    /// value. Returns `Error::InvalidOffset` if the position is not 0-7.
    pub fn verify_bit(self, offset: u8, value: bool) -> (r: Result<InstructionBuilder, Error>)
        ensures
            match r {
                Ok(b) => {
                    &&& offset < 8
                    &&& b@ == (InstructionBuilderState {
                        typ: Option::Some(InstructionType::VerifyCvBit { offset, value }),
                        ..self@
                    })
                },
                Err(e) => {
                    &&& e == Error::InvalidOffset
                    &&& offset >= 8
                },
            },
    {
        if offset < 0x08 {
            Ok(InstructionBuilder { typ: Some(InstructionType::VerifyCvBit { offset, value }), ..self })
        } else {
            Err(Error::InvalidOffset)
        }
    }

    /// Validate that all fields are present and return an Instruction
    /// packet; returns `Error::MissingField` otherwise.
    pub fn build(self) -> (r: Result<Instruction, Error>)
        ensures
            match r {
                Ok(p) => {
                    &&& self@.typ == Option::Some(p.typ)
                    &&& self@.cv_address == Option::Some(p.cv_address)
                },
                Err(e) => {
                    &&& e == Error::MissingField
                    &&& (self@.typ is None || self@.cv_address is None)
                },
            },
    {
        match (self.typ, self.cv_address) {
            (Some(typ), Some(cv_address)) => Ok(Instruction { typ, cv_address }),
            _ => Err(Error::MissingField),
        }
    }
}

/// `AddressOnly` instructs the decoder to set its short-mode address to the
/// provided value, or to verify it.
pub enum AddressOnly {
    /// Write the address into CV 1
    Write {
        /// The 7-bit address to store
        address: u8,
    },
    /// Verify the address stored in CV 1
    Verify {
        /// The 7-bit address to compare against
        address: u8,
    },
}

impl AddressOnly {
    /// The address the packet carries.
    pub open spec fn spec_address(self) -> u8 {
        match self {
            AddressOnly::Write { address } => address,
            AddressOnly::Verify { address } => address,
        }
    }

    /// The first data byte: service-mode marker plus the write flag.
    pub open spec fn instr_byte(self) -> u8 {
        match self {
            AddressOnly::Write { .. } => 0b0111_1000,
            AddressOnly::Verify { .. } => 0b0111_0000,
        }
    }

    /// The three data bytes of the packet in wire order.
    pub open spec fn payload(self) -> Seq<u8> {
        seq![self.instr_byte(), self.spec_address(), self.instr_byte() ^ self.spec_address()]
    }

    /// Create a packet instructing the decoder to write the specified
    /// address into CV 1. Returns `Error::InvalidAddress` unless the address
    /// fits into 7 bits.
    pub fn write(address: u8) -> (r: Result<AddressOnly, Error>)
        ensures
            match r {
                Ok(p) => {
                    &&& address < 0x7f
                    &&& p == (AddressOnly::Write { address })
                },
                Err(e) => {
                    &&& e == Error::InvalidAddress
                    &&& address >= 0x7f
                },
            },
    {
        if address < 0x7f {
            Ok(AddressOnly::Write { address })
        } else {
            Err(Error::InvalidAddress)
        }
    }

    /// Create a packet instructing the decoder to verify the address stored
    /// in CV 1. Returns `Error::InvalidAddress` unless the address fits into
    /// 7 bits.
    pub fn verify(address: u8) -> (r: Result<AddressOnly, Error>)
        ensures
            match r {
                Ok(p) => {
                    &&& address < 0x7f
                    &&& p == (AddressOnly::Verify { address })
                },
                Err(e) => {
                    &&& e == Error::InvalidAddress
                    &&& address >= 0x7f
                },
            },
    {
        if address < 0x7f {
            Ok(AddressOnly::Verify { address })
        } else {
            Err(Error::InvalidAddress)
        }
    }

    /// Serialise the packet into the provided buffer. Always succeeds: a
    /// three-byte frame of 43 bits fits every buffer.
    pub fn serialise(&self, buf: &mut SerialiseBuffer) -> (r: Result<usize, Error>)
        ensures
            r == Ok::<usize, Error>(43usize),
            final(buf)@.subrange(0, 43) == frame_bits(self.payload()),
            final(buf)@.subrange(43, MAX_BITS as int) == old(buf)@.subrange(43, MAX_BITS as int),
    {
        let instr: u8;
        let address: u8;
        match self {
            AddressOnly::Write { address: a } => {
                instr = 0b0111_1000;
                address = *a;
            },
            AddressOnly::Verify { address: a } => {
                instr = 0b0111_0000;
                address = *a;
            },
        }
        let bytes: [u8; 3] = [instr, address, instr ^ address];
        proof {
            assert(bytes@ =~= self.payload());
        }
        serialise(bytes.as_slice(), buf)
    }
}

/// Law: every address-only packet's payload, checksum byte included, XORs to
/// zero.
pub proof fn lemma_address_only_checksum(pkt: AddressOnly)
    ensures
        xor_seq(pkt.payload()) == 0,
{
    lemma_three_byte_checksum(pkt.instr_byte(), pkt.spec_address());
    assert(pkt.payload() =~= seq![
        pkt.instr_byte(),
        pkt.spec_address(),
        pkt.instr_byte() ^ pkt.spec_address(),
    ]);
}

/// The `PhysicalRegister` packet instructs the decoder to update or verify
/// the value stored in one of the eight "physical registers", which map to
/// CV slots depending on the decoder kind.
pub struct PhysicalRegister {
    /// Whether to verify or write the register.
    pub operation: Operation,
    /// The zero-based register address (register number minus one).
    pub register: u8,
    /// The byte value to use for the operation.
    pub value: u8,
}

impl PhysicalRegister {
    /// Address (CV 1)
    pub const ADDRESS: u8 = 1;

    /// Start Voltage (CV 2)
    pub const START_VOLTAGE: u8 = 2;

    /// Acceleration (CV 3)
    pub const ACCELERATION: u8 = 3;

    /// Deceleration (CV 4)
    pub const DECELERATION: u8 = 4;

    /// Basic configuration register (CV 29)
    pub const BASIC_CONFIGURATION_REGISTER: u8 = 5;

    /// Reserved for page register
    pub const RESERVED_FOR_PAGE_REGISTER: u8 = 6;

    /// Version number (CV 7)
    pub const VERSION_NUMBER: u8 = 7;

    /// Manufacturer ID (CV 8)
    pub const MANUFACTURER_ID: u8 = 8;

    /// The first data byte: service-mode marker, write flag and register.
    pub open spec fn instr_byte(self) -> u8 {
        (match self.operation {
            Operation::Write => 0b0111_1000u8,
            Operation::Verify => 0b0111_0000u8,
        }) | self.register
    }

    /// The three data bytes of the packet in wire order.
    pub open spec fn payload(self) -> Seq<u8> {
        seq![self.instr_byte(), self.value, self.instr_byte() ^ self.value]
    }

    /// Builder for `PhysicalRegister`.
    pub fn builder() -> (r: PhysicalRegisterBuilder)
        ensures
            r@ == (PhysicalRegisterBuilderState {
                operation: Option::None,
                register: Option::None,
                value: Option::None,
            }),
    {
        PhysicalRegisterBuilder { operation: None, register: None, value: None }
    }

    /// Serialise the packet into the provided buffer. Always succeeds: a
    /// three-byte frame of 43 bits fits every buffer.
    pub fn serialise(&self, buf: &mut SerialiseBuffer) -> (r: Result<usize, Error>)
        ensures
            r == Ok::<usize, Error>(43usize),
            final(buf)@.subrange(0, 43) == frame_bits(self.payload()),
            final(buf)@.subrange(43, MAX_BITS as int) == old(buf)@.subrange(43, MAX_BITS as int),
    {
        let base: u8 = match self.operation {
            Operation::Write => 0b0111_1000,
            Operation::Verify => 0b0111_0000,
        };
        let instr = base | self.register;
        let bytes: [u8; 3] = [instr, self.value, instr ^ self.value];
        proof {
            assert(bytes@ =~= self.payload());
        }
        serialise(bytes.as_slice(), buf)
    }
}

/// Law: every physical-register packet's payload, checksum byte included,
/// XORs to zero.
pub proof fn lemma_physical_register_checksum(pkt: PhysicalRegister)
    ensures
        xor_seq(pkt.payload()) == 0,
{
    lemma_three_byte_checksum(pkt.instr_byte(), pkt.value);
    assert(pkt.payload() =~= seq![
        pkt.instr_byte(),
        pkt.value,
        pkt.instr_byte() ^ pkt.value,
    ]);
}

/// What a [`PhysicalRegisterBuilder`] has accumulated so far.
pub struct PhysicalRegisterBuilderState {
    /// The operation set so far, if any.
    pub operation: Option<Operation>,
    /// The zero-based register address set so far, if any.
    pub register: Option<u8>,
    /// The byte value set so far, if any.
    pub value: Option<u8>,
}

/// Builder for the [`PhysicalRegister`] packet.
pub struct PhysicalRegisterBuilder {
    operation: Option<Operation>,
    register: Option<u8>,
    value: Option<u8>,
}

impl View for PhysicalRegisterBuilder {
    type V = PhysicalRegisterBuilderState;

    closed spec fn view(&self) -> PhysicalRegisterBuilderState {
        PhysicalRegisterBuilderState {
            operation: self.operation,
            register: self.register,
            value: self.value,
        }
    }
}

impl PhysicalRegisterBuilder {
    /// Sets the `Operation` (verify/write mode) to be performed on the
    /// register.
    pub fn operation(self, operation: Operation) -> (r: PhysicalRegisterBuilder)
        ensures
            r@ == (PhysicalRegisterBuilderState {
                operation: Option::Some(operation),
                ..self@
            }),
    {
        PhysicalRegisterBuilder { operation: Some(operation), ..self }
    }

    /// Sets the register address. Valid registers are numbered 1-8,
    /// corresponding to raw addresses 0-7. Returns `Error::InvalidAddress`
    /// for values outside this range.
    pub fn register(self, register: u8) -> (r: Result<PhysicalRegisterBuilder, Error>)
        ensures
            match r {
                Ok(b) => {
                    &&& 1 <= register <= 8
                    &&& b@ == (PhysicalRegisterBuilderState {
                        register: Option::Some((register - 1) as u8),
                        ..self@
                    })
                },
                Err(e) => {
                    &&& e == Error::InvalidAddress
                    &&& (register == 0 || register > 8)
                },
            },
    {
        if 1 <= register && register <= 8 {
            Ok(PhysicalRegisterBuilder { register: Some(register - 1), ..self })
        } else {
            Err(Error::InvalidAddress)
        }
    }

    /// The 8-bit value to use for the operation.
    pub fn value(self, value: u8) -> (r: PhysicalRegisterBuilder)
        ensures
            r@ == (PhysicalRegisterBuilderState { value: Option::Some(value), ..self@ }),
    {
        PhysicalRegisterBuilder { value: Some(value), ..self }
    }

    /// Build a `PhysicalRegister` packet, returning `Error::MissingField` if
    /// any of the required fields are missing.
    pub fn build(self) -> (r: Result<PhysicalRegister, Error>)
        ensures
            match r {
                Ok(p) => {
                    &&& self@.operation == Option::Some(p.operation)
                    &&& self@.register == Option::Some(p.register)
                    &&& self@.value == Option::Some(p.value)
                },
                Err(e) => {
                    &&& e == Error::MissingField
                    &&& (self@.operation is None || self@.register is None || self@.value is None)
                },
            },
    {
        match (self.operation, self.register, self.value) {
            (Some(operation), Some(register), Some(value)) => Ok(
                PhysicalRegister { operation, register, value },
            ),
            _ => Err(Error::MissingField),
        }
    }
}

/// Reset decoder to factory-default condition.
pub struct FactoryReset;

impl FactoryReset {
    /// The fixed three data bytes of the packet in wire order.
    pub open spec fn payload(self) -> Seq<u8> {
        seq![0b0111_1111u8, 0b0000_1000u8, 0b0111_0111u8]
    }

    /// Serialise the packet into the provided buffer. Always succeeds: a
    /// three-byte frame of 43 bits fits every buffer.
    pub fn serialise(&self, buf: &mut SerialiseBuffer) -> (r: Result<usize, Error>)
        ensures
            r == Ok::<usize, Error>(43usize),
            final(buf)@.subrange(0, 43) == frame_bits(self.payload()),
            final(buf)@.subrange(43, MAX_BITS as int) == old(buf)@.subrange(43, MAX_BITS as int),
    {
        let data: [u8; 3] = [0b0111_1111, 0b0000_1000, 0b0111_0111];
        proof {
            assert(data@ =~= self.payload());
        }
        serialise(data.as_slice(), buf)
    }
}

/// Law: the factory-reset payload, checksum byte included, XORs to zero.
pub proof fn lemma_factory_reset_checksum(pkt: FactoryReset)
    ensures
        xor_seq(pkt.payload()) == 0,
{
    assert(0b0111_1111u8 ^ 0b0000_1000u8 == 0b0111_0111u8) by (bit_vector);
    lemma_three_byte_checksum(0b0111_1111u8, 0b0000_1000u8);
    assert(pkt.payload() =~= seq![
        0b0111_1111u8,
        0b0000_1000u8,
        0b0111_1111u8 ^ 0b0000_1000u8,
    ]);
}

/// Query an older decoder to verify its address.
pub struct AddressQuery {
    /// The address to query for.
    pub address: u8,
}

impl AddressQuery {
    /// The three data bytes of the packet in wire order.
    pub open spec fn payload(self) -> Seq<u8> {
        seq![self.address, 0b1111_1001u8, self.address ^ 0b1111_1001u8]
    }

    /// Create an `AddressQuery` packet for the given address.
    pub fn address(address: u8) -> (r: AddressQuery)
        ensures
            r == (AddressQuery { address }),
    {
        AddressQuery { address }
    }

    /// Serialise the packet into the provided buffer. Always succeeds: a
    /// three-byte frame of 43 bits fits every buffer.
    pub fn serialise(&self, buf: &mut SerialiseBuffer) -> (r: Result<usize, Error>)
        ensures
            r == Ok::<usize, Error>(43usize),
            final(buf)@.subrange(0, 43) == frame_bits(self.payload()),
            final(buf)@.subrange(43, MAX_BITS as int) == old(buf)@.subrange(43, MAX_BITS as int),
    {
        let instr: u8 = 0b1111_1001;
        let bytes: [u8; 3] = [self.address, instr, self.address ^ instr];
        proof {
            assert(bytes@ =~= self.payload());
        }
        serialise(bytes.as_slice(), buf)
    }
}

/// Law: every address-query packet's payload, checksum byte included, XORs
/// to zero.
pub proof fn lemma_address_query_checksum(pkt: AddressQuery)
    ensures
        xor_seq(pkt.payload()) == 0,
{
    lemma_three_byte_checksum(pkt.address, 0b1111_1001u8);
    assert(pkt.payload() =~= seq![
        pkt.address,
        0b1111_1001u8,
        pkt.address ^ 0b1111_1001u8,
    ]);
}

/// Instruct any decoder not matching the given address to ignore any
/// subsequent service-mode packets.
pub struct DecoderLock {
    /// The 7-bit address of the decoder that stays unlocked.
    pub address: u8,
}

impl DecoderLock {
    /// The four data bytes of the packet in wire order.
    pub open spec fn payload(self) -> Seq<u8> {
        seq![0u8, 0b1111_1001u8, self.address, self.address ^ 0b1111_1001u8]
    }

    /// Builder for the DecoderLock packet.
    pub fn builder() -> (r: DecoderLockBuilder)
        ensures
            r@ == (DecoderLockBuilderState { address: Option::None }),
    {
        DecoderLockBuilder { address: None }
    }

    /// Serialise the packet into the provided buffer. Always succeeds: a
    /// four-byte frame of 52 bits fits every buffer.
    pub fn serialise(&self, buf: &mut SerialiseBuffer) -> (r: Result<usize, Error>)
        ensures
            r == Ok::<usize, Error>(52usize),
            final(buf)@.subrange(0, 52) == frame_bits(self.payload()),
    {
        let instr: u8 = 0b1111_1001;
        let bytes: [u8; 4] = [0, instr, self.address, self.address ^ instr];
        proof {
            assert(bytes@ =~= self.payload());
        }
        serialise(bytes.as_slice(), buf)
    }
}

/// Law: every decoder-lock packet's payload, checksum byte included, XORs to
/// zero.
pub proof fn lemma_decoder_lock_checksum(pkt: DecoderLock)
    ensures
        xor_seq(pkt.payload()) == 0,
{
    let a = pkt.address;
    lemma_four_byte_checksum(0u8, 0b1111_1001u8, a);
    assert((0u8 ^ 0b1111_1001u8) ^ a == a ^ 0b1111_1001u8) by (bit_vector);
    assert(pkt.payload() =~= seq![
        0u8,
        0b1111_1001u8,
        a,
        (0u8 ^ 0b1111_1001u8) ^ a,
    ]);
}

/// What a [`DecoderLockBuilder`] has accumulated so far.
pub struct DecoderLockBuilderState {
    /// The address set so far, if any.
    pub address: Option<u8>,
}

/// Builder for the [`DecoderLock`] packet.
pub struct DecoderLockBuilder {
    address: Option<u8>,
}

impl View for DecoderLockBuilder {
    type V = DecoderLockBuilderState;

    closed spec fn view(&self) -> DecoderLockBuilderState {
        DecoderLockBuilderState { address: self.address }
    }
}

impl DecoderLockBuilder {
    /// Set the address of the DecoderLock packet. Only short-mode (7-bit)
    /// addresses are supported. Returns `Error::InvalidAddress` if the
    /// supplied address does not fit into 7 bits.
    pub fn address(self, address: u8) -> (r: Result<DecoderLockBuilder, Error>)
        ensures
            match r {
                Ok(b) => {
                    &&& address < 0x7f
                    &&& b@ == (DecoderLockBuilderState { address: Option::Some(address) })
                },
                Err(e) => {
                    &&& e == Error::InvalidAddress
                    &&& address >= 0x7f
                },
            },
    {
        if address < 0x7f {
            Ok(DecoderLockBuilder { address: Some(address) })
        } else {
            Err(Error::InvalidAddress)
        }
    }

    /// Build the DecoderLock packet. Returns `Error::MissingField` if the
    /// address has not been set.
    pub fn build(self) -> (r: Result<DecoderLock, Error>)
        ensures
            match r {
                Ok(p) => self@.address == Option::Some(p.address),
                Err(e) => {
                    &&& e == Error::MissingField
                    &&& self@.address is None
                },
            },
    {
        match self.address {
            Some(address) => Ok(DecoderLock { address }),
            None => Err(Error::MissingField),
        }
    }
}

} // verus!
