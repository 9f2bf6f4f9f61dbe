//! The transfer descriptor that the DMA engine reads from memory.
//!
//! A descriptor is six 32-bit words. Physical addresses have 34 bits, so each
//! of the two addresses of a transfer is split: its low 32 bits fill a word of
//! their own, its two high bits stand in the word `parameter`, at bits 16 and
//! 17 for the source and at bits 18 and 19 for the destination.

use vstd::prelude::*;

verus! {

/// First value that is too large for a physical address.
pub const ADDRESS_LIMIT: u64 = 0x4_0000_0000;

/// First value that is too large for the byte counter of a descriptor.
pub const BYTE_COUNTER_LIMIT: u32 = 0x200_0000;

/// Value of `link` that ends a chain of descriptors.
pub const END_OF_CHAIN: u32 = 0xFFFF_F800;

/// The bits of `parameter` that hold the high bits of the source address.
pub const SOURCE_HIGH_BITS: u32 = 0x0003_0000;

/// The bits of `parameter` that hold the high bits of the destination address.
pub const DESTINATION_HIGH_BITS: u32 = 0x000C_0000;

/// Why a value cannot be written into a descriptor.
#[derive(Clone, Copy, PartialEq, Eq, Debug)]
pub enum DescriptorError {
    /// The address does not fit in 34 bits.
    AddressOutOfRange(u64),
    /// The length does not fit in the 25 bits of the byte counter.
    LengthOutOfRange(usize),
}

/// What a descriptor holds: the two addresses in full, and under `reserved`
/// the bits of `parameter` that belong to neither of them.
pub struct DescriptorView {
    pub configuration: u32,
    pub source: u64,
    pub destination: u64,
    pub byte_counter: u32,
    pub reserved: u32,
    pub link: u32,
}

/// The address whose low 32 bits are `low` and whose two high bits stand in
/// `parameter`, the lower of them at bit `shift`.
pub open spec fn joined_address(low: u32, parameter: u32, shift: u32) -> u64 {
    (low as u64) | ((((parameter >> shift) & 0b11) as u64) << 32)
}

/// The word `parameter` that holds `reserved` and the high bits of the two
/// addresses.
pub open spec fn parameter_word(reserved: u32, source: u64, destination: u64) -> u32 {
    reserved | (((source >> 32) as u32) << 16) | (((destination >> 32) as u32) << 18)
}

impl DescriptorView {
    /// The addresses fit in 34 bits, and `reserved` is clear where
    /// `parameter` holds their high bits.
    pub open spec fn wf(self) -> bool {
        &&& self.source < ADDRESS_LIMIT
        &&& self.destination < ADDRESS_LIMIT
        &&& self.byte_counter < BYTE_COUNTER_LIMIT
        &&& self.reserved & (SOURCE_HIGH_BITS | DESTINATION_HIGH_BITS) == 0
    }

    /// The word `parameter` of the descriptor.
    pub open spec fn parameter(self) -> u32 {
        parameter_word(self.reserved, self.source, self.destination)
    }

    /// The six words in the order in which the engine reads them.
    pub open spec fn words(self) -> Seq<u32> {
        seq![
            self.configuration,
            (self.source & 0xFFFF_FFFF) as u32,
            (self.destination & 0xFFFF_FFFF) as u32,
            self.byte_counter,
            self.parameter(),
            self.link,
        ]
    }

    /// The source address as the engine reads it out of the words.
    pub open spec fn decoded_source(self) -> u64 {
        joined_address(self.words()[1], self.words()[4], 16)
    }

    /// The destination address as the engine reads it out of the words.
    pub open spec fn decoded_destination(self) -> u64 {
        joined_address(self.words()[2], self.words()[4], 18)
    }

    /// The words of a descriptor give back both addresses in full, and
    /// `reserved` is what `parameter` holds beside their high bits.
    pub proof fn lemma_words_decode(self)
        requires
            self.wf(),
        ensures
            self.decoded_source() == self.source,
            self.decoded_destination() == self.destination,
            self.parameter() & !(SOURCE_HIGH_BITS | DESTINATION_HIGH_BITS) == self.reserved,
    {
        lemma_words(self.reserved, self.source, self.destination, 0);
    }

    /// An address of up to 34 bits that is written as the source or as the
    /// destination is read back from the words exactly.
    pub proof fn lemma_address_round_trip(self, address: u64)
        requires
            self.wf(),
            address < ADDRESS_LIMIT,
        ensures
            self.with_source(address).wf(),
            self.with_source(address).decoded_source() == address,
            self.with_destination(address).wf(),
            self.with_destination(address).decoded_destination() == address,
    {
        self.with_source(address).lemma_words_decode();
        self.with_destination(address).lemma_words_decode();
    }

    /// Writing the source changes no bit of `parameter` but 16 and 17, and
    /// writing the destination none but 18 and 19; so neither address
    /// disturbs the other, in whatever order and however often they are
    /// written.
    pub proof fn lemma_addresses_independent(self, first: u64, second: u64, third: u64)
        requires
            self.wf(),
            first < ADDRESS_LIMIT,
            second < ADDRESS_LIMIT,
            third < ADDRESS_LIMIT,
        ensures
            self.with_source(first).parameter() & !SOURCE_HIGH_BITS == self.parameter()
                & !SOURCE_HIGH_BITS,
            self.with_destination(first).parameter() & !DESTINATION_HIGH_BITS == self.parameter()
                & !DESTINATION_HIGH_BITS,
            self.with_source(first).decoded_destination() == self.destination,
            self.with_destination(first).decoded_source() == self.source,
            self.with_source(first).with_destination(second).decoded_source() == first,
            self.with_source(first).with_destination(second).decoded_destination() == second,
            self.with_source(first).with_destination(second).with_source(third).decoded_destination()
                == second,
            self.with_destination(first).with_source(second).with_destination(third).decoded_source()
                == second,
    {
        lemma_words(self.reserved, self.source, self.destination, first);
        self.with_source(first).lemma_words_decode();
        self.with_destination(first).lemma_words_decode();
        self.with_source(first).with_destination(second).lemma_words_decode();
        self.with_source(first).with_destination(second).with_source(third).lemma_words_decode();
        self.with_destination(first).with_source(second).with_destination(third).lemma_words_decode();
    }

    /// Once the chain is ended, writing an address leaves `link` as it is.
    pub proof fn lemma_link_independent(self, address: u64)
        ensures
            self.with_end_link().with_source(address).link == END_OF_CHAIN,
            self.with_end_link().with_destination(address).link == END_OF_CHAIN,
            self.with_end_link().with_source(address).with_destination(address).link
                == END_OF_CHAIN,
    {
    }

    pub open spec fn with_source(self, address: u64) -> DescriptorView {
        DescriptorView { source: address, ..self }
    }

    pub open spec fn with_destination(self, address: u64) -> DescriptorView {
        DescriptorView { destination: address, ..self }
    }

    pub open spec fn with_byte_counter(self, length: u32) -> DescriptorView {
        DescriptorView { byte_counter: length, ..self }
    }

    pub open spec fn with_configuration(self, configuration: u32) -> DescriptorView {
        DescriptorView { configuration: configuration, ..self }
    }

    pub open spec fn with_end_link(self) -> DescriptorView {
        DescriptorView { link: END_OF_CHAIN, ..self }
    }
}

/// One transfer of the DMA engine, in the engine's own field layout.
pub struct Descriptor {
    configuration: u32,
    source_address: u32,
    destination_address: u32,
    byte_counter: u32,
    parameter: u32,
    link: u32,
}

impl View for Descriptor {
    type V = DescriptorView;

    closed spec fn view(&self) -> DescriptorView {
        DescriptorView {
            configuration: self.configuration,
            source: joined_address(self.source_address, self.parameter, 16),
            destination: joined_address(self.destination_address, self.parameter, 18),
            byte_counter: self.byte_counter,
            reserved: self.parameter & 0xFFF0_FFFF,
            link: self.link,
        }
    }
}

/// Splitting `parameter` into the two pairs of high bits and the rest loses
/// nothing, and no address read out of a descriptor exceeds 34 bits.
proof fn lemma_fields(source_low: u32, destination_low: u32, parameter: u32)
    by (bit_vector)
    ensures
        joined_address(source_low, parameter, 16) < 0x4_0000_0000u64,
        joined_address(destination_low, parameter, 18) < 0x4_0000_0000u64,
        (joined_address(source_low, parameter, 16) & 0xFFFF_FFFF) as u32 == source_low,
        (joined_address(destination_low, parameter, 18) & 0xFFFF_FFFF) as u32 == destination_low,
        (parameter & 0xFFF0_FFFF) & (0x0003_0000u32 | 0x000C_0000u32) == 0,
        parameter_word(
            parameter & 0xFFF0_FFFF,
            joined_address(source_low, parameter, 16),
            joined_address(destination_low, parameter, 18),
        ) == parameter,
{
}

/// What can be read out of the words of a descriptor, and what a change of
/// one address leaves as it was.
proof fn lemma_words(reserved: u32, source: u64, destination: u64, address: u64)
    by (bit_vector)
    requires
        source < 0x4_0000_0000u64,
        destination < 0x4_0000_0000u64,
        address < 0x4_0000_0000u64,
        reserved & (0x0003_0000u32 | 0x000C_0000u32) == 0,
    ensures
        joined_address(
            (source & 0xFFFF_FFFF) as u32,
            parameter_word(reserved, source, destination),
            16,
        ) == source,
        joined_address(
            (destination & 0xFFFF_FFFF) as u32,
            parameter_word(reserved, source, destination),
            18,
        ) == destination,
        parameter_word(reserved, source, destination) & !(0x0003_0000u32 | 0x000C_0000u32)
            == reserved,
        parameter_word(reserved, address, destination) & !0x0003_0000u32 == parameter_word(
            reserved,
            source,
            destination,
        ) & !0x0003_0000u32,
        parameter_word(reserved, source, address) & !0x000C_0000u32 == parameter_word(
            reserved,
            source,
            destination,
        ) & !0x000C_0000u32,
{
}

/// Replacing one pair of high bits in `parameter` gives back the address that
/// was written and leaves every other bit as it was.
proof fn lemma_replace_high_bits(address: u64, parameter: u32)
    by (bit_vector)
    requires
        address < 0x4_0000_0000u64,
    ensures
        joined_address(
            (address & 0xFFFF_FFFF) as u32,
            (parameter & 0xFFFC_FFFF) | ((((address >> 32) & 0b11) as u32) << 16),
            16,
        ) == address,
        ((parameter & 0xFFFC_FFFF) | ((((address >> 32) & 0b11) as u32) << 16)) & 0xFFFC_FFFF
            == parameter & 0xFFFC_FFFF,
        joined_address(
            (address & 0xFFFF_FFFF) as u32,
            (parameter & 0xFFF3_FFFF) | ((((address >> 32) & 0b11) as u32) << 18),
            18,
        ) == address,
        ((parameter & 0xFFF3_FFFF) | ((((address >> 32) & 0b11) as u32) << 18)) & 0xFFF3_FFFF
            == parameter & 0xFFF3_FFFF,
{
}

/// Bits of `parameter` that agree outside one pair of high bits agree in the
/// other pair and in the reserved part.
proof fn lemma_kept_bits(before: u32, after: u32)
    by (bit_vector)
    ensures
        after & 0xFFFC_FFFF == before & 0xFFFC_FFFF ==> (after >> 18) & 0b11 == (before >> 18)
            & 0b11 && after & 0xFFF0_FFFF == before & 0xFFF0_FFFF,
        after & 0xFFF3_FFFF == before & 0xFFF3_FFFF ==> (after >> 16) & 0b11 == (before >> 16)
            & 0b11 && after & 0xFFF0_FFFF == before & 0xFFF0_FFFF,
{
}

impl Descriptor {
    #[verifier::type_invariant]
    spec fn counter_in_range(self) -> bool {
        self.byte_counter < BYTE_COUNTER_LIMIT
    }

    /// A descriptor with every field zero.
    pub fn new() -> (d: Descriptor)
        ensures
            d@ == (DescriptorView {
                configuration: 0,
                source: 0,
                destination: 0,
                byte_counter: 0,
                reserved: 0,
                link: 0,
            }),
    {
        assert(joined_address(0, 0, 16) == 0 && joined_address(0, 0, 18) == 0 && 0u32
            & 0xFFF0_FFFF == 0) by (bit_vector);
        Descriptor {
            configuration: 0,
            source_address: 0,
            destination_address: 0,
            byte_counter: 0,
            parameter: 0,
            link: 0,
        }
    }

    /// Makes `source` the address that the transfer reads from. Of
    /// `parameter` only bits 16 and 17 change.
    pub fn set_source(&mut self, source: u64)
        requires
            source < ADDRESS_LIMIT,
        ensures
            final(self)@ == old(self)@.with_source(source),
            final(self)@.parameter() & !SOURCE_HIGH_BITS == old(self)@.parameter()
                & !SOURCE_HIGH_BITS,
    {
        let low: u32 = #[verifier::truncate] ((source & 0xFFFF_FFFF) as u32);
        let high: u32 = #[verifier::truncate] (((source >> 32) & 0b11) as u32);
        let parameter: u32 = (self.parameter & 0xFFFC_FFFF) | (high << 16);
        proof {
            use_type_invariant(&*self);
            lemma_replace_high_bits(source, self.parameter);
            lemma_kept_bits(self.parameter, parameter);
            lemma_fields(self.source_address, self.destination_address, self.parameter);
            lemma_fields(low, self.destination_address, parameter);
            assert(!0x0003_0000u32 == 0xFFFC_FFFFu32) by (bit_vector);
        }
        self.source_address = low;
        self.parameter = parameter;
    }

    /// Makes `dest` the address that the transfer writes to. Of `parameter`
    /// only bits 18 and 19 change.
    pub fn set_dest(&mut self, dest: u64)
        requires
            dest < ADDRESS_LIMIT,
        ensures
            final(self)@ == old(self)@.with_destination(dest),
            final(self)@.parameter() & !DESTINATION_HIGH_BITS == old(self)@.parameter()
                & !DESTINATION_HIGH_BITS,
    {
        let low: u32 = #[verifier::truncate] ((dest & 0xFFFF_FFFF) as u32);
        let high: u32 = #[verifier::truncate] (((dest >> 32) & 0b11) as u32);
        let parameter: u32 = (self.parameter & 0xFFF3_FFFF) | (high << 18);
        proof {
            use_type_invariant(&*self);
            lemma_replace_high_bits(dest, self.parameter);
            lemma_kept_bits(self.parameter, parameter);
            lemma_fields(self.source_address, self.destination_address, self.parameter);
            lemma_fields(self.source_address, low, parameter);
            assert(!0x000C_0000u32 == 0xFFF3_FFFFu32) by (bit_vector);
        }
        self.destination_address = low;
        self.parameter = parameter;
    }

    /// As [`Descriptor::set_source`], for any `source`: an address that does
    /// not fit in 34 bits is refused and the descriptor stays as it was.
    pub fn try_set_source(&mut self, source: u64) -> (r: Result<(), DescriptorError>)
        ensures
            source < ADDRESS_LIMIT ==> r is Ok && final(self)@ == old(self)@.with_source(source),
            source >= ADDRESS_LIMIT ==> r == Err::<(), DescriptorError>(
                DescriptorError::AddressOutOfRange(source),
            ) && final(self)@ == old(self)@,
    {
        if source < ADDRESS_LIMIT {
            self.set_source(source);
            Ok(())
        } else {
            Err(DescriptorError::AddressOutOfRange(source))
        }
    }

    /// As [`Descriptor::set_dest`], for any `dest`: an address that does not
    /// fit in 34 bits is refused and the descriptor stays as it was.
    pub fn try_set_dest(&mut self, dest: u64) -> (r: Result<(), DescriptorError>)
        ensures
            dest < ADDRESS_LIMIT ==> r is Ok && final(self)@ == old(self)@.with_destination(dest),
            dest >= ADDRESS_LIMIT ==> r == Err::<(), DescriptorError>(
                DescriptorError::AddressOutOfRange(dest),
            ) && final(self)@ == old(self)@,
    {
        if dest < ADDRESS_LIMIT {
            self.set_dest(dest);
            Ok(())
        } else {
            Err(DescriptorError::AddressOutOfRange(dest))
        }
    }

    /// Sets the number of bytes to transfer. A length that the counter cannot
    /// hold is refused and the descriptor stays as it was.
    pub fn set_byte_counter(&mut self, length: usize) -> (r: Result<(), DescriptorError>)
        ensures
            length < BYTE_COUNTER_LIMIT ==> r is Ok && final(self)@ == old(self)@.with_byte_counter(
                length as u32,
            ),
            length >= BYTE_COUNTER_LIMIT ==> r == Err::<(), DescriptorError>(
                DescriptorError::LengthOutOfRange(length),
            ) && final(self)@ == old(self)@,
    {
        if length < BYTE_COUNTER_LIMIT as usize {
            self.byte_counter = length as u32;
            Ok(())
        } else {
            Err(DescriptorError::LengthOutOfRange(length))
        }
    }

    /// Sets the word that selects how the engine moves the data.
    pub fn set_configuration(&mut self, configuration: u32)
        ensures
            final(self)@ == old(self)@.with_configuration(configuration),
    {
        proof {
            use_type_invariant(&*self);
        }
        self.configuration = configuration;
    }

    /// The address that the transfer reads from.
    pub fn source(&self) -> (address: u64)
        ensures
            address == self@.source,
            address == self@.decoded_source(),
            address < ADDRESS_LIMIT,
    {
        proof {
            lemma_fields(self.source_address, self.destination_address, self.parameter);
        }
        (self.source_address as u64) | ((((self.parameter >> 16) & 0b11) as u64) << 32)
    }

    /// The address that the transfer writes to.
    pub fn dest(&self) -> (address: u64)
        ensures
            address == self@.destination,
            address == self@.decoded_destination(),
            address < ADDRESS_LIMIT,
    {
        proof {
            lemma_fields(self.source_address, self.destination_address, self.parameter);
        }
        (self.destination_address as u64) | ((((self.parameter >> 18) & 0b11) as u64) << 32)
    }

    /// The number of bytes to transfer.
    pub fn byte_counter(&self) -> (length: u32)
        ensures
            length == self@.byte_counter,
            length < BYTE_COUNTER_LIMIT,
    {
        proof {
            use_type_invariant(self);
        }
        self.byte_counter
    }

    /// The six words of the descriptor in the order in which the engine reads
    /// them from memory: configuration, source address, destination address,
    /// byte counter, parameter, link.
    pub fn words(&self) -> (words: [u32; 6])
        ensures
            words@ == self@.words(),
            self@.wf(),
    {
        proof {
            use_type_invariant(self);
            lemma_fields(self.source_address, self.destination_address, self.parameter);
        }
        let words = [
            self.configuration,
            self.source_address,
            self.destination_address,
            self.byte_counter,
            self.parameter,
            self.link,
        ];
        assert(words@ =~= self@.words());
        words
    }

    /// Marks the descriptor as the last of its chain.
    pub fn end_link(&mut self)
        ensures
            final(self)@ == old(self)@.with_end_link(),
    {
        proof {
            use_type_invariant(&*self);
        }
        self.link = END_OF_CHAIN;
    }
}

/// The device that the engine takes the data from.
#[derive(Clone, Copy, PartialEq, Eq, Debug)]
pub enum SrcDrqType {
    Sram,
    Dram,
    OwaRx,
    I2sPcm0Rx,
    I2sPcm1Rx,
    I2sPcm2Rx,
    AudioCodec,
    Dmic,
    GpADC,
    TpADC,
    Uart0Rx,
    Uart1Rx,
    Uart2Rx,
    Uart3Rx,
    Uart4Rx,
    Uart5Rx,
    Spi0Rx,
    Spi1Rx,
    Usb0Ep1,
    Usb0Ep2,
    Usb0Ep3,
    Usb0Ep4,
    Usb0Ep5,
    Twi0,
    Twi1,
    Twi2,
    Twi3,
}

impl SrcDrqType {
    /// The number that the engine knows this choice by.
    pub open spec fn spec_code(self) -> u8 {
        match self {
            SrcDrqType::Sram => 0,
            SrcDrqType::Dram => 1,
            SrcDrqType::OwaRx => 2,
            SrcDrqType::I2sPcm0Rx => 3,
            SrcDrqType::I2sPcm1Rx => 4,
            SrcDrqType::I2sPcm2Rx => 5,
            SrcDrqType::AudioCodec => 7,
            SrcDrqType::Dmic => 8,
            SrcDrqType::GpADC => 12,
            SrcDrqType::TpADC => 13,
            SrcDrqType::Uart0Rx => 14,
            SrcDrqType::Uart1Rx => 15,
            SrcDrqType::Uart2Rx => 16,
            SrcDrqType::Uart3Rx => 17,
            SrcDrqType::Uart4Rx => 18,
            SrcDrqType::Uart5Rx => 19,
            SrcDrqType::Spi0Rx => 22,
            SrcDrqType::Spi1Rx => 23,
            SrcDrqType::Usb0Ep1 => 30,
            SrcDrqType::Usb0Ep2 => 31,
            SrcDrqType::Usb0Ep3 => 32,
            SrcDrqType::Usb0Ep4 => 33,
            SrcDrqType::Usb0Ep5 => 34,
            SrcDrqType::Twi0 => 43,
            SrcDrqType::Twi1 => 44,
            SrcDrqType::Twi2 => 45,
            SrcDrqType::Twi3 => 46,
        }
    }

    /// The number that the engine knows this choice by.
    #[verifier::when_used_as_spec(spec_code)]
    pub fn code(self) -> (code: u8)
        ensures
            code == self.spec_code(),
            code < 64,
    {
        match self {
            SrcDrqType::Sram => 0,
            SrcDrqType::Dram => 1,
            SrcDrqType::OwaRx => 2,
            SrcDrqType::I2sPcm0Rx => 3,
            SrcDrqType::I2sPcm1Rx => 4,
            SrcDrqType::I2sPcm2Rx => 5,
            SrcDrqType::AudioCodec => 7,
            SrcDrqType::Dmic => 8,
            SrcDrqType::GpADC => 12,
            SrcDrqType::TpADC => 13,
            SrcDrqType::Uart0Rx => 14,
            SrcDrqType::Uart1Rx => 15,
            SrcDrqType::Uart2Rx => 16,
            SrcDrqType::Uart3Rx => 17,
            SrcDrqType::Uart4Rx => 18,
            SrcDrqType::Uart5Rx => 19,
            SrcDrqType::Spi0Rx => 22,
            SrcDrqType::Spi1Rx => 23,
            SrcDrqType::Usb0Ep1 => 30,
            SrcDrqType::Usb0Ep2 => 31,
            SrcDrqType::Usb0Ep3 => 32,
            SrcDrqType::Usb0Ep4 => 33,
            SrcDrqType::Usb0Ep5 => 34,
            SrcDrqType::Twi0 => 43,
            SrcDrqType::Twi1 => 44,
            SrcDrqType::Twi2 => 45,
            SrcDrqType::Twi3 => 46,
        }
    }
}

/// The device that the engine hands the data to.
#[derive(Clone, Copy, PartialEq, Eq, Debug)]
pub enum DestDrqType {
    Sram,
    Dram,
    OwaTx,
    I2sPcm0Tx,
    I2sPcm1Tx,
    I2sPcm2Tx,
    AudioCodec,
    IrTx,
    Uart0Tx,
    Uart1Tx,
    Uart2Tx,
    Uart3Tx,
    Uart4Tx,
    Uart5Tx,
    Spi0Tx,
    Spi1Tx,
    Usb0Ep1,
    Usb0Ep2,
    Usb0Ep3,
    Usb0Ep4,
    Usb0Ep5,
    Ledc,
    Twi0,
    Twi1,
    Twi2,
    Twi3,
}

impl DestDrqType {
    /// The number that the engine knows this choice by.
    pub open spec fn spec_code(self) -> u8 {
        match self {
            DestDrqType::Sram => 0,
            DestDrqType::Dram => 1,
            DestDrqType::OwaTx => 2,
            DestDrqType::I2sPcm0Tx => 3,
            DestDrqType::I2sPcm1Tx => 4,
            DestDrqType::I2sPcm2Tx => 5,
            DestDrqType::AudioCodec => 7,
            DestDrqType::IrTx => 13,
            DestDrqType::Uart0Tx => 14,
            DestDrqType::Uart1Tx => 15,
            DestDrqType::Uart2Tx => 16,
            DestDrqType::Uart3Tx => 17,
            DestDrqType::Uart4Tx => 18,
            DestDrqType::Uart5Tx => 19,
            DestDrqType::Spi0Tx => 22,
            DestDrqType::Spi1Tx => 23,
            DestDrqType::Usb0Ep1 => 30,
            DestDrqType::Usb0Ep2 => 31,
            DestDrqType::Usb0Ep3 => 32,
            DestDrqType::Usb0Ep4 => 33,
            DestDrqType::Usb0Ep5 => 34,
            DestDrqType::Ledc => 42,
            DestDrqType::Twi0 => 43,
            DestDrqType::Twi1 => 44,
            DestDrqType::Twi2 => 45,
            DestDrqType::Twi3 => 46,
        }
    }

    /// The number that the engine knows this choice by.
    #[verifier::when_used_as_spec(spec_code)]
    pub fn code(self) -> (code: u8)
        ensures
            code == self.spec_code(),
            code < 64,
    {
        match self {
            DestDrqType::Sram => 0,
            DestDrqType::Dram => 1,
            DestDrqType::OwaTx => 2,
            DestDrqType::I2sPcm0Tx => 3,
            DestDrqType::I2sPcm1Tx => 4,
            DestDrqType::I2sPcm2Tx => 5,
            DestDrqType::AudioCodec => 7,
            DestDrqType::IrTx => 13,
            DestDrqType::Uart0Tx => 14,
            DestDrqType::Uart1Tx => 15,
            DestDrqType::Uart2Tx => 16,
            DestDrqType::Uart3Tx => 17,
            DestDrqType::Uart4Tx => 18,
            DestDrqType::Uart5Tx => 19,
            DestDrqType::Spi0Tx => 22,
            DestDrqType::Spi1Tx => 23,
            DestDrqType::Usb0Ep1 => 30,
            DestDrqType::Usb0Ep2 => 31,
            DestDrqType::Usb0Ep3 => 32,
            DestDrqType::Usb0Ep4 => 33,
            DestDrqType::Usb0Ep5 => 34,
            DestDrqType::Ledc => 42,
            DestDrqType::Twi0 => 43,
            DestDrqType::Twi1 => 44,
            DestDrqType::Twi2 => 45,
            DestDrqType::Twi3 => 46,
        }
    }
}

/// How much the engine moves in one burst.
#[derive(Clone, Copy, PartialEq, Eq, Debug)]
pub enum BlockSize {
    Byte1,
    Byte4,
    Byte8,
    Byte16,
}

impl BlockSize {
    /// The number that the engine knows this choice by.
    pub open spec fn spec_code(self) -> u8 {
        match self {
            BlockSize::Byte1 => 0,
            BlockSize::Byte4 => 1,
            BlockSize::Byte8 => 2,
            BlockSize::Byte16 => 3,
        }
    }

    /// The number that the engine knows this choice by.
    #[verifier::when_used_as_spec(spec_code)]
    pub fn code(self) -> (code: u8)
        ensures
            code == self.spec_code(),
            code < 4,
    {
        match self {
            BlockSize::Byte1 => 0,
            BlockSize::Byte4 => 1,
            BlockSize::Byte8 => 2,
            BlockSize::Byte16 => 3,
        }
    }
}

/// How one side of a transfer is addressed.
#[derive(Clone, Copy, PartialEq, Eq, Debug)]
pub enum AddressMode {
    LinearMode,
    IoMode,
}

impl AddressMode {
    /// The number that the engine knows this choice by.
    pub open spec fn spec_code(self) -> u8 {
        match self {
            AddressMode::LinearMode => 0,
            AddressMode::IoMode => 1,
        }
    }

    /// The number that the engine knows this choice by.
    #[verifier::when_used_as_spec(spec_code)]
    pub fn code(self) -> (code: u8)
        ensures
            code == self.spec_code(),
            code < 2,
    {
        match self {
            AddressMode::LinearMode => 0,
            AddressMode::IoMode => 1,
        }
    }
}

/// How wide one access of the engine is.
#[derive(Clone, Copy, PartialEq, Eq, Debug)]
pub enum DataWidth {
    Bit8,
    Bit16,
    Bit32,
    Bit64,
}

impl DataWidth {
    /// The number that the engine knows this choice by.
    pub open spec fn spec_code(self) -> u8 {
        match self {
            DataWidth::Bit8 => 0,
            DataWidth::Bit16 => 1,
            DataWidth::Bit32 => 2,
            DataWidth::Bit64 => 3,
        }
    }

    /// The number that the engine knows this choice by.
    #[verifier::when_used_as_spec(spec_code)]
    pub fn code(self) -> (code: u8)
        ensures
            code == self.spec_code(),
            code < 4,
    {
        match self {
            DataWidth::Bit8 => 0,
            DataWidth::Bit16 => 1,
            DataWidth::Bit32 => 2,
            DataWidth::Bit64 => 3,
        }
    }
}

/// The burst mode of the engine.
#[derive(Clone, Copy, PartialEq, Eq, Debug)]
pub enum BModeSel {
    Normal,
    BMode,
}

impl BModeSel {
    /// The number that the engine knows this choice by.
    pub open spec fn spec_code(self) -> u8 {
        match self {
            BModeSel::Normal => 0,
            BModeSel::BMode => 1,
        }
    }

    /// The number that the engine knows this choice by.
    #[verifier::when_used_as_spec(spec_code)]
    pub fn code(self) -> (code: u8)
        ensures
            code == self.spec_code(),
            code < 2,
    {
        match self {
            BModeSel::Normal => 0,
            BModeSel::BMode => 1,
        }
    }
}

/// A transfer as its caller describes it.
pub struct DescriptorConfig {
    pub source: u64,
    pub destination: u64,
    /// Less than [`BYTE_COUNTER_LIMIT`] in a transfer that the engine can run.
    pub byte_counter: usize,
    pub link: Option<u64>,
    pub wait_clock_cycles: u8,
    pub bmode: BModeSel,
    pub dest_width: DataWidth,
    pub dest_addr_mode: AddressMode,
    pub dest_block_size: BlockSize,
    pub dest_drq_type: DestDrqType,
    pub src_data_width: DataWidth,
    pub src_addr_mode: AddressMode,
    pub src_block_size: BlockSize,
    pub src_drq_type: SrcDrqType,
}

/// In a word whose fields are in range and do not overlap, joining them with
/// `|` adds them up, and each can be read back at its place.
proof fn lemma_configuration_layout(
    bmode: u32,
    dest_width: u32,
    dest_addr_mode: u32,
    dest_block_size: u32,
    dest_drq_type: u32,
    src_data_width: u32,
    src_addr_mode: u32,
    src_block_size: u32,
    src_drq_type: u32,
    word: u32,
)
    by (bit_vector)
    requires
        bmode < 2,
        dest_width < 4,
        dest_addr_mode < 2,
        dest_block_size < 4,
        dest_drq_type < 64,
        src_data_width < 4,
        src_addr_mode < 2,
        src_block_size < 4,
        src_drq_type < 64,
        word == (bmode << 30) | (dest_width << 25) | (dest_addr_mode << 24) | (dest_block_size
            << 22) | (dest_drq_type << 16) | (src_data_width << 9) | (src_addr_mode << 8) | (
        src_block_size << 6) | src_drq_type,
    ensures
        word == bmode * 0x4000_0000 + dest_width * 0x200_0000 + dest_addr_mode * 0x100_0000
            + dest_block_size * 0x40_0000 + dest_drq_type * 0x1_0000 + src_data_width * 0x200
            + src_addr_mode * 0x100 + src_block_size * 0x40 + src_drq_type,
        (word >> 30) & 0b1 == bmode,
        (word >> 25) & 0b11 == dest_width,
        (word >> 24) & 0b1 == dest_addr_mode,
        (word >> 22) & 0b11 == dest_block_size,
        (word >> 16) & 0b11_1111 == dest_drq_type,
        (word >> 9) & 0b11 == src_data_width,
        (word >> 8) & 0b1 == src_addr_mode,
        (word >> 6) & 0b11 == src_block_size,
        word & 0b11_1111 == src_drq_type,
        word & 0xB800_F800 == 0,
{
}

impl DescriptorConfig {
    /// The configuration word of the transfer: each selector's code at its
    /// place, the lowest bit of the burst mode at bit 30, of the destination's
    /// width at 25, addressing mode at 24, block size at 22 and device at 16,
    /// of the source's width at 9, addressing mode at 8, block size at 6 and
    /// device at 0.
    pub open spec fn spec_configuration(&self) -> u32 {
        (self.bmode.code() * 0x4000_0000 + self.dest_width.code() * 0x200_0000
            + self.dest_addr_mode.code() * 0x100_0000 + self.dest_block_size.code() * 0x40_0000
            + self.dest_drq_type.code() * 0x1_0000 + self.src_data_width.code() * 0x200
            + self.src_addr_mode.code() * 0x100 + self.src_block_size.code() * 0x40
            + self.src_drq_type.code()) as u32
    }

    /// The configuration word of the transfer.
    #[verifier::when_used_as_spec(spec_configuration)]
    pub fn configuration(&self) -> (word: u32)
        ensures
            word == self.spec_configuration(),
    {
        let bmode: u32 = self.bmode.code() as u32;
        let dest_width: u32 = self.dest_width.code() as u32;
        let dest_addr_mode: u32 = self.dest_addr_mode.code() as u32;
        let dest_block_size: u32 = self.dest_block_size.code() as u32;
        let dest_drq_type: u32 = self.dest_drq_type.code() as u32;
        let src_data_width: u32 = self.src_data_width.code() as u32;
        let src_addr_mode: u32 = self.src_addr_mode.code() as u32;
        let src_block_size: u32 = self.src_block_size.code() as u32;
        let src_drq_type: u32 = self.src_drq_type.code() as u32;
        let word: u32 = (bmode << 30) | (dest_width << 25) | (dest_addr_mode << 24) | (
        dest_block_size << 22) | (dest_drq_type << 16) | (src_data_width << 9) | (src_addr_mode
            << 8) | (src_block_size << 6) | src_drq_type;
        proof {
            lemma_configuration_layout(
                bmode,
                dest_width,
                dest_addr_mode,
                dest_block_size,
                dest_drq_type,
                src_data_width,
                src_addr_mode,
                src_block_size,
                src_drq_type,
                word,
            );
        }
        word
    }

    /// Every selector can be read back from the configuration word at the
    /// place that the engine reads it from, and the word holds nothing else.
    pub proof fn lemma_configuration_fields(&self)
        ensures
            (self.configuration() >> 30) & 0b1 == self.bmode.code(),
            (self.configuration() >> 25) & 0b11 == self.dest_width.code(),
            (self.configuration() >> 24) & 0b1 == self.dest_addr_mode.code(),
            (self.configuration() >> 22) & 0b11 == self.dest_block_size.code(),
            (self.configuration() >> 16) & 0b11_1111 == self.dest_drq_type.code(),
            (self.configuration() >> 9) & 0b11 == self.src_data_width.code(),
            (self.configuration() >> 8) & 0b1 == self.src_addr_mode.code(),
            (self.configuration() >> 6) & 0b11 == self.src_block_size.code(),
            self.configuration() & 0b11_1111 == self.src_drq_type.code(),
            self.configuration() & 0xB800_F800 == 0,
    {
        let bmode: u32 = self.bmode.code() as u32;
        let dest_width: u32 = self.dest_width.code() as u32;
        let dest_addr_mode: u32 = self.dest_addr_mode.code() as u32;
        let dest_block_size: u32 = self.dest_block_size.code() as u32;
        let dest_drq_type: u32 = self.dest_drq_type.code() as u32;
        let src_data_width: u32 = self.src_data_width.code() as u32;
        let src_addr_mode: u32 = self.src_addr_mode.code() as u32;
        let src_block_size: u32 = self.src_block_size.code() as u32;
        let src_drq_type: u32 = self.src_drq_type.code() as u32;
        let word: u32 = (bmode << 30) | (dest_width << 25) | (dest_addr_mode << 24) | (
        dest_block_size << 22) | (dest_drq_type << 16) | (src_data_width << 9) | (src_addr_mode
            << 8) | (src_block_size << 6) | src_drq_type;
        lemma_configuration_layout(
            bmode,
            dest_width,
            dest_addr_mode,
            dest_block_size,
            dest_drq_type,
            src_data_width,
            src_addr_mode,
            src_block_size,
            src_drq_type,
            word,
        );
    }
}

/// The address of a descriptor as the engine's descriptor-address register
/// takes it: bits 2 to 31 of the address in `low`, bits 32 and 33 in `high`.
#[derive(Clone, Copy, PartialEq, Eq, Debug)]
pub struct DescriptorAddress {
    pub low: u32,
    pub high: u8,
}

/// A 34-bit address that is a multiple of four is the sum of its two parts.
proof fn lemma_split_address(address: u64)
    by (bit_vector)
    requires
        address < 0x4_0000_0000u64,
        address & 0b11 == 0,
    ensures
        ((((address >> 32) & 0b11) as u8) as u64) << 32 | ((((address >> 2) & 0x3FFF_FFFF) as u32)
            as u64) << 2 == address,
        ((address >> 2) & 0x3FFF_FFFF) as u32 == (address % 0x1_0000_0000) / 4,
        ((address >> 32) & 0b11) as u8 == address / 0x1_0000_0000,
        (((address >> 2) & 0x3FFF_FFFF) as u32) < 0x4000_0000u32,
        (((address >> 32) & 0b11) as u8) < 4u8,
{
}

impl DescriptorAddress {
    /// The address that the two parts stand for.
    pub open spec fn address(self) -> u64 {
        ((self.high as u64) << 32) | ((self.low as u64) << 2)
    }

    /// Splits the address of a descriptor. There is a result for the
    /// addresses that the register can hold: those of up to 34 bits that are
    /// multiples of four.
    pub fn new(address: u64) -> (r: Option<DescriptorAddress>)
        ensures
            r is Some <==> address < ADDRESS_LIMIT && address % 4 == 0,
            r matches Some(parts) ==> {
                &&& parts.low == (address % 0x1_0000_0000) / 4
                &&& parts.high == address / 0x1_0000_0000
                &&& parts.address() == address
            },
    {
        assert(address & 0b11 == address % 4) by (bit_vector);
        if address < ADDRESS_LIMIT && address & 0b11 == 0 {
            proof {
                lemma_split_address(address);
            }
            Some(
                DescriptorAddress {
                    low: ((address >> 2) & 0x3FFF_FFFF) as u32,
                    high: ((address >> 32) & 0b11) as u8,
                },
            )
        } else {
            None
        }
    }
}

} // verus!
