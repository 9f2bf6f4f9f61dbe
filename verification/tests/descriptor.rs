use d1_playground::dmac::{
    AddressMode, BModeSel, BlockSize, DataWidth, Descriptor, DescriptorAddress, DescriptorConfig,
    DescriptorError, DestDrqType, SrcDrqType, ADDRESS_LIMIT, BYTE_COUNTER_LIMIT, END_OF_CHAIN,
};

fn config(src: SrcDrqType, dest: DestDrqType) -> DescriptorConfig {
    DescriptorConfig {
        source: 0,
        destination: 0,
        byte_counter: 0,
        link: None,
        wait_clock_cycles: 0,
        bmode: BModeSel::Normal,
        dest_width: DataWidth::Bit8,
        dest_addr_mode: AddressMode::LinearMode,
        dest_block_size: BlockSize::Byte1,
        dest_drq_type: dest,
        src_data_width: DataWidth::Bit8,
        src_addr_mode: AddressMode::LinearMode,
        src_block_size: BlockSize::Byte1,
        src_drq_type: src,
    }
}

#[test]
fn new_descriptor_is_all_zero() {
    let d = Descriptor::new();
    assert_eq!(d.words(), [0, 0, 0, 0, 0, 0]);
    assert_eq!(d.source(), 0);
    assert_eq!(d.dest(), 0);
    assert_eq!(d.byte_counter(), 0);
}

#[test]
fn source_round_trip() {
    for a in [0u64, 1, 0xFFFF_FFFF, 0x1_0000_0000, 0x2_8000_1234, 0x3_FFFF_FFFF] {
        let mut d = Descriptor::new();
        d.set_source(a);
        assert_eq!(d.source(), a);
        assert_eq!(d.dest(), 0);
    }
}

#[test]
fn dest_round_trip() {
    for a in [0u64, 1, 0xFFFF_FFFF, 0x1_0000_0000, 0x2_8000_1234, 0x3_FFFF_FFFF] {
        let mut d = Descriptor::new();
        d.set_dest(a);
        assert_eq!(d.dest(), a);
        assert_eq!(d.source(), 0);
    }
}

#[test]
fn source_words_are_exact() {
    let mut d = Descriptor::new();
    d.set_source(0x2_8000_1234);
    assert_eq!(d.words(), [0, 0x8000_1234, 0, 0, 0x0002_0000, 0]);
    d.set_source(0x3_0000_0000);
    assert_eq!(d.words(), [0, 0, 0, 0, 0x0003_0000, 0]);
    d.set_source(0x1234);
    assert_eq!(d.words(), [0, 0x1234, 0, 0, 0, 0]);
}

#[test]
fn dest_words_are_exact() {
    let mut d = Descriptor::new();
    d.set_dest(0x1_0250_0000);
    assert_eq!(d.words(), [0, 0, 0x0250_0000, 0, 0x0004_0000, 0]);
    d.set_dest(0x3_0000_0001);
    assert_eq!(d.words(), [0, 0, 1, 0, 0x000C_0000, 0]);
}

#[test]
fn addresses_do_not_disturb_each_other() {
    let mut d = Descriptor::new();
    d.set_source(0x3_1111_1111);
    d.set_dest(0x2_2222_2222);
    assert_eq!(d.source(), 0x3_1111_1111);
    assert_eq!(d.dest(), 0x2_2222_2222);
    assert_eq!(d.words()[4], 0x000B_0000);
    d.set_source(0x0_3333_3333);
    assert_eq!(d.source(), 0x0_3333_3333);
    assert_eq!(d.dest(), 0x2_2222_2222);
    assert_eq!(d.words()[4], 0x0008_0000);
    d.set_dest(0x1_4444_4444);
    assert_eq!(d.source(), 0x0_3333_3333);
    assert_eq!(d.dest(), 0x1_4444_4444);
    assert_eq!(d.words()[4], 0x0004_0000);
}

#[test]
fn out_of_range_source_is_refused() {
    let mut d = Descriptor::new();
    d.set_source(0x1_0000_0004);
    let before = d.words();
    for a in [ADDRESS_LIMIT, ADDRESS_LIMIT + 1, 0x8_0000_0000, u64::MAX] {
        assert_eq!(d.try_set_source(a), Err(DescriptorError::AddressOutOfRange(a)));
        assert_eq!(d.words(), before);
    }
    assert_eq!(d.try_set_source(ADDRESS_LIMIT - 1), Ok(()));
    assert_eq!(d.source(), ADDRESS_LIMIT - 1);
}

#[test]
fn out_of_range_dest_is_refused() {
    let mut d = Descriptor::new();
    d.set_dest(0x2_0000_0008);
    let before = d.words();
    for a in [ADDRESS_LIMIT, ADDRESS_LIMIT + 1, 0x8_0000_0000, u64::MAX] {
        assert_eq!(d.try_set_dest(a), Err(DescriptorError::AddressOutOfRange(a)));
        assert_eq!(d.words(), before);
    }
    assert_eq!(d.try_set_dest(ADDRESS_LIMIT - 1), Ok(()));
    assert_eq!(d.dest(), ADDRESS_LIMIT - 1);
}

#[test]
fn end_link_survives_addresses() {
    let mut d = Descriptor::new();
    d.end_link();
    assert_eq!(d.words()[5], 0xFFFF_F800);
    assert_eq!(END_OF_CHAIN, 0xFFFF_F800);
    d.set_source(0x3_FFFF_FFFF);
    assert_eq!(d.words()[5], 0xFFFF_F800);
    d.set_dest(0x3_FFFF_FFFF);
    assert_eq!(d.words()[5], 0xFFFF_F800);
    assert_eq!(d.words(), [0, 0xFFFF_FFFF, 0xFFFF_FFFF, 0, 0x000F_0000, 0xFFFF_F800]);
}

#[test]
fn byte_counter_is_bounded() {
    let mut d = Descriptor::new();
    assert_eq!(d.set_byte_counter(12), Ok(()));
    assert_eq!(d.byte_counter(), 12);
    assert_eq!(d.words()[3], 12);
    let limit = BYTE_COUNTER_LIMIT as usize;
    assert_eq!(limit, 1 << 25);
    assert_eq!(d.set_byte_counter(limit - 1), Ok(()));
    assert_eq!(d.byte_counter(), 0x1FF_FFFF);
    assert_eq!(d.set_byte_counter(limit), Err(DescriptorError::LengthOutOfRange(limit)));
    assert_eq!(d.byte_counter(), 0x1FF_FFFF);
    assert_eq!(d.set_byte_counter(0), Ok(()));
    assert_eq!(d.byte_counter(), 0);
}

#[test]
fn configuration_is_stored_as_given() {
    let mut d = Descriptor::new();
    d.set_configuration(0x010E_0001);
    assert_eq!(d.words(), [0x010E_0001, 0, 0, 0, 0, 0]);
}

#[test]
fn memory_to_uart_configuration_word() {
    let mut c = config(SrcDrqType::Dram, DestDrqType::Uart0Tx);
    c.dest_addr_mode = AddressMode::IoMode;
    assert_eq!(c.configuration(), (1 << 24) | (0b001110 << 16) | 1);
    assert_eq!(c.configuration(), 0x010E_0001);
}

#[test]
fn every_selector_has_its_place() {
    let zero = config(SrcDrqType::Sram, DestDrqType::Sram);
    assert_eq!(zero.configuration(), 0);
    let mut c = config(SrcDrqType::Sram, DestDrqType::Sram);
    c.bmode = BModeSel::BMode;
    assert_eq!(c.configuration(), 1 << 30);
    let mut c = config(SrcDrqType::Sram, DestDrqType::Sram);
    c.dest_width = DataWidth::Bit64;
    assert_eq!(c.configuration(), 3 << 25);
    let mut c = config(SrcDrqType::Sram, DestDrqType::Sram);
    c.dest_addr_mode = AddressMode::IoMode;
    assert_eq!(c.configuration(), 1 << 24);
    let mut c = config(SrcDrqType::Sram, DestDrqType::Sram);
    c.dest_block_size = BlockSize::Byte16;
    assert_eq!(c.configuration(), 3 << 22);
    let c = config(SrcDrqType::Sram, DestDrqType::Twi3);
    assert_eq!(c.configuration(), 46 << 16);
    let mut c = config(SrcDrqType::Sram, DestDrqType::Sram);
    c.src_data_width = DataWidth::Bit32;
    assert_eq!(c.configuration(), 2 << 9);
    let mut c = config(SrcDrqType::Sram, DestDrqType::Sram);
    c.src_addr_mode = AddressMode::IoMode;
    assert_eq!(c.configuration(), 1 << 8);
    let mut c = config(SrcDrqType::Sram, DestDrqType::Sram);
    c.src_block_size = BlockSize::Byte8;
    assert_eq!(c.configuration(), 2 << 6);
    let c = config(SrcDrqType::Twi3, DestDrqType::Sram);
    assert_eq!(c.configuration(), 46);
}

#[test]
fn all_selectors_at_their_highest() {
    let c = DescriptorConfig {
        source: 0,
        destination: 0,
        byte_counter: 0,
        link: None,
        wait_clock_cycles: 0,
        bmode: BModeSel::BMode,
        dest_width: DataWidth::Bit64,
        dest_addr_mode: AddressMode::IoMode,
        dest_block_size: BlockSize::Byte16,
        dest_drq_type: DestDrqType::Twi3,
        src_data_width: DataWidth::Bit64,
        src_addr_mode: AddressMode::IoMode,
        src_block_size: BlockSize::Byte16,
        src_drq_type: SrcDrqType::Twi3,
    };
    assert_eq!(c.configuration(), 0x47EE_07EE);
}

#[test]
fn source_device_codes() {
    let codes = [
        (SrcDrqType::Sram, 0),
        (SrcDrqType::Dram, 1),
        (SrcDrqType::OwaRx, 2),
        (SrcDrqType::I2sPcm0Rx, 3),
        (SrcDrqType::I2sPcm1Rx, 4),
        (SrcDrqType::I2sPcm2Rx, 5),
        (SrcDrqType::AudioCodec, 7),
        (SrcDrqType::Dmic, 8),
        (SrcDrqType::GpADC, 12),
        (SrcDrqType::TpADC, 13),
        (SrcDrqType::Uart0Rx, 14),
        (SrcDrqType::Uart1Rx, 15),
        (SrcDrqType::Uart2Rx, 16),
        (SrcDrqType::Uart3Rx, 17),
        (SrcDrqType::Uart4Rx, 18),
        (SrcDrqType::Uart5Rx, 19),
        (SrcDrqType::Spi0Rx, 22),
        (SrcDrqType::Spi1Rx, 23),
        (SrcDrqType::Usb0Ep1, 30),
        (SrcDrqType::Usb0Ep2, 31),
        (SrcDrqType::Usb0Ep3, 32),
        (SrcDrqType::Usb0Ep4, 33),
        (SrcDrqType::Usb0Ep5, 34),
        (SrcDrqType::Twi0, 43),
        (SrcDrqType::Twi1, 44),
        (SrcDrqType::Twi2, 45),
        (SrcDrqType::Twi3, 46),
    ];
    for (device, code) in codes {
        assert_eq!(device.code(), code);
    }
}

#[test]
fn destination_device_codes() {
    let codes = [
        (DestDrqType::Sram, 0),
        (DestDrqType::Dram, 1),
        (DestDrqType::OwaTx, 2),
        (DestDrqType::I2sPcm0Tx, 3),
        (DestDrqType::I2sPcm1Tx, 4),
        (DestDrqType::I2sPcm2Tx, 5),
        (DestDrqType::AudioCodec, 7),
        (DestDrqType::IrTx, 13),
        (DestDrqType::Uart0Tx, 14),
        (DestDrqType::Uart1Tx, 15),
        (DestDrqType::Uart2Tx, 16),
        (DestDrqType::Uart3Tx, 17),
        (DestDrqType::Uart4Tx, 18),
        (DestDrqType::Uart5Tx, 19),
        (DestDrqType::Spi0Tx, 22),
        (DestDrqType::Spi1Tx, 23),
        (DestDrqType::Usb0Ep1, 30),
        (DestDrqType::Usb0Ep2, 31),
        (DestDrqType::Usb0Ep3, 32),
        (DestDrqType::Usb0Ep4, 33),
        (DestDrqType::Usb0Ep5, 34),
        (DestDrqType::Ledc, 42),
        (DestDrqType::Twi0, 43),
        (DestDrqType::Twi1, 44),
        (DestDrqType::Twi2, 45),
        (DestDrqType::Twi3, 46),
    ];
    for (device, code) in codes {
        assert_eq!(device.code(), code);
    }
}

#[test]
fn other_selector_codes() {
    assert_eq!(BlockSize::Byte1.code(), 0);
    assert_eq!(BlockSize::Byte4.code(), 1);
    assert_eq!(BlockSize::Byte8.code(), 2);
    assert_eq!(BlockSize::Byte16.code(), 3);
    assert_eq!(AddressMode::LinearMode.code(), 0);
    assert_eq!(AddressMode::IoMode.code(), 1);
    assert_eq!(DataWidth::Bit8.code(), 0);
    assert_eq!(DataWidth::Bit16.code(), 1);
    assert_eq!(DataWidth::Bit32.code(), 2);
    assert_eq!(DataWidth::Bit64.code(), 3);
    assert_eq!(BModeSel::Normal.code(), 0);
    assert_eq!(BModeSel::BMode.code(), 1);
}

#[test]
fn descriptor_address_is_split() {
    assert_eq!(
        DescriptorAddress::new(0x4000_1000),
        Some(DescriptorAddress { low: 0x1000_0400, high: 0 })
    );
    assert_eq!(
        DescriptorAddress::new(0x3_FFFF_FFFC),
        Some(DescriptorAddress { low: 0x3FFF_FFFF, high: 3 })
    );
    assert_eq!(
        DescriptorAddress::new(0x2_0000_0000),
        Some(DescriptorAddress { low: 0, high: 2 })
    );
    assert_eq!(DescriptorAddress::new(0), Some(DescriptorAddress { low: 0, high: 0 }));
}

#[test]
fn descriptor_address_must_fit_and_be_aligned() {
    assert_eq!(DescriptorAddress::new(0x4000_1001), None);
    assert_eq!(DescriptorAddress::new(0x4000_1002), None);
    assert_eq!(DescriptorAddress::new(0x4000_1003), None);
    assert_eq!(DescriptorAddress::new(ADDRESS_LIMIT), None);
    assert_eq!(DescriptorAddress::new(u64::MAX - 3), None);
}
