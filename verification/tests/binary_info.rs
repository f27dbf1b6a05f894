use rp_binary_info::consts::{
    ID_RP_BINARY_END, ID_RP_PROGRAM_NAME, TAG_RASPBERRY_PI,
};
use rp_binary_info::make_tag;
use rp_binary_info::{
    pins_names_concat, DataType, GpioFunction, Header, IntegerEntry, MappingTableEntry,
    PinsWithFunction, PinsWithName, PointerEntry, StringEntry,
};

#[test]
fn names_concatenation_returns_single_name_if_only_one_provided() {
    assert_eq!(b"a".to_vec(), pins_names_concat(&["a"]));
    assert_eq!(b"a".to_vec(), pins_names_concat(["a"].as_slice()));
}

#[test]
fn names_concatenation_returns_pipe_separated_list_of_names() {
    assert_eq!(b"a|b|c".to_vec(), pins_names_concat(&["a", "b", "c"]));
}

#[test]
fn pins_with_function_generate_proper_outputs() {
    let pwf = PinsWithFunction::new([2].as_slice(), GpioFunction::Uart);
    assert_eq!(pwf.encoding, 2 | 2 << 3 | 2 << 7 | 2 << 12);

    let pwf = PinsWithFunction::new([2, 3].as_slice(), GpioFunction::Uart);
    assert_eq!(pwf.encoding, 2 | 2 << 3 | 2 << 7 | 3 << 12 | 3 << 17);

    let pwf = PinsWithFunction::new([2, 3, 4, 5, 6].as_slice(), GpioFunction::Uart);
    assert_eq!(
        pwf.encoding,
        2 | 2 << 3 | 2 << 7 | 3 << 12 | 4 << 17 | 5 << 22 | 6 << 27
    );
}

#[test]
fn pin_range_with_function_generate_proper_outputs() {
    let pwf = PinsWithFunction::new_range(0, 4, GpioFunction::Uart);
    assert_eq!(pwf.encoding, 1 | 2 << 3 | 4 << 12);
}

#[test]
fn pins_with_name_fold_returns_the_corresponding_mask() {
    assert_eq!(PinsWithName::fold_config(0, &[1, 2, 3]), 0x0E);
}

#[test]
fn make_tag_puts_the_first_character_low() {
    assert_eq!(make_tag(b"RP"), TAG_RASPBERRY_PI);
    assert_eq!(make_tag(b"RP"), 0x5052);
    assert_eq!(make_tag(b"AB"), 0x4241);
    assert_eq!(make_tag(&[0xff, 0]), 0x00ff);
    assert_eq!(make_tag(&[0, 0xff]), 0xff00);
}

#[test]
fn header_holds_the_markers_and_the_table_bounds() {
    static TABLE: [MappingTableEntry; 1] = [MappingTableEntry {
        source_addr_start: 0,
        dest_addr_start: 0,
        dest_addr_end: 0,
    }];
    let h = Header::new(0x1000_0100, 0x1000_0140, &TABLE);
    assert_eq!(h.marker_start, 0x7188ebf2);
    assert_eq!(h.marker_end, 0xe71aa390);
    assert_eq!(h.marker_start, Header::MARKER_START);
    assert_eq!(h.marker_end, Header::MARKER_END);
    assert_eq!(h.entries_start, 0x1000_0100);
    assert_eq!(h.entries_end, 0x1000_0140);
    assert_eq!(h.mapping_table, TABLE.as_ptr() as usize);
    assert_ne!(h.mapping_table, 0);
}

#[test]
fn header_from_addresses_keeps_each_address() {
    let h = Header::from_addresses(0x1000_0100, 0x1000_0140, 0x1000_0200);
    assert_eq!(h.marker_start, 0x7188ebf2);
    assert_eq!(h.entries_start, 0x1000_0100);
    assert_eq!(h.entries_end, 0x1000_0140);
    assert_eq!(h.mapping_table, 0x1000_0200);
    assert_eq!(h.marker_end, 0xe71aa390);
    static EMPTY: [MappingTableEntry; 0] = [];
    assert_ne!(Header::new(0, 0, &EMPTY).mapping_table, 0);
}

#[test]
fn null_mapping_entry_is_all_zero() {
    let e = MappingTableEntry::null();
    assert_eq!(e.source_addr_start, 0);
    assert_eq!(e.dest_addr_start, 0);
    assert_eq!(e.dest_addr_end, 0);
}

#[test]
fn data_type_codes() {
    assert_eq!(DataType::Raw.code(), 1);
    assert_eq!(DataType::SizedData.code(), 2);
    assert_eq!(DataType::BinaryInfoListZeroTerminated.code(), 3);
    assert_eq!(DataType::Bson.code(), 4);
    assert_eq!(DataType::IdAndInt.code(), 5);
    assert_eq!(DataType::IdAndString.code(), 6);
    assert_eq!(DataType::BlockDevice.code(), 7);
    assert_eq!(DataType::PinsWithFunction.code(), 8);
    assert_eq!(DataType::PinsWithName.code(), 9);
    assert_eq!(DataType::PinsWithNames.code(), 10);
}

#[test]
fn gpio_function_codes() {
    assert_eq!(GpioFunction::Xip.code(), 0);
    assert_eq!(GpioFunction::Spi.code(), 1);
    assert_eq!(GpioFunction::Uart.code(), 2);
    assert_eq!(GpioFunction::I2c.code(), 3);
    assert_eq!(GpioFunction::Pwm.code(), 4);
    assert_eq!(GpioFunction::Sio.code(), 5);
    assert_eq!(GpioFunction::Pio0.code(), 6);
    assert_eq!(GpioFunction::Pio1.code(), 7);
    assert_eq!(GpioFunction::Gpck.code(), 8);
    assert_eq!(GpioFunction::Usb.code(), 9);
    assert_eq!(GpioFunction::Hstx.code(), 10);
    assert_eq!(GpioFunction::Pio2.code(), 11);
    assert_eq!(GpioFunction::CoresightTrace.code(), 12);
    assert_eq!(GpioFunction::UartAux.code(), 13);
    assert_eq!(GpioFunction::Null.code(), 0x1f);
}

#[test]
fn string_entry_holds_its_fields() {
    let e = StringEntry::new(TAG_RASPBERRY_PI, ID_RP_PROGRAM_NAME, b"blinky".to_vec());
    assert_eq!(e.header.data_type, DataType::IdAndString);
    assert_eq!(e.header.tag, TAG_RASPBERRY_PI);
    assert_eq!(e.id, ID_RP_PROGRAM_NAME);
    assert_eq!(e.value, b"blinky".to_vec());
    assert_ne!(e.addr().0, 0);
    assert_eq!(e.addr().0, std::ptr::from_ref(&e) as usize);
}

#[test]
fn integer_and_pointer_entries_are_id_and_int() {
    let i = IntegerEntry::new(0x1234, 7, 42);
    assert_eq!(i.header.data_type, DataType::IdAndInt);
    assert_eq!(i.header.tag, 0x1234);
    assert_eq!(i.id, 7);
    assert_eq!(i.value, 42);
    let p = PointerEntry::new(TAG_RASPBERRY_PI, ID_RP_BINARY_END, 0x1002_0000);
    assert_eq!(p.header.data_type, DataType::IdAndInt);
    assert_eq!(p.header.tag, TAG_RASPBERRY_PI);
    assert_eq!(p.id, ID_RP_BINARY_END);
    assert_eq!(p.value, 0x1002_0000);
    assert_eq!(i.addr().0, std::ptr::from_ref(&i) as usize);
    assert_eq!(p.addr().0, std::ptr::from_ref(&p) as usize);
    assert_ne!(i.addr(), p.addr());
}

#[test]
fn pins_with_name_sets_one_bit_per_pin() {
    let e = PinsWithName::new(&[0, 1], b"UART".to_vec());
    assert_eq!(e.header.data_type, DataType::PinsWithName);
    assert_eq!(e.header.tag, TAG_RASPBERRY_PI);
    assert_eq!(e.mask, 0b11);
    assert_eq!(e.label, b"UART".to_vec());
    let e = PinsWithName::new(&[0, 31], pins_names_concat(&["RX", "TX"]));
    assert_eq!(e.mask, 0x8000_0001);
    assert_eq!(e.label, b"RX|TX".to_vec());
    assert_ne!(e.addr().0, 0);
    let e = PinsWithName::new(&[], Vec::new());
    assert_eq!(e.mask, 0);
}

#[test]
fn fold_config_keeps_the_starting_mask() {
    assert_eq!(PinsWithName::fold_config(0b101, &[4, 9]), 0b10_0001_0101);
    assert_eq!(PinsWithName::fold_config(0xffff_ffff, &[]), 0xffff_ffff);
}

#[test]
fn fold_iter_fails_past_the_fifth_slot() {
    assert_eq!(PinsWithFunction::fold_iter(2, &[1, 2, 3, 4, 5, 6], 0, 0), None);
    assert_eq!(PinsWithFunction::fold_iter(2, &[1], 5, 0), None);
    assert_eq!(PinsWithFunction::fold_iter(2, &[1, 2], 4, 0), None);
    assert_eq!(PinsWithFunction::fold_iter(2, &[1], 4, 0), Some(2 | 1 << 27));
    assert_eq!(PinsWithFunction::fold_iter(2, &[], 100, 3), Some(2 | 3 << 5));
    assert_eq!(PinsWithFunction::fold_iter(0, &[7], 1, 0), Some(7 << 12 | 7 << 17));
}

#[test]
fn pins_with_function_without_pins_is_its_base() {
    let pwf = PinsWithFunction::new(&[], GpioFunction::Spi);
    assert_eq!(pwf.encoding, 2 | 1 << 3);
    assert_eq!(pwf.header.data_type, DataType::PinsWithFunction);
    assert_eq!(pwf.header.tag, TAG_RASPBERRY_PI);
    assert_ne!(pwf.addr().0, 0);
}

#[test]
fn pins_with_function_fields_read_back() {
    let pins = [3u32, 17, 31, 0];
    let pwf = PinsWithFunction::new(&pins, GpioFunction::Pio1);
    let e = pwf.encoding;
    assert_eq!(e & 7, 2);
    assert_eq!((e >> 3) & 15, 7);
    for (k, p) in pins.iter().enumerate() {
        assert_eq!((e >> (7 + 5 * k)) & 31, *p);
    }
    assert_eq!((e >> 27) & 31, 0);
}

#[test]
fn pins_with_function_keeps_wide_pins_truncated() {
    // A pin number of 32 or more is not refused: its high bits spill over.
    let pwf = PinsWithFunction::new(&[33], GpioFunction::Xip);
    assert_eq!(pwf.encoding, 2 | 33 << 7 | 33 << 12);
}

#[test]
fn pins_with_function_null_spills_into_the_first_slot() {
    let pwf = PinsWithFunction::new(&[2], GpioFunction::Null);
    assert_eq!(pwf.encoding, 2 | 0x1f << 3 | 2 << 7 | 2 << 12);
    assert_eq!((pwf.encoding >> 7) & 31, 3);
}

#[test]
fn pin_range_fields_read_back() {
    let pwf = PinsWithFunction::new_range(5, 29, GpioFunction::Pwm);
    let e = pwf.encoding;
    assert_eq!(e & 7, 1);
    assert_eq!((e >> 3) & 15, 4);
    assert_eq!((e >> 7) & 31, 5);
    assert_eq!((e >> 12) & 31, 29);
    assert_eq!(e >> 17, 0);
    assert_eq!(pwf.header.data_type, DataType::PinsWithFunction);
}

#[test]
fn names_concatenation_stops_at_a_nul() {
    assert_eq!(b"a".to_vec(), pins_names_concat(&["a\0b", "c"]));
    assert_eq!(b"ab|".to_vec(), pins_names_concat(&["ab", "\0c"]));
    assert_eq!(Vec::<u8>::new(), pins_names_concat(&[]));
    assert_eq!(b"|".to_vec(), pins_names_concat(&["", ""]));
}
