use open_isobus::Name;

#[test]
fn name_new() {
    let name = Name::builder()
        .has_self_configurable_address(true)
        .industry_group(0)
        .device_class_instance(0xFF)
        .device_class(0)
        .function(0xFF)
        .function_instance(0)
        .ecu_instance(0xFF)
        .manufacturer_code(0)
        .identity_number(0xFFFFFFFF)
        .build();

    assert_eq!(
        name,
        Name::from(0b1000111100000000111111110000011100000000000111111111111111111111u64)
    );
}

#[test]
fn name_has_self_configurable_address() {
    let name = Name::from(0b1000111100000000111111110000011100000000000111111111111111111111u64);
    assert_eq!(name.has_self_configurable_address(), true);
}

#[test]
fn name_industry_group() {
    let name = Name::from(0b1000111100000000111111110000011100000000000111111111111111111111u64);
    assert_eq!(name.industry_group(), 0b000000000000000);
}

#[test]
fn name_device_class_instance() {
    let name = Name::from(0b1000111100000000111111110000011100000000000111111111111111111111u64);
    assert_eq!(name.device_class_instance(), 0b1111);
}

#[test]
fn name_device_class() {
    let name = Name::from(0b1000111100000000111111110000011100000000000111111111111111111111u64);
    assert_eq!(name.device_class(), 0);
}

#[test]
fn name_function() {
    let name = Name::from(0b1000111100000000111111110000011100000000000111111111111111111111u64);
    assert_eq!(name.function(), 0b11111111);
}

#[test]
fn name_function_instance() {
    let name = Name::from(0b1000111100000000111111110000011100000000000111111111111111111111u64);
    assert_eq!(name.function_instance(), 0);
}

#[test]
fn name_ecu_instance() {
    let name = Name::from(0b1000111100000000111111110000011100000000000111111111111111111111u64);
    assert_eq!(name.ecu_instance(), 0b111);
}

#[test]
fn name_manufacturer_code() {
    let name = Name::from(0b1000111100000000111111110000011100000000000111111111111111111111u64);
    assert_eq!(name.manufacturer_code(), 0);
}

#[test]
fn name_identity_number() {
    let name = Name::from(0b1000111100000000111111110000011100000000000111111111111111111111u64);
    assert_eq!(name.identity_number(), 0b111111111111111111111);
}

#[test]
fn name_default() {
    assert_eq!(Name::default(), Name::from(0u64));
}

#[test]
fn name_from_u64() {
    let name = Name::from(0b1000111100000000111111110000011100000000000111111111111111111111u64);
    assert_eq!(
        name,
        Name::from(0b1000111100000000111111110000011100000000000111111111111111111111u64)
    );
}

#[test]
fn name_from_u8_arr() {
    let array: &[u8] = &[
        0b11111111u8,
        0b11111111u8,
        0b00011111u8,
        0b00000000u8,
        0b00000111u8,
        0b11111111u8,
        0b00000000u8,
        0b10001111u8,
    ];
    let name = Name::from_bytes(array);
    assert_eq!(
        name,
        Name::from(0b1000111100000000111111110000011100000000000111111111111111111111u64)
    );
}

#[test]
fn u64_from_name() {
    let name: Name = Name::from(0b1000111100000000111111110000011100000000000111111111111111111111u64);
    assert_eq!(
        u64::from(name),
        0b1000111100000000111111110000011100000000000111111111111111111111u64
    );
}

#[test]
fn u8_arr_from_name() {
    let name: Name = Name::from(0b1000111100000000111111110000011100000000000111111111111111111111u64);
    assert_eq!(
        name.as_vec(),
        vec![
            0b11111111u8,
            0b11111111u8,
            0b00011111u8,
            0b00000000u8,
            0b00000111u8,
            0b11111111u8,
            0b00000000u8,
            0b10001111u8
        ]
    );
}

#[test]
fn name_le_bytes_round_trip() {
    let name = Name::builder()
        .has_self_configurable_address(true)
        .industry_group(2)
        .device_class(25)
        .function(128)
        .manufacturer_code(1407)
        .ecu_instance(1)
        .identity_number(0x12345)
        .build();
    let bytes = name.as_vec();
    assert_eq!(Name::from_bytes(bytes.as_slice()), name);
}

#[test]
fn name_builder_fields_round_trip() {
    let name = Name::builder()
        .has_self_configurable_address(false)
        .industry_group(5)
        .device_class_instance(9)
        .device_class(0x55)
        .function(200)
        .function_instance(17)
        .ecu_instance(6)
        .manufacturer_code(0x5AA)
        .identity_number(0x1ABCDE)
        .build();
    assert_eq!(name.has_self_configurable_address(), false);
    assert_eq!(name.industry_group(), 5);
    assert_eq!(name.device_class_instance(), 9);
    assert_eq!(name.device_class(), 0x55);
    assert_eq!(name.function(), 200);
    assert_eq!(name.function_instance(), 17);
    assert_eq!(name.ecu_instance(), 6);
    assert_eq!(name.manufacturer_code(), 0x5AA);
    assert_eq!(name.identity_number(), 0x1ABCDE);
}
