use open_isobus::CanFrame;
use open_isobus::Name;
use open_isobus::EtpAbortReasons;
use open_isobus::IsobusAddress;
use open_isobus::KeyActivationCode;
use open_isobus::LanguageSettings;
use open_isobus::objects::NumberVariable;
use open_isobus::Object;
use open_isobus::ObjectId;
use open_isobus::ObjectPool;
use open_isobus::ObjectType;
use open_isobus::TpAbortReasons;
use open_isobus::VTStatusMessage;
use open_isobus::VTVersion;
use open_isobus::PDU;
use open_isobus::PGN;

#[test]
fn pdu_vt_to_ecu_raw_id() {
    // Priority 5 in bits 26..=28, PF 230 in bits 16..=23, PS 0x80, SA 0x26.
    let pdu = PDU::new(5, 0, 0, 230, 0x80, 0x26, vec![0x01, 0x02]);
    assert_eq!(pdu.id().as_raw(), 0x14E68026);
}

#[test]
fn pdu_frame_round_trip() {
    let pdu = PDU::new(5, 0, 0, 230, 0x80, 0x26, vec![0x01, 0x02]);
    let frame: CanFrame = pdu.to_frame();
    let back = PDU::from_frame(&frame);
    assert_eq!(back.priority(), 5);
    assert_eq!(back.extended_data_page(), 0);
    assert_eq!(back.data_page(), 0);
    assert_eq!(back.pdu_format(), 230);
    assert_eq!(back.pdu_specific(), 0x80);
    assert_eq!(back.source_address(), IsobusAddress(0x26));
    assert_eq!(back.data_raw(), &[0x01, 0x02]);
}

#[test]
fn pdu_frame_round_trip_all_fields_set() {
    let pdu = PDU::new(7, 1, 1, 0xFE, 0xD8, 0xFD, vec![1, 2, 3, 4, 5, 6, 7, 8]);
    let back = PDU::from_frame(&pdu.to_frame());
    assert_eq!(back.priority(), 7);
    assert_eq!(back.extended_data_page(), 1);
    assert_eq!(back.data_page(), 1);
    assert_eq!(back.pdu_format(), 0xFE);
    assert_eq!(back.pdu_specific(), 0xD8);
    assert_eq!(back.source_address(), IsobusAddress(0xFD));
    assert_eq!(back.data_raw(), &[1, 2, 3, 4, 5, 6, 7, 8]);
}

#[test]
fn pgn_extraction_pdu1_drops_specific_byte() {
    // A destination-specific PDU: the PGN is (EDP<<17)|(DP<<16)|(PF<<8).
    let pdu = PDU::new(6, 0, 1, 230, 0x80, 0x26, vec![]);
    assert_eq!(pdu.pgn().as_u32(), (1 << 16) | (230 << 8));
}

#[test]
fn pgn_extraction_pdu2_keeps_group_extension() {
    // A broadcast PDU: the PGN also folds in the PDU-specific byte.
    let pdu = PDU::new(6, 1, 0, 254, 0x0D, 0x26, vec![]);
    assert_eq!(pdu.pgn().as_u32(), (1 << 17) | (254 << 8) | 0x0D);
}

#[test]
fn pgn_bytes_round_trip() {
    let pgn = PGN::new(0x00EE00);
    let bytes = pgn.as_bytes();
    assert_eq!(bytes, [0x00, 0xEE, 0x00]);
    assert_eq!(PGN::from_le_bytes(bytes).as_u32(), 0x00EE00);
}

#[test]
fn pgn_predicates() {
    assert!(PGN::new(0xEA00).is_request());
    assert!(PGN::new(0xEE00).is_address_claimed());
    assert!(PGN::new(0xFED8).is_commanded_address());
    assert!(PGN::new(0xEC00).is_tp_cm());
    assert!(PGN::new(0xEB00).is_tp_dt());
    assert!(PGN::new(0xC800).is_etp_cm());
    assert!(PGN::new(0xC700).is_etp_dt());
    assert!(PGN::new(0xE600).is_vt_to_ecu());
    assert!(PGN::new(0xE700).is_ecu_to_vt());
    assert!(PGN::new(0xFE0F).is_language_command());
    assert!(PGN::new(0xFEE6).is_time_date());
    assert!(PGN::new(0xFE0D).is_working_set_master());
    assert!(PGN::new(0xFE0C).is_working_set_member());
}

#[test]
fn frame_truncates_to_eight_bytes() {
    let pdu = PDU::new(3, 0, 0, 200, 1, 2, vec![0; 12]);
    let frame = pdu.to_frame();
    assert_eq!(frame.dlc(), 8);
    assert_eq!(frame.data().len(), 8);
}

#[test]
fn address_predicates() {
    let directed = PDU::new(6, 0, 0, 230, 0x80, 0x26, vec![]);
    assert!(directed.is_pdu1());
    assert!(directed.is_address_specific(IsobusAddress(0x80)));
    assert!(!directed.is_address_global());
    let broadcast = PDU::new(6, 0, 0, 254, 0x0D, 0x26, vec![]);
    assert!(broadcast.is_pdu2());
    assert!(broadcast.is_address_global());
    let to_null = PDU::new(6, 0, 0, 230, 0xFE, 0x26, vec![]);
    assert!(to_null.is_address_null());
}

#[test]
fn abort_reason_codes_round_trip() {
    assert_eq!(TpAbortReasons::from_u8(3), TpAbortReasons::Timeout);
    assert_eq!(TpAbortReasons::Timeout.as_u8(), 3);
    assert_eq!(TpAbortReasons::from_u8(77), TpAbortReasons::Other);
    assert_eq!(EtpAbortReasons::from_u8(1), EtpAbortReasons::AlreadyConnected);
    assert_eq!(EtpAbortReasons::Other.as_u8(), 250);
}

#[test]
fn key_activation_and_version_codes() {
    assert_eq!(KeyActivationCode::from_u8(1), KeyActivationCode::Pressed);
    assert_eq!(KeyActivationCode::from_u8(9), KeyActivationCode::Aborted);
    assert_eq!(VTVersion::from_u8(3), VTVersion::V3);
    assert_eq!(VTVersion::from_u8(7), VTVersion::V2);
    assert_eq!(VTVersion::V2.as_u8(), 255);
}

#[test]
fn vt_status_message_round_trip() {
    let msg = VTStatusMessage {
        active_working_set: IsobusAddress(0x80),
        data_alarm_mask: ObjectId(0x1234),
        soft_key_mask: ObjectId(0x5678),
        vt_busy_code: 0x04,
        vt_function_code: 0xFE,
    };
    let bytes = msg.to_bytes();
    assert_eq!(bytes, vec![254, 0x80, 0x34, 0x12, 0x78, 0x56, 0x04, 0xFE]);
    assert_eq!(VTStatusMessage::from_bytes(&bytes), msg);
}

#[test]
fn language_settings_from_data() {
    let data: [u8; 8] = [0x65, 0x6E, 0b0000_0001, 2, 0b0000_0010, 0b0000_0011, 0xFF, 0xFF];
    let settings = LanguageSettings::from_data(&data);
    assert_eq!(settings.language_code(), &[0x65, 0x6E]);
    assert_eq!(settings.decimal_symbol().as_u8(), 0x01);
    assert_eq!(settings.date_format().as_u8(), 2);
    assert_eq!(settings.mass_units().as_u8(), 0b10);
    assert_eq!(settings.units_system().as_u8(), 0b11);
}

#[test]
fn language_settings_short_data_is_default() {
    let settings = LanguageSettings::from_data(&[1, 2, 3]);
    assert_eq!(settings.language_code(), b"nl");
    assert_eq!(settings.decimal_symbol().as_u8(), 0);
}

#[test]
fn object_number_variable_round_trip() {
    // id 0x0101, type 21, value 0xDDCCBBAA little-endian.
    let bytes: Vec<u8> = vec![0x01, 0x01, 21, 0xAA, 0xBB, 0xCC, 0xDD];
    let mut pos: usize = 0;
    let obj = Object::read(&bytes, &mut pos).expect("number variable parses");
    assert_eq!(pos, bytes.len());
    assert_eq!(obj.id(), ObjectId(0x0101));
    assert_eq!(obj.object_type(), ObjectType::NumberVariable);
    match &obj {
        Object::NumberVariable(v) => assert_eq!(v.value, 0xDDCCBBAA),
        _ => panic!("wrong variant"),
    }
    assert_eq!(obj.write(), bytes);
}

#[test]
fn object_working_set_round_trip() {
    // id 1000, type 0, colour 7, selectable, active mask 2000, one child
    // reference at (-1, 2), one macro reference, no language codes.
    let bytes: Vec<u8> = vec![
        0xE8, 0x03, 0, 7, 1, 0xD0, 0x07, 1, 1, 0, 0xD1, 0x07, 0xFF, 0xFF, 0x02, 0x00, 0x05,
        0x0A,
    ];
    let mut pos: usize = 0;
    let obj = Object::read(&bytes, &mut pos).expect("working set parses");
    assert_eq!(pos, bytes.len());
    assert_eq!(obj.object_type(), ObjectType::WorkingSet);
    match &obj {
        Object::WorkingSet(ws) => {
            assert_eq!(ws.id, ObjectId(1000));
            assert_eq!(ws.background_colour, 7);
            assert!(ws.selectable);
            assert_eq!(ws.active_mask, ObjectId(2000));
            assert_eq!(ws.object_refs.len(), 1);
            assert_eq!(ws.object_refs[0].id, ObjectId(2001));
            assert_eq!(ws.object_refs[0].offset.x, -1);
            assert_eq!(ws.object_refs[0].offset.y, 2);
            assert_eq!(ws.macro_refs.len(), 1);
            assert_eq!(ws.macro_refs[0].event_id, 5);
            assert_eq!(ws.macro_refs[0].macro_id, 10);
        },
        _ => panic!("wrong variant"),
    }
    assert_eq!(obj.write(), bytes);
}

#[test]
fn object_read_stops_on_short_input() {
    let bytes: Vec<u8> = vec![0x01, 0x01, 21, 0xAA];
    let mut pos: usize = 0;
    assert!(Object::read(&bytes, &mut pos).is_none());
}

#[test]
fn object_read_stops_on_unknown_tag() {
    let bytes: Vec<u8> = vec![0x01, 0x01, 200, 0, 0, 0, 0];
    let mut pos: usize = 0;
    assert!(Object::read(&bytes, &mut pos).is_none());
}

#[test]
fn object_pool_stream_round_trip() {
    let mut stream: Vec<u8> = Vec::new();
    stream.extend_from_slice(&[0x01, 0x00, 21, 0x2A, 0, 0, 0]);
    stream.extend_from_slice(&[0x02, 0x00, 27, 0x01, 0x00]);
    let pool = ObjectPool::from_iop(&stream);
    assert_eq!(pool.as_iop(), stream);
    assert!(pool.object_by_id(ObjectId(1)).is_some());
    assert!(pool.object_by_id(ObjectId(2)).is_some());
    assert!(pool.object_by_id(ObjectId(3)).is_none());
    assert_eq!(pool.objects_by_type(ObjectType::NumberVariable).len(), 1);
}

#[test]
fn object_pool_size_matches_stream() {
    let mut pool = ObjectPool::new();
    pool.add(Object::NumberVariable(open_isobus::objects::NumberVariable {
        id: ObjectId(7),
        value: 99,
    }));
    assert_eq!(pool.size(), 7);
}

#[test]
fn commanded_address_predicate() {
    let pdu = PDU::new_commanded_address(IsobusAddress(0x26));
    assert!(pdu.is_commanded_address());
    assert_eq!(pdu.pgn().as_u32(), 0xFED8);
}

#[test]
fn request_for_address_claimed_predicate() {
    let pdu = PDU::new_request_for_address_claimed(IsobusAddress(0xFF), IsobusAddress(0xFE));
    assert!(pdu.is_request_for_address_claimed());
    assert_eq!(pdu.pgn().as_u32(), 0xEA00);
    assert_eq!(pdu.data_raw(), &[0x00, 0xEE, 0x00]);
}

#[test]
fn pdu_data_pads_with_ff() {
    let pdu = PDU::new(6, 0, 0, 230, 0x80, 0x26, vec![1, 2, 3]);
    assert_eq!(pdu.data(8), vec![1, 2, 3, 0xFF, 0xFF, 0xFF, 0xFF, 0xFF]);
    assert_eq!(pdu.data_len(), 3);
}

#[test]
fn pdu_from_pgn_builds_known_messages() {
    let request = PDU::from_pgn(PGN::new(0xEA00), IsobusAddress(0x26), vec![0x00, 0xEE, 0x00])
        .expect("a request can be built");
    assert!(request.is_request_for_address_claimed());
    let claim = PDU::from_pgn(
        PGN::new(0xEE00),
        IsobusAddress(0x80),
        Name::from(0x1234u64).as_vec(),
    )
    .expect("a claim can be built");
    assert!(claim.is_address_claimed());
    assert!(PDU::from_pgn(PGN::new(0xE600), IsobusAddress(0x26), vec![]).is_none());
}

#[test]
fn name_from_bytes_ignores_extra_bytes() {
    let long: Vec<u8> = vec![1, 0, 0, 0, 0, 0, 0, 0, 0xAA, 0xBB];
    assert_eq!(Name::from_bytes(&long), Name::from(1u64));
    assert_eq!(Name::from_bytes(&[2]), Name::from(2u64));
}

#[test]
fn object_lookup_finds_the_first_of_equal_ids() {
    // Objects added out of id order; a duplicated id resolves to the
    // object inserted first.
    let mut pool = ObjectPool::new();
    pool.add(Object::NumberVariable(NumberVariable { id: ObjectId(9), value: 1 }));
    pool.add(Object::NumberVariable(NumberVariable { id: ObjectId(3), value: 2 }));
    pool.add(Object::NumberVariable(NumberVariable { id: ObjectId(9), value: 3 }));
    pool.add(Object::NumberVariable(NumberVariable { id: ObjectId(1), value: 4 }));
    match pool.object_by_id(ObjectId(9)) {
        Some(Object::NumberVariable(nv)) => assert_eq!(nv.value, 1),
        _ => panic!("expected the first object with id 9"),
    }
    match pool.object_by_id(ObjectId(1)) {
        Some(Object::NumberVariable(nv)) => assert_eq!(nv.value, 4),
        _ => panic!("expected the object with id 1"),
    }
    assert!(pool.object_by_id(ObjectId(2)).is_none());
}

#[test]
fn change_active_mask_command_bytes() {
    let data = open_isobus::ChangeActiveMaskCommand {
        working_set_id: ObjectId(0x03E8),
        mask_id: ObjectId(0x07D0),
    };
    let pdu = PDU::new_change_active_mask_command(IsobusAddress(0x26), IsobusAddress(0x80), data);
    assert_eq!(pdu.data(8), vec![173, 0xE8, 0x03, 0xD0, 0x07, 0xFF, 0xFF, 0xFF]);
}

#[test]
fn change_string_value_command_bytes() {
    let data = open_isobus::ChangeStringValueCommand { id: ObjectId(0x0102), value: vec![b'a', b'b'] };
    let pdu = PDU::new_change_string_value_command(IsobusAddress(0x26), IsobusAddress(0x80), data);
    assert_eq!(pdu.data(8), vec![179, 0x02, 0x01, 2, 0, b'a', b'b', 0xFF]);
}
