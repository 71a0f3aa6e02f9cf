use ear_api::bluetooth::{next_available_rfcomm_name, rfcomm_path};
use ear_api::connection::next_operation_id;
use ear_api::models::{derive_sku_from_serial, model_from_id, model_from_sku};
use ear_api::serial::parse_serial_number;
use ear_api::session::{apply_serial_detection, detect_serial_request, get_custom_eq_request,
    get_personalized_anc_request, launch_ear_fit_command, match_anc_reply, match_battery_reply,
    match_ear_fit_reply, match_eq_reply, match_firmware_reply, match_in_ear_reply,
    match_latency_reply, match_personalized_anc_reply, read_anc_request, read_battery_request,
    read_ear_fit_request, read_enhanced_bass_request, read_in_ear_request,
    read_led_case_request, ring_command, set_anc_command, set_enhanced_bass_command,
    set_eq_mode_command, set_gesture_command, set_in_ear_detection_command, set_latency_command,
    set_led_case_command, set_personalized_anc_command, ModelDescriptor};
use ear_api::{AncLevel, BatteryReading, EarError, EarPacket, EarSide, GestureSlot, LedColor,
    LedColorSet, ModelBase};

fn packet(command: u16, payload: &[u8]) -> EarPacket {
    EarPacket { command, operation_id: 1, payload: payload.to_vec() }
}

#[test]
fn anc_level_device_codes_round_trip() {
    let levels = [
        AncLevel::Off,
        AncLevel::Transparency,
        AncLevel::NoiseCancellationLow,
        AncLevel::NoiseCancellationHigh,
        AncLevel::NoiseCancellationMid,
        AncLevel::NoiseCancellationAdaptive,
    ];
    for level in levels {
        assert_eq!(AncLevel::from_device(level.to_device()), Some(level));
    }
    assert_eq!(AncLevel::Off.to_device(), 0x05);
    assert_eq!(AncLevel::from_device(0x42), None);
}

#[test]
fn sku_derivation_known_serials() {
    assert_eq!(derive_sku_from_serial("12345678901234567").as_deref(), Some("01"));
    assert_eq!(derive_sku_from_serial("MAxxxx22xxx").as_deref(), Some("14"));
    assert_eq!(derive_sku_from_serial("MAxxxx23xxx").as_deref(), Some("14"));
    assert_eq!(derive_sku_from_serial("MAxxxx24xxx").as_deref(), Some("11200005"));
    assert_eq!(derive_sku_from_serial("SHxx12yyyy").as_deref(), Some("12"));
    assert_eq!(derive_sku_from_serial("13xx42yyyy").as_deref(), Some("42"));
}

#[test]
fn sku_derivation_failures() {
    assert_eq!(derive_sku_from_serial("MAx22"), None); // shorter than 6
    assert_eq!(derive_sku_from_serial("MAxxxx25xxx"), None); // unknown year
    assert_eq!(derive_sku_from_serial("MAxxxx2"), None); // too short for the year
    assert_eq!(derive_sku_from_serial("XYxx12yyyy"), None); // unknown prefix
}

#[test]
fn model_catalog_lookups() {
    let stick = model_from_id("ear_stick").expect("catalog entry");
    assert_eq!(stick.base, ModelBase::B157);
    assert!(!stick.anc_capable);
    assert_eq!(stick.name, "Nothing Ear (stick)");
    assert!(model_from_id("submarine").is_none());

    let ear2 = model_from_sku("28").expect("SKU entry");
    assert_eq!(ear2.id, "ear_2_black");
    assert_eq!(ear2.base, ModelBase::B155);
    let open = model_from_sku("11200005").expect("SKU entry");
    assert_eq!(open.id, "flaaffy_white");
    assert_eq!(open.base, ModelBase::B174);
    assert!(model_from_sku("99").is_none());
}

#[test]
fn model_base_codes() {
    assert_eq!(ModelBase::from_code("B172"), ModelBase::B172);
    assert_eq!(ModelBase::from_code("what"), ModelBase::Unknown);
    assert_eq!(ModelBase::B181.as_str(), "B181");
    assert_eq!(ModelBase::Unknown.as_str(), "UNKNOWN");
}

#[test]
fn operation_ids_cycle_and_never_hit_zero() {
    assert_eq!(next_operation_id(1), 2);
    assert_eq!(next_operation_id(249), 250);
    assert_eq!(next_operation_id(250), 1);
    assert_eq!(next_operation_id(255), 1);
    let mut id: u8 = 1;
    let mut seen = Vec::new();
    for _ in 0..500 {
        id = next_operation_id(id);
        assert_ne!(id, 0);
        assert!((1..=250).contains(&id));
        seen.push(id);
    }
    assert_eq!(seen[..5], [2, 3, 4, 5, 6]);
    assert_eq!(seen[248], 250);
    assert_eq!(seen[249], 1);
}

#[test]
fn unsupported_operations_are_gated() {
    match set_anc_command(ModelBase::B157, AncLevel::Off) {
        Err(EarError::Unsupported(label)) => assert_eq!(label, "ANC write"),
        other => panic!("expected Unsupported, got {:?}", other),
    }
    match read_anc_request(ModelBase::B157) {
        Err(EarError::Unsupported(label)) => assert_eq!(label, "ANC read"),
        other => panic!("expected Unsupported, got {:?}", other),
    }
    assert!(matches!(
        get_custom_eq_request(ModelBase::B181),
        Err(EarError::Unsupported("custom EQ"))
    ));
    assert!(matches!(
        get_personalized_anc_request(ModelBase::B157),
        Err(EarError::Unsupported("personalized ANC"))
    ));
    assert!(matches!(
        read_enhanced_bass_request(ModelBase::B155),
        Err(EarError::Unsupported("enhanced bass"))
    ));
    assert!(matches!(
        read_in_ear_request(ModelBase::B174),
        Err(EarError::Unsupported("in-ear detection"))
    ));
    assert!(matches!(
        read_led_case_request(ModelBase::B157),
        Err(EarError::Unsupported("case led color"))
    ));

    // The same operations pass on a family that has the capability.
    assert!(set_anc_command(ModelBase::B155, AncLevel::Off).is_ok());
    assert!(get_custom_eq_request(ModelBase::B155).is_ok());
    assert!(get_personalized_anc_request(ModelBase::B155).is_ok());
    assert!(read_enhanced_bass_request(ModelBase::B171).is_ok());
    assert!(read_in_ear_request(ModelBase::B155).is_ok());
    assert!(read_led_case_request(ModelBase::B181).is_ok());
}

#[test]
fn request_builders_use_table_commands() {
    assert_eq!(detect_serial_request().command, 0xC006);
    assert_eq!(read_battery_request().command, 0xC007);
    assert!(read_battery_request().payload.is_empty());
    let anc = read_anc_request(ModelBase::B155).unwrap();
    assert_eq!(anc.command, 0xC01E);
    let set = set_anc_command(ModelBase::B155, AncLevel::Transparency).unwrap();
    assert_eq!(set.command, 0xF00F);
    assert_eq!(set.payload, vec![0x01, 0x07, 0x00]);
    let eq = set_eq_mode_command(5);
    assert_eq!(eq.command, 0xF010);
    assert_eq!(eq.payload, vec![5, 0]);
    assert_eq!(launch_ear_fit_command().command, 0xF014);
    assert_eq!(launch_ear_fit_command().payload, vec![0x01]);
    assert_eq!(read_ear_fit_request().payload, vec![0x00]);
    let gesture = set_gesture_command(&GestureSlot { device: 2, common: 3, gesture_type: 4, action: 5 });
    assert_eq!(gesture.command, 0xF003);
    assert_eq!(gesture.payload, vec![0x01, 2, 3, 4, 5]);
    let latency_on = set_latency_command(true);
    assert_eq!(latency_on.command, 0xF040);
    assert_eq!(latency_on.payload, vec![0x01, 0x00]);
    assert_eq!(set_latency_command(false).payload, vec![0x02, 0x00]);
    let in_ear = set_in_ear_detection_command(ModelBase::B155, false).unwrap();
    assert_eq!(in_ear.command, 0xF004);
    assert_eq!(in_ear.payload, vec![0x01, 0x01, 0x00]);
    let pers = set_personalized_anc_command(ModelBase::B155, true).unwrap();
    assert_eq!(pers.command, 0xF011);
    assert_eq!(pers.payload, vec![0x01]);
}

#[test]
fn enhanced_bass_level_saturates() {
    let cmd = set_enhanced_bass_command(ModelBase::B171, true, 100).unwrap();
    assert_eq!(cmd.command, 0xF051);
    assert_eq!(cmd.payload, vec![0x01, 200]);
    let saturated = set_enhanced_bass_command(ModelBase::B171, false, 200).unwrap();
    assert_eq!(saturated.payload, vec![0x00, 255]);
}

#[test]
fn reply_matchers_decode_payloads() {
    let battery = match_battery_reply(&packet(0xE001, &[1, 0x02, 0x80 | 9]))
        .expect("battery reply accepted");
    assert_eq!(battery.left, BatteryReading::Level { percent: 9, charging: true });
    assert!(match_battery_reply(&packet(0x4006, &[1, 0x02, 9])).is_none());
    assert!(match_battery_reply(&packet(0x4007, &[])).is_some());

    assert_eq!(match_anc_reply(&packet(0xE003, &[0, 0x07])), Some(AncLevel::Transparency));
    assert_eq!(match_anc_reply(&packet(0x401E, &[0, 0x05])), Some(AncLevel::Off));
    assert_eq!(match_anc_reply(&packet(0x401E, &[0])), None);
    assert_eq!(match_anc_reply(&packet(0x401E, &[0, 0x66])), None);

    let eq = match_eq_reply(&packet(0x401F, &[9])).expect("eq reply accepted");
    assert_eq!(eq.mode, 9);
    assert!(match_eq_reply(&packet(0x4050, &[4])).is_some());
    assert!(match_eq_reply(&packet(0x4042, &[4])).is_none());

    let in_ear = match_in_ear_reply(&packet(0x400E, &[0, 0, 1])).unwrap();
    assert!(in_ear.detection_enabled);
    assert!(match_in_ear_reply(&packet(0x400E, &[0, 0])).is_none());

    let latency = match_latency_reply(&packet(0x4041, &[1])).unwrap();
    assert!(latency.low_latency_enabled);

    let pers = match_personalized_anc_reply(&packet(0x4020, &[1])).unwrap();
    assert!(pers.enabled);

    let fit = match_ear_fit_reply(&packet(0xE00D, &[2, 3])).unwrap();
    assert_eq!((fit.left, fit.right), (2, 3));
    let fit_short = match_ear_fit_reply(&packet(0xE00D, &[])).unwrap();
    assert_eq!((fit_short.left, fit_short.right), (0, 0));
}

#[test]
fn firmware_version_is_trimmed_text() {
    let info = match_firmware_reply(&packet(0x4042, b"  1.0.3\t ")).expect("firmware reply");
    assert_eq!(info.version, "1.0.3");
    assert!(match_firmware_reply(&packet(0x4041, b"1.0.3")).is_none());
}

#[test]
fn serial_parser_finds_the_marked_record() {
    let mut payload = vec![0u8; 7];
    payload.extend_from_slice(b"junk\nx,9,NOPE\nx,4, SN123 \nother");
    assert_eq!(parse_serial_number(&payload).as_deref(), Some("SN123"));

    // No record with a second field of "4".
    let mut no_match = vec![0u8; 7];
    no_match.extend_from_slice(b"x,9,NOPE\na,b");
    assert_eq!(parse_serial_number(&no_match), None);

    // Too short to even hold the prefix.
    assert_eq!(parse_serial_number(b"abc"), None);
}

#[test]
fn serial_parser_decodes_invalid_utf8_lossily() {
    let mut payload = vec![0u8; 7];
    payload.extend_from_slice(b"x,4,AB\xFFCD");
    assert_eq!(parse_serial_number(&payload).as_deref(), Some("AB\u{FFFD}CD"));
}

#[test]
fn serial_detection_updates_the_descriptor_and_unlocks_gating() {
    let mut payload = vec![0u8; 7];
    payload.extend_from_slice(b"x,4,SH0128AA");
    let mut model: Option<ModelDescriptor> = None;
    let identity = apply_serial_detection(&mut model, &payload);
    assert_eq!(identity.serial_number.as_deref(), Some("SH0128AA"));
    assert_eq!(identity.sku.as_deref(), Some("28"));
    assert_eq!(identity.model_id.as_deref(), Some("ear_2_black"));
    let descriptor = model.expect("descriptor installed");
    assert_eq!(descriptor.base, ModelBase::B155);
    assert_eq!(descriptor.model_id.as_deref(), Some("ear_2_black"));
    assert_eq!(descriptor.name.as_deref(), Some("Nothing Ear (2)"));
    assert_eq!(descriptor.sku.as_deref(), Some("28"));
    assert_eq!(descriptor.serial.as_deref(), Some("SH0128AA"));

    // The personalized-ANC read is permitted on the detected family.
    assert!(get_personalized_anc_request(descriptor.base).is_ok());
}

#[test]
fn serial_detection_without_model_leaves_descriptor_alone() {
    let mut payload = vec![0u8; 7];
    payload.extend_from_slice(b"x,4,XY999999");
    let mut model: Option<ModelDescriptor> = None;
    let identity = apply_serial_detection(&mut model, &payload);
    assert_eq!(identity.serial_number.as_deref(), Some("XY999999"));
    assert_eq!(identity.sku, None);
    assert_eq!(identity.model_id, None);
    assert!(model.is_none());
}

#[test]
fn unknown_model_selection_is_rejected() {
    match ear_api::session::model_descriptor_from_id("submarine") {
        Err(EarError::UnknownModel) => {}
        other => panic!("expected UnknownModel, got {:?}", other),
    }
    let descriptor = ear_api::session::model_descriptor_from_sku("28", None).unwrap();
    assert_eq!(descriptor.base, ModelBase::B155);
    assert_eq!(descriptor.sku.as_deref(), Some("28"));
    let summary = descriptor.summary();
    assert_eq!(summary.base, ModelBase::B155);
    assert_eq!(summary.id.as_deref(), Some("ear_2_black"));
}

#[test]
fn ring_payload_depends_on_family() {
    let other = ring_command(ModelBase::B155, true, Some(EarSide::Left));
    assert_eq!(other.command, 0xF002);
    assert_eq!(other.payload, vec![0x02, 0x01]);
    assert_eq!(ring_command(ModelBase::B155, true, Some(EarSide::Right)).payload, vec![0x03, 0x01]);
    assert_eq!(ring_command(ModelBase::B155, false, None).payload, vec![0x03, 0x00]);

    let b181 = ring_command(ModelBase::B181, true, Some(EarSide::Left));
    assert_eq!(b181.payload, vec![0x01]);
    assert_eq!(ring_command(ModelBase::B181, false, None).payload, vec![0x00]);
}

#[test]
fn led_case_write_numbers_the_pixels() {
    let colors = LedColorSet {
        pixels: vec![LedColor([10, 20, 30]), LedColor([40, 50, 60])],
    };
    let cmd = set_led_case_command(ModelBase::B181, &colors).unwrap();
    assert_eq!(cmd.command, 0xF00D);
    assert_eq!(cmd.payload, vec![2, 1, 10, 20, 30, 2, 40, 50, 60]);
}

#[test]
fn rfcomm_paths_and_free_names() {
    assert_eq!(rfcomm_path("rfcomm3"), "/dev/rfcomm3");
    assert_eq!(rfcomm_path("/dev/rfcomm3"), "/dev/rfcomm3");

    let mut taken = vec![true; 10];
    taken[2] = false;
    assert_eq!(next_available_rfcomm_name(&taken), "rfcomm2");
    assert_eq!(next_available_rfcomm_name(&vec![true; 10]), "rfcomm0");
    assert_eq!(next_available_rfcomm_name(&vec![false; 10]), "rfcomm0");
}

#[test]
fn error_http_status_mapping() {
    assert_eq!(EarError::NoSession.http_status(), 404);
    assert_eq!(EarError::AlreadyConnected.http_status(), 409);
    assert_eq!(EarError::Detection("x".to_string()).http_status(), 400);
    assert_eq!(EarError::Unsupported("ANC read").http_status(), 400);
    assert_eq!(EarError::UnknownModel.http_status(), 400);
    assert_eq!(EarError::Timeout("battery").http_status(), 504);
    assert_eq!(EarError::CrcMismatch.http_status(), 500);
    assert_eq!(EarError::Io("gone".to_string()).http_status(), 500);
}

#[test]
fn display_labels() {
    assert_eq!(AncLevel::NoiseCancellationHigh.label(), "nc-high");
    assert_eq!(AncLevel::Off.label(), "off");
    assert_eq!(EarSide::Case.label(), "case");
    let descriptor = ModelDescriptor::default();
    assert_eq!(descriptor.base, ModelBase::Unknown);
    assert!(descriptor.model_id.is_none());
    assert!(descriptor.serial.is_none());
}
