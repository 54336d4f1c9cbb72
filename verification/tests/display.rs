use openvr::display::{bits_enum_text, simple_enum_text, Flag};

const KEYBOARD: [Flag; 4] = [
    Flag { name: "Minimal", value: 1 },
    Flag { name: "Modal", value: 2 },
    Flag { name: "ShowArrowKeys", value: 4 },
    Flag { name: "HideDoneKey", value: 8 },
];

const RADIO: [Flag; 4] = [
    Flag { name: "None", value: 0 },
    Flag { name: "HTCLinkBox", value: 1 },
    Flag { name: "InternalDongle", value: 2 },
    Flag { name: "ExternalDongle", value: 4 },
];

#[test]
fn simple_text_of_a_named_value_shows_the_type() {
    assert_eq!(simple_enum_text("Eye", &[0, 1], 1), "Eye(Eye)");
    assert_eq!(simple_enum_text("Eye", &[0, 1], 0), "Eye(Eye)");
    assert_eq!(simple_enum_text("TextureType", &[-1, 0, 1], -1), "TextureType(TextureType)");
}

#[test]
fn simple_text_of_another_value_shows_the_number() {
    assert_eq!(simple_enum_text("Eye", &[0, 1], 5), "Eye(5)");
    assert_eq!(simple_enum_text("Eye", &[0, 1], -1), "Eye(-1)");
    assert_eq!(simple_enum_text("Eye", &[], 0), "Eye(0)");
    assert_eq!(simple_enum_text("InitError", &[0, 1, 100], 4294967295), "InitError(4294967295)");
    assert_eq!(
        simple_enum_text("E", &[0], i64::MIN),
        "E(-9223372036854775808)"
    );
}

#[test]
fn bits_text_of_every_flag() {
    assert_eq!(bits_enum_text("KeyboardFlags", &KEYBOARD, u32::MAX), "KeyboardFlags(All)");
    assert_eq!(bits_enum_text("Nothing", &[], u32::MAX), "Nothing(All)");
}

#[test]
fn bits_text_of_zero_without_a_name() {
    assert_eq!(bits_enum_text("KeyboardFlags", &KEYBOARD, 0), "KeyboardFlags(0)");
    assert_eq!(bits_enum_text("Nothing", &[], 0), "Nothing(0)");
}

#[test]
fn bits_text_of_zero_with_a_name() {
    assert_eq!(
        bits_enum_text("AdditionalRadioFeatures", &RADIO, 0),
        "AdditionalRadioFeatures(None)"
    );
    let two = [
        Flag { name: "A", value: 1 },
        Flag { name: "Off", value: 0 },
        Flag { name: "Idle", value: 0 },
    ];
    assert_eq!(bits_enum_text("T", &two, 0), "T(Off)");
}

#[test]
fn bits_text_lists_the_flags() {
    assert_eq!(bits_enum_text("KeyboardFlags", &KEYBOARD, 1), "KeyboardFlags(Minimal)");
    assert_eq!(bits_enum_text("KeyboardFlags", &KEYBOARD, 3), "KeyboardFlags(Minimal | Modal)");
    assert_eq!(
        bits_enum_text("KeyboardFlags", &KEYBOARD, 15),
        "KeyboardFlags(Minimal | Modal | ShowArrowKeys | HideDoneKey)"
    );
    assert_eq!(bits_enum_text("KeyboardFlags", &KEYBOARD, 12), "KeyboardFlags(ShowArrowKeys | HideDoneKey)");
}

#[test]
fn bits_text_leaves_the_zero_flag_out_of_the_list() {
    assert_eq!(
        bits_enum_text("AdditionalRadioFeatures", &RADIO, 6),
        "AdditionalRadioFeatures(InternalDongle | ExternalDongle)"
    );
}

#[test]
fn bits_text_shows_the_rest_in_hexadecimal() {
    assert_eq!(
        bits_enum_text("KeyboardFlags", &KEYBOARD, 0x13),
        "KeyboardFlags(Minimal | Modal |     0x10)"
    );
    assert_eq!(
        bits_enum_text("KeyboardFlags", &KEYBOARD, 0x8000_0001),
        "KeyboardFlags(Minimal | 0x80000000)"
    );
    assert_eq!(
        bits_enum_text("KeyboardFlags", &KEYBOARD, 0xabcd_e0),
        "KeyboardFlags( | 0xabcde0)"
    );
}

#[test]
fn bits_text_of_a_rest_alone_starts_with_the_separator() {
    assert_eq!(bits_enum_text("KeyboardFlags", &KEYBOARD, 0x10), "KeyboardFlags( |     0x10)");
    assert_eq!(bits_enum_text("Nothing", &[], 1), "Nothing( |      0x1)");
}

#[test]
fn bits_text_goes_through_the_flags_in_order() {
    let wide_first = [Flag { name: "Both", value: 3 }, Flag { name: "Low", value: 1 }];
    assert_eq!(bits_enum_text("T", &wide_first, 3), "T(Both)");
    assert_eq!(bits_enum_text("T", &wide_first, 1), "T(Low)");
    let narrow_first = [Flag { name: "Low", value: 1 }, Flag { name: "Both", value: 3 }];
    assert_eq!(bits_enum_text("T", &narrow_first, 3), "T(Low |      0x2)");
    let twice = [Flag { name: "A", value: 4 }, Flag { name: "B", value: 4 }];
    assert_eq!(bits_enum_text("T", &twice, 4), "T(A)");
}

#[test]
fn bits_text_separates_even_an_empty_name() {
    let unnamed = [Flag { name: "", value: 1 }, Flag { name: "B", value: 2 }];
    assert_eq!(bits_enum_text("T", &unnamed, 3), "T( | B)");
    assert_eq!(bits_enum_text("T", &unnamed, 1), "T()");
}
