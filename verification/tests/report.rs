use spacenav_bridge::report::{
    apply_report, classify, decode_axis, decode_field, scale, ReportKind, AXIS_BIAS, AXIS_GAIN,
    REPORT_BUTTONS, REPORT_LEN, REPORT_ROTATION, REPORT_TRANSLATION,
};
use spacenav_bridge::state::{JoystickState, AXIS_CEILING, AXIS_FLOOR};

fn fresh() -> JoystickState {
    JoystickState::new(1).expect("device one is a device")
}

/// A state in which every field holds a value of its own, so that a change
/// to any field shows.
fn marked() -> JoystickState {
    JoystickState {
        device: 1,
        throttle: 101,
        rudder: 102,
        aileron: 103,
        axis_x: 104,
        axis_y: 105,
        axis_z: 106,
        axis_x_rot: 107,
        axis_y_rot: 108,
        axis_z_rot: 109,
        slider: 110,
        dial: 111,
        wheel: 112,
        axis_vx: 113,
        axis_vy: 114,
        axis_vz: 115,
        axis_vbrx: 116,
        axis_vbry: 117,
        axis_vbrz: 118,
        buttons: 119,
        hats: 120,
        hats_ex1: 121,
        hats_ex2: 122,
        hats_ex3: 123,
        buttons_ex1: 124,
        buttons_ex2: 125,
        buttons_ex3: 126,
    }
}

#[test]
fn constants_are_those_of_the_device() {
    assert_eq!(REPORT_LEN, 7);
    assert_eq!(REPORT_TRANSLATION, 1);
    assert_eq!(REPORT_ROTATION, 2);
    assert_eq!(REPORT_BUTTONS, 3);
    assert_eq!(AXIS_GAIN, 47);
    assert_eq!(AXIS_BIAS, 16383);
    assert_eq!(AXIS_BIAS, i16::MAX as i32 / 2);
}

#[test]
fn scale_gives_exact_values() {
    assert_eq!(scale(0), 16383);
    assert_eq!(scale(1), 16430);
    assert_eq!(scale(-1), 16336);
    assert_eq!(scale(256), 28415);
    assert_eq!(scale(350), 32833);
    assert_eq!(scale(-350), -67);
    assert_eq!(scale(i16::MAX), 1_556_432);
    assert_eq!(scale(i16::MIN), -1_523_713);
    assert_eq!(scale(i16::MAX), AXIS_CEILING);
    assert_eq!(scale(i16::MIN), AXIS_FLOOR);
}

#[test]
fn scale_is_exact_over_the_whole_domain() {
    for v in i16::MIN..=i16::MAX {
        assert_eq!(scale(v) as i64, v as i64 * 47 + 16383);
    }
}

#[test]
fn scale_grows_with_its_argument() {
    for v in i16::MIN..i16::MAX {
        assert!(scale(v) < scale(v + 1));
    }
}

#[test]
fn decode_field_reads_low_byte_first() {
    assert_eq!(decode_field(0x00, 0x00), 0);
    assert_eq!(decode_field(0x01, 0x00), 1);
    assert_eq!(decode_field(0x00, 0x01), 256);
    assert_eq!(decode_field(0x34, 0x12), 0x1234);
    assert_eq!(decode_field(0xff, 0x7f), i16::MAX);
    assert_eq!(decode_field(0x00, 0x80), i16::MIN);
    assert_eq!(decode_field(0xff, 0xff), -1);
    assert_eq!(decode_field(0xa2, 0xfe), -350);
}

#[test]
fn decode_field_agrees_with_std_on_every_pair() {
    for lo in 0..=u8::MAX {
        for hi in 0..=u8::MAX {
            assert_eq!(decode_field(lo, hi), i16::from_le_bytes([lo, hi]));
        }
    }
}

#[test]
fn decode_axis_scales_the_field() {
    assert_eq!(decode_axis(0x00, 0x00), 16383);
    assert_eq!(decode_axis(0x00, 0x01), 256 * 47 + 16383);
    assert_eq!(decode_axis(0xff, 0xff), 16383 - 47);
    assert_eq!(decode_axis(0x5e, 0x01), 350 * 47 + 16383);
}

#[test]
fn classify_knows_three_kinds() {
    assert_eq!(classify(1), ReportKind::Translation);
    assert_eq!(classify(2), ReportKind::Rotation);
    assert_eq!(classify(3), ReportKind::Buttons);
    assert_eq!(classify(0), ReportKind::Unrecognized);
    assert_eq!(classify(4), ReportKind::Unrecognized);
    assert_eq!(classify(255), ReportKind::Unrecognized);
    for discriminant in 4..=u8::MAX {
        assert_eq!(classify(discriminant), ReportKind::Unrecognized);
    }
}

#[test]
fn translation_report_changes_only_translation_axes() {
    let mut state = marked();
    apply_report(&mut state, &[1, 0x01, 0x00, 0x02, 0x00, 0x03, 0x00]);
    let expected = JoystickState {
        axis_x: 1 * 47 + 16383,
        axis_y: 3 * 47 + 16383,
        axis_z: 2 * 47 + 16383,
        ..marked()
    };
    assert_eq!(state, expected);
}

#[test]
fn rotation_report_changes_only_rotation_axes() {
    let mut state = marked();
    apply_report(&mut state, &[2, 0x01, 0x00, 0x02, 0x00, 0x03, 0x00]);
    let expected = JoystickState {
        axis_x_rot: 1 * 47 + 16383,
        axis_y_rot: 3 * 47 + 16383,
        axis_z_rot: 2 * 47 + 16383,
        ..marked()
    };
    assert_eq!(state, expected);
}

#[test]
fn button_report_changes_only_buttons() {
    let mut state = marked();
    apply_report(&mut state, &[3, 0x02, 0xaa, 0xbb, 0xcc, 0xdd, 0xee]);
    let expected = JoystickState { buttons: 2, ..marked() };
    assert_eq!(state, expected);
}

#[test]
fn unrecognized_report_changes_nothing() {
    for discriminant in [0u8, 4, 5, 17, 128, 255] {
        let mut state = marked();
        apply_report(&mut state, &[discriminant, 1, 2, 3, 4, 5, 6]);
        assert_eq!(state, marked());
    }
}

#[test]
fn axis_order_is_first_third_second() {
    let mut state = fresh();
    apply_report(&mut state, &[1, 0x11, 0x01, 0x22, 0x02, 0x33, 0x03]);
    assert_eq!(state.axis_x, 0x0111 * 47 + 16383);
    assert_eq!(state.axis_y, 0x0333 * 47 + 16383);
    assert_eq!(state.axis_z, 0x0222 * 47 + 16383);

    let mut state = fresh();
    apply_report(&mut state, &[2, 0x11, 0x01, 0x22, 0x02, 0x33, 0x03]);
    assert_eq!(state.axis_x_rot, 0x0111 * 47 + 16383);
    assert_eq!(state.axis_y_rot, 0x0333 * 47 + 16383);
    assert_eq!(state.axis_z_rot, 0x0222 * 47 + 16383);
}

#[test]
fn negative_fields_are_sign_extended() {
    let mut state = fresh();
    apply_report(&mut state, &[1, 0xff, 0xff, 0x00, 0x80, 0xa2, 0xfe]);
    assert_eq!(state.axis_x, -1 * 47 + 16383);
    assert_eq!(state.axis_z, -32768 * 47 + 16383);
    assert_eq!(state.axis_y, -350 * 47 + 16383);
}

#[test]
fn button_mask_round_trips() {
    for mask in 0u8..=3 {
        let mut state = fresh();
        apply_report(&mut state, &[3, mask, 0, 0, 0, 0, 0]);
        assert_eq!(state.buttons, mask as i32);
    }
    let mut state = fresh();
    apply_report(&mut state, &[3, 0, 0, 0, 0, 0, 0]);
    assert_eq!(state.buttons, 0);
    apply_report(&mut state, &[3, 1, 0, 0, 0, 0, 0]);
    assert_eq!(state.buttons, 1);
    apply_report(&mut state, &[3, 2, 0, 0, 0, 0, 0]);
    assert_eq!(state.buttons, 2);
    apply_report(&mut state, &[3, 3, 0, 0, 0, 0, 0]);
    assert_eq!(state.buttons, 3);
}

#[test]
fn button_mask_is_taken_as_a_whole_byte() {
    let mut state = fresh();
    apply_report(&mut state, &[3, 0xff, 0, 0, 0, 0, 0]);
    assert_eq!(state.buttons, 255);
}

#[test]
fn same_report_twice_is_same_as_once() {
    let frames: [[u8; 7]; 4] = [
        [1, 9, 8, 7, 6, 5, 4],
        [2, 0xff, 0xfe, 0xfd, 0xfc, 0xfb, 0xfa],
        [3, 3, 0, 0, 0, 0, 0],
        [9, 1, 2, 3, 4, 5, 6],
    ];
    for frame in frames {
        let mut once = marked();
        apply_report(&mut once, &frame);
        let mut twice = once;
        apply_report(&mut twice, &frame);
        assert_eq!(once, twice);
    }
}

#[test]
fn reports_of_different_kinds_commute() {
    let translation = [1u8, 1, 2, 3, 4, 5, 6];
    let rotation = [2u8, 6, 5, 4, 3, 2, 1];
    let buttons = [3u8, 2, 0, 0, 0, 0, 0];
    let pairs = [(translation, rotation), (translation, buttons), (rotation, buttons)];
    for (first, second) in pairs {
        let mut one = marked();
        apply_report(&mut one, &first);
        apply_report(&mut one, &second);
        let mut other = marked();
        apply_report(&mut other, &second);
        apply_report(&mut other, &first);
        assert_eq!(one, other);
    }
}

#[test]
fn later_report_of_a_kind_wins() {
    let mut state = fresh();
    apply_report(&mut state, &[1, 1, 0, 2, 0, 3, 0]);
    apply_report(&mut state, &[1, 4, 0, 5, 0, 6, 0]);
    let mut direct = fresh();
    apply_report(&mut direct, &[1, 4, 0, 5, 0, 6, 0]);
    assert_eq!(state, direct);
}

#[test]
fn end_to_end_scenario() {
    let mut state = fresh();
    apply_report(&mut state, &[2, 0x00, 0x00, 0x10, 0x00, 0x20, 0x00]);
    apply_report(&mut state, &[1, 0x00, 0x01, 0x00, 0x00, 0x00, 0x00]);
    apply_report(&mut state, &[3, 0x03, 0, 0, 0, 0, 0]);
    assert_eq!(state.axis_x_rot, 0 * 47 + 16383);
    assert_eq!(state.axis_y_rot, 0x20 * 47 + 16383);
    assert_eq!(state.axis_z_rot, 0x10 * 47 + 16383);
    assert_eq!(state.axis_x, 256 * 47 + 16383);
    assert_eq!(state.axis_y, 16383);
    assert_eq!(state.axis_z, 16383);
    assert_eq!(state.buttons, 3);
    let expected = JoystickState {
        axis_x: 28415,
        axis_y: 16383,
        axis_z: 16383,
        axis_x_rot: 16383,
        axis_y_rot: 17887,
        axis_z_rot: 17135,
        buttons: 3,
        ..fresh()
    };
    assert_eq!(state, expected);
}

#[test]
fn new_state_is_all_zero() {
    let state = fresh();
    let zero = JoystickState {
        device: 1,
        throttle: 0,
        rudder: 0,
        aileron: 0,
        axis_x: 0,
        axis_y: 0,
        axis_z: 0,
        axis_x_rot: 0,
        axis_y_rot: 0,
        axis_z_rot: 0,
        slider: 0,
        dial: 0,
        wheel: 0,
        axis_vx: 0,
        axis_vy: 0,
        axis_vz: 0,
        axis_vbrx: 0,
        axis_vbry: 0,
        axis_vbrz: 0,
        buttons: 0,
        hats: 0,
        hats_ex1: 0,
        hats_ex2: 0,
        hats_ex3: 0,
        buttons_ex1: 0,
        buttons_ex2: 0,
        buttons_ex3: 0,
    };
    assert_eq!(state, zero);
    assert_eq!(JoystickState::new(16).map(|state| state.device), Some(16));
    assert_eq!(JoystickState::new(255).map(|state| state.device), Some(255));
}

#[test]
fn device_zero_is_no_device() {
    assert_eq!(JoystickState::new(0), None);
}

#[test]
fn reports_keep_device_and_auxiliaries() {
    let mut state = JoystickState::new(7).expect("device seven is a device");
    let frames: [[u8; 7]; 5] = [
        [1, 0xff, 0x7f, 0x00, 0x80, 0x12, 0x34],
        [2, 0x00, 0x80, 0xff, 0x7f, 0x56, 0x78],
        [3, 0xff, 1, 2, 3, 4, 5],
        [0, 1, 2, 3, 4, 5, 6],
        [4, 1, 2, 3, 4, 5, 6],
    ];
    for frame in frames {
        apply_report(&mut state, &frame);
        assert_eq!(state.device, 7);
        assert_eq!(state.throttle, 0);
        assert_eq!(state.hats, 0);
        assert_eq!(state.buttons_ex3, 0);
        for axis in [
            state.axis_x,
            state.axis_y,
            state.axis_z,
            state.axis_x_rot,
            state.axis_y_rot,
            state.axis_z_rot,
        ] {
            assert!(AXIS_FLOOR <= axis && axis <= AXIS_CEILING);
        }
        assert!(0 <= state.buttons && state.buttons <= 255);
    }
}
