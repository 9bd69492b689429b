//! Decoding of report frames and their effect on the joystick state.
//!
//! A frame is seven bytes.  The first names the kind of report.  A motion
//! report carries three little-endian signed 16-bit fields in the six bytes
//! that follow; a button report carries a bitmask in the byte that follows.

use vstd::prelude::*;
use crate::state::{JoystickState, AXIS_CEILING, AXIS_FLOOR};

verus! {

/// Number of bytes in a report frame.
pub const REPORT_LEN: usize = 7;

/// One frame as the device delivers it.  It lives for one turn of the
/// polling loop.
pub type RawReport = [u8; REPORT_LEN];

/// Leading byte of a translation report.
pub const REPORT_TRANSLATION: u8 = 1;

/// Leading byte of a rotation report.
pub const REPORT_ROTATION: u8 = 2;

/// Leading byte of a button report.
pub const REPORT_BUTTONS: u8 = 3;

/// Gain applied to a raw axis reading.
pub const AXIS_GAIN: i32 = 47;

/// Midpoint added to a scaled axis reading: half of the largest signed
/// 16-bit value.
pub const AXIS_BIAS: i32 = 16383;

/// What a frame reports, as told by its leading byte.
#[derive(Clone, Copy, Debug, PartialEq, Eq, Structural)]
pub enum ReportKind {
    Translation,
    Rotation,
    Buttons,
    Unrecognized,
}

/// The kind of report that a leading byte announces.
pub open spec fn kind_of(discriminant: u8) -> ReportKind {
    if discriminant == REPORT_TRANSLATION {
        ReportKind::Translation
    } else if discriminant == REPORT_ROTATION {
        ReportKind::Rotation
    } else if discriminant == REPORT_BUTTONS {
        ReportKind::Buttons
    } else {
        ReportKind::Unrecognized
    }
}

/// The axis value for a raw reading `v`: `v * 47 + 16383`.
pub open spec fn scaled(v: int) -> int {
    v * AXIS_GAIN + AXIS_BIAS
}

/// The signed 16-bit number whose little-endian bytes are `lo`, `hi`.
pub open spec fn field_value(lo: u8, hi: u8) -> int {
    if hi < 128 {
        lo + 256 * hi
    } else {
        lo + 256 * hi - 65536
    }
}

/// The axis value carried by the field with bytes `lo`, `hi`.
pub open spec fn axis_value(lo: u8, hi: u8) -> i32 {
    scaled(field_value(lo, hi)) as i32
}

/// The state that `state` becomes when `report` arrives.
///
/// The second axis of a motion report travels last in the frame: the fields
/// at offsets 1, 5 and 3 feed the first, second and third axis.
pub open spec fn translated(state: JoystickState, report: Seq<u8>) -> JoystickState
    recommends
        report.len() == 7,
{
    match kind_of(report[0]) {
        ReportKind::Translation => JoystickState {
            axis_x: axis_value(report[1], report[2]),
            axis_y: axis_value(report[5], report[6]),
            axis_z: axis_value(report[3], report[4]),
            ..state
        },
        ReportKind::Rotation => JoystickState {
            axis_x_rot: axis_value(report[1], report[2]),
            axis_y_rot: axis_value(report[5], report[6]),
            axis_z_rot: axis_value(report[3], report[4]),
            ..state
        },
        ReportKind::Buttons => JoystickState { buttons: report[1] as i32, ..state },
        ReportKind::Unrecognized => state,
    }
}

/// Tells the kind of a report from its leading byte.
pub fn classify(discriminant: u8) -> (kind: ReportKind)
    ensures
        kind == kind_of(discriminant),
{
    if discriminant == REPORT_TRANSLATION {
        ReportKind::Translation
    } else if discriminant == REPORT_ROTATION {
        ReportKind::Rotation
    } else if discriminant == REPORT_BUTTONS {
        ReportKind::Buttons
    } else {
        ReportKind::Unrecognized
    }
}

/// Maps a raw signed 16-bit reading to an axis value: `v * 47 + 16383`,
/// exactly, in 32 bits.
pub fn scale(v: i16) -> (r: i32)
    ensures
        r == scaled(v as int),
{
    v as i32 * AXIS_GAIN + AXIS_BIAS
}

/// Reads two little-endian bytes as a signed 16-bit number.
pub fn decode_field(lo: u8, hi: u8) -> (v: i16)
    ensures
        v == field_value(lo, hi),
{
    let unsigned: i32 = lo as i32 + 256 * (hi as i32);
    if hi < 128 {
        unsigned as i16
    } else {
        (unsigned - 65536) as i16
    }
}

/// Decodes and scales the field with bytes `lo`, `hi`.
pub fn decode_axis(lo: u8, hi: u8) -> (r: i32)
    ensures
        r == axis_value(lo, hi),
        r == scaled(field_value(lo, hi)),
{
    scale(decode_field(lo, hi))
}

/// Applies one report frame to the joystick state.
///
/// A translation report sets the three translation axes, a rotation report
/// the three rotation axes, a button report the button mask.  A frame of any
/// other kind changes nothing.
pub fn apply_report(state: &mut JoystickState, report: &RawReport)
    ensures
        *final(state) == translated(*old(state), report@),
        old(state).wf() ==> final(state).wf(),
{
    match classify(report[0]) {
        ReportKind::Translation => {
            state.axis_x = decode_axis(report[1], report[2]);
            state.axis_y = decode_axis(report[5], report[6]);
            state.axis_z = decode_axis(report[3], report[4]);
        },
        ReportKind::Rotation => {
            state.axis_x_rot = decode_axis(report[1], report[2]);
            state.axis_y_rot = decode_axis(report[5], report[6]);
            state.axis_z_rot = decode_axis(report[3], report[4]);
        },
        ReportKind::Buttons => {
            state.buttons = report[1] as i32;
        },
        ReportKind::Unrecognized => {},
    }
}

/// Scaling never leaves 32 bits: over the signed 16-bit readings it runs
/// from `AXIS_FLOOR` to `AXIS_CEILING`, and reaches both.
pub proof fn scale_fits_in_32_bits(v: i16)
    ensures
        i32::MIN <= AXIS_FLOOR <= scaled(v as int) <= AXIS_CEILING <= i32::MAX,
        scaled(i16::MIN as int) == AXIS_FLOOR,
        scaled(i16::MAX as int) == AXIS_CEILING,
        scaled(0) == AXIS_BIAS,
{
}

/// A larger reading gives a larger axis value.
pub proof fn scale_is_increasing(a: int, b: int)
    requires
        a < b,
    ensures
        scaled(a) < scaled(b),
{
}

/// Readings no further than `reach` from zero give axis values no further
/// than `47 * reach` from the midpoint.
pub proof fn scale_stays_within(v: int, reach: int)
    requires
        -reach <= v <= reach,
    ensures
        AXIS_BIAS - AXIS_GAIN * reach <= scaled(v) <= AXIS_BIAS + AXIS_GAIN * reach,
{
}

/// A field is the two's-complement reading of its bytes, low byte first.
pub proof fn field_is_twos_complement(lo: u8, hi: u8)
    ensures
        i16::MIN <= field_value(lo, hi) <= i16::MAX,
        field_value(lo, hi) == (((hi as u16) << 8) | (lo as u16)) as i16,
{
    let joined: u16 = ((hi as u16) << 8) | (lo as u16);
    assert(joined == lo + 256 * hi) by (bit_vector)
        requires
            joined == ((hi as u16) << 8) | (lo as u16),
    ;
    assert(hi < 128 ==> joined as i16 == joined) by (bit_vector)
        requires
            joined == ((hi as u16) << 8) | (lo as u16),
    ;
    assert(hi >= 128 ==> joined as i16 == joined - 65536) by (bit_vector)
        requires
            joined == ((hi as u16) << 8) | (lo as u16),
    ;
}

/// Every signed 16-bit number is the field of exactly one pair of bytes.
pub proof fn field_bytes_are_unique(lo: u8, hi: u8, other_lo: u8, other_hi: u8)
    requires
        field_value(lo, hi) == field_value(other_lo, other_hi),
    ensures
        lo == other_lo,
        hi == other_hi,
{
}

/// A report changes only the fields of its kind: a translation report the
/// three translation axes, a rotation report the three rotation axes, a
/// button report the button mask, and any other frame nothing.
pub proof fn report_changes_only_its_fields(state: JoystickState, report: Seq<u8>)
    requires
        report.len() == 7,
    ensures
        ({
            let after = translated(state, report);
            &&& report[0] == 1 ==> after == (JoystickState {
                axis_x: after.axis_x,
                axis_y: after.axis_y,
                axis_z: after.axis_z,
                ..state
            })
            &&& report[0] == 2 ==> after == (JoystickState {
                axis_x_rot: after.axis_x_rot,
                axis_y_rot: after.axis_y_rot,
                axis_z_rot: after.axis_z_rot,
                ..state
            })
            &&& report[0] == 3 ==> after == (JoystickState { buttons: after.buttons, ..state })
            &&& !(1 <= report[0] <= 3) ==> after == state
        }),
{
}

/// The first axis of a motion report is decoded from bytes 1 and 2, the
/// second from bytes 5 and 6, the third from bytes 3 and 4; the button mask
/// is byte 1.
pub proof fn report_fields_land_in_order(state: JoystickState, report: Seq<u8>)
    requires
        report.len() == 7,
    ensures
        ({
            let after = translated(state, report);
            &&& report[0] == 1 ==> {
                &&& after.axis_x == scaled(field_value(report[1], report[2]))
                &&& after.axis_y == scaled(field_value(report[5], report[6]))
                &&& after.axis_z == scaled(field_value(report[3], report[4]))
            }
            &&& report[0] == 2 ==> {
                &&& after.axis_x_rot == scaled(field_value(report[1], report[2]))
                &&& after.axis_y_rot == scaled(field_value(report[5], report[6]))
                &&& after.axis_z_rot == scaled(field_value(report[3], report[4]))
            }
            &&& report[0] == 3 ==> after.buttons == report[1]
        }),
{
}

/// Applying the same report twice is the same as applying it once.
pub proof fn report_is_idempotent(state: JoystickState, report: Seq<u8>)
    requires
        report.len() == 7,
    ensures
        translated(translated(state, report), report) == translated(state, report),
{
}

/// Reports of different kinds do not disturb each other: either order of
/// arrival leaves the same state.
pub proof fn reports_of_different_kinds_commute(
    state: JoystickState,
    first: Seq<u8>,
    second: Seq<u8>,
)
    requires
        first.len() == 7,
        second.len() == 7,
        kind_of(first[0]) != kind_of(second[0]),
    ensures
        translated(translated(state, first), second) == translated(
            translated(state, second),
            first,
        ),
{
}

/// Of two reports of one kind, only the later one shows.
pub proof fn later_report_of_a_kind_wins(state: JoystickState, first: Seq<u8>, second: Seq<u8>)
    requires
        first.len() == 7,
        second.len() == 7,
        kind_of(first[0]) == kind_of(second[0]),
    ensures
        translated(translated(state, first), second) == translated(state, second),
{
}

/// A report keeps a well-formed state well formed, whatever its bytes.
pub proof fn report_keeps_state_well_formed(state: JoystickState, report: Seq<u8>)
    requires
        report.len() == 7,
        state.wf(),
    ensures
        translated(state, report).wf(),
        translated(state, report).device == state.device,
{
}

} // verus!
