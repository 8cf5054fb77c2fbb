//! The encoder of the textual wire codec: a snapshot rendered as a minimal
//! JSON object, members in declaration order, no interstitial whitespace.

use vstd::prelude::*;
use vstd::string::StringSliceAdditionalSpecFns;

use crate::records::Inputs;

verus! {

/// The rendering of a boolean value.
pub open spec fn spec_bool_bytes(v: bool) -> Seq<u8> {
    if v {
        "true".spec_bytes()
    } else {
        "false".spec_bytes()
    }
}

/// One rendered member together with the punctuation that precedes it: the
/// given prefix, then the boolean value.
pub open spec fn spec_member_bytes(prefix: &str, v: bool) -> Seq<u8> {
    prefix.spec_bytes() + spec_bool_bytes(v)
}

/// The opening of the object and the first four members.
pub open spec fn spec_json_part_a(i: Inputs) -> Seq<u8> {
    spec_member_bytes("{\"checker_0_sensor\":", i.checker_0_sensor) + spec_member_bytes(
        ",\"checker_1_sensor\":",
        i.checker_1_sensor,
    ) + spec_member_bytes(",\"checker_2_sensor\":", i.checker_2_sensor) + spec_member_bytes(
        ",\"checker_3_sensor\":",
        i.checker_3_sensor,
    )
}

/// The next four members.
pub open spec fn spec_json_part_b(i: Inputs) -> Seq<u8> {
    spec_member_bytes(",\"checker_4_sensor\":", i.checker_4_sensor) + spec_member_bytes(
        ",\"checker_5_sensor\":",
        i.checker_5_sensor,
    ) + spec_member_bytes(",\"checker_6_sensor\":", i.checker_6_sensor) + spec_member_bytes(
        ",\"tilt_switch\":",
        i.tilt_switch,
    )
}

/// The next four members.
pub open spec fn spec_json_part_c(i: Inputs) -> Seq<u8> {
    spec_member_bytes(",\"left_in_sensor_1\":", i.left_in_sensor_1) + spec_member_bytes(
        ",\"left_in_sensor_2\":",
        i.left_in_sensor_2,
    ) + spec_member_bytes(",\"right_in_sensor_1\":", i.right_in_sensor_1) + spec_member_bytes(
        ",\"right_in_sensor_2\":",
        i.right_in_sensor_2,
    )
}

/// The next four members.
pub open spec fn spec_json_part_d(i: Inputs) -> Seq<u8> {
    spec_member_bytes(",\"hopper_left_sensor\":", i.hopper_left_sensor) + spec_member_bytes(
        ",\"hopper_right_sensor\":",
        i.hopper_right_sensor,
    ) + spec_member_bytes(",\"hopper_out_sensor\":", i.hopper_out_sensor) + spec_member_bytes(
        ",\"table_sensor\":",
        i.table_sensor,
    )
}

/// The next four members.
pub open spec fn spec_json_part_e(i: Inputs) -> Seq<u8> {
    spec_member_bytes(",\"left_divider_sensor\":", i.left_divider_sensor) + spec_member_bytes(
        ",\"right_divider_sensor\":",
        i.right_divider_sensor,
    ) + spec_member_bytes(",\"test_switch\":", i.test_switch) + spec_member_bytes(
        ",\"select_switch_up\":",
        i.select_switch_up,
    )
}

/// The last two members and the closing brace.
pub open spec fn spec_json_part_f(i: Inputs) -> Seq<u8> {
    spec_member_bytes(",\"select_switch_down\":", i.select_switch_down) + spec_member_bytes(
        ",\"enter_switch\":",
        i.enter_switch,
    ) + "}".spec_bytes()
}

/// The canonical rendering of a snapshot: a minimal JSON object, members in
/// declaration order, no interstitial whitespace.
pub open spec fn spec_inputs_json(i: Inputs) -> Seq<u8> {
    spec_json_part_a(i) + spec_json_part_b(i) + spec_json_part_c(i) + spec_json_part_d(i)
        + spec_json_part_e(i) + spec_json_part_f(i)
}

/// Append the bytes of a string.
fn push_bytes(out: &mut Vec<u8>, s: &str)
    ensures
        final(out)@ == old(out)@ + s.spec_bytes(),
{
    let b = s.as_bytes();
    out.extend_from_slice(b);
}

/// Append the rendering of a boolean value.
fn push_bool(out: &mut Vec<u8>, v: bool)
    ensures
        final(out)@ == old(out)@ + spec_bool_bytes(v),
{
    if v {
        push_bytes(out, "true");
    } else {
        push_bytes(out, "false");
    }
}

/// Append one member together with the punctuation that precedes it.
fn push_member(out: &mut Vec<u8>, prefix: &str, v: bool)
    ensures
        final(out)@ == old(out)@ + spec_member_bytes(prefix, v),
{
    push_bytes(out, prefix);
    push_bool(out, v);
    assert(out@ =~= old(out)@ + spec_member_bytes(prefix, v));
}

/// Append the opening of the object and the first four members.
fn push_part_a(out: &mut Vec<u8>, i: &Inputs)
    ensures
        final(out)@ == old(out)@ + spec_json_part_a(*i),
{
    push_member(out, "{\"checker_0_sensor\":", i.checker_0_sensor);
    push_member(out, ",\"checker_1_sensor\":", i.checker_1_sensor);
    push_member(out, ",\"checker_2_sensor\":", i.checker_2_sensor);
    push_member(out, ",\"checker_3_sensor\":", i.checker_3_sensor);
    assert(out@ =~= old(out)@ + spec_json_part_a(*i));
}

/// Append the next four members.
fn push_part_b(out: &mut Vec<u8>, i: &Inputs)
    ensures
        final(out)@ == old(out)@ + spec_json_part_b(*i),
{
    push_member(out, ",\"checker_4_sensor\":", i.checker_4_sensor);
    push_member(out, ",\"checker_5_sensor\":", i.checker_5_sensor);
    push_member(out, ",\"checker_6_sensor\":", i.checker_6_sensor);
    push_member(out, ",\"tilt_switch\":", i.tilt_switch);
    assert(out@ =~= old(out)@ + spec_json_part_b(*i));
}

/// Append the next four members.
fn push_part_c(out: &mut Vec<u8>, i: &Inputs)
    ensures
        final(out)@ == old(out)@ + spec_json_part_c(*i),
{
    push_member(out, ",\"left_in_sensor_1\":", i.left_in_sensor_1);
    push_member(out, ",\"left_in_sensor_2\":", i.left_in_sensor_2);
    push_member(out, ",\"right_in_sensor_1\":", i.right_in_sensor_1);
    push_member(out, ",\"right_in_sensor_2\":", i.right_in_sensor_2);
    assert(out@ =~= old(out)@ + spec_json_part_c(*i));
}

/// Append the next four members.
fn push_part_d(out: &mut Vec<u8>, i: &Inputs)
    ensures
        final(out)@ == old(out)@ + spec_json_part_d(*i),
{
    push_member(out, ",\"hopper_left_sensor\":", i.hopper_left_sensor);
    push_member(out, ",\"hopper_right_sensor\":", i.hopper_right_sensor);
    push_member(out, ",\"hopper_out_sensor\":", i.hopper_out_sensor);
    push_member(out, ",\"table_sensor\":", i.table_sensor);
    assert(out@ =~= old(out)@ + spec_json_part_d(*i));
}

/// Append the next four members.
fn push_part_e(out: &mut Vec<u8>, i: &Inputs)
    ensures
        final(out)@ == old(out)@ + spec_json_part_e(*i),
{
    push_member(out, ",\"left_divider_sensor\":", i.left_divider_sensor);
    push_member(out, ",\"right_divider_sensor\":", i.right_divider_sensor);
    push_member(out, ",\"test_switch\":", i.test_switch);
    push_member(out, ",\"select_switch_up\":", i.select_switch_up);
    assert(out@ =~= old(out)@ + spec_json_part_e(*i));
}

/// Append the last two members and the closing brace.
fn push_part_f(out: &mut Vec<u8>, i: &Inputs)
    ensures
        final(out)@ == old(out)@ + spec_json_part_f(*i),
{
    push_member(out, ",\"select_switch_down\":", i.select_switch_down);
    push_member(out, ",\"enter_switch\":", i.enter_switch);
    push_bytes(out, "}");
    assert(out@ =~= old(out)@ + spec_json_part_f(*i));
}

/// Render a snapshot as its canonical JSON object.
pub fn encode_inputs_json(i: &Inputs) -> (r: Vec<u8>)
    ensures
        r@ == spec_inputs_json(*i),
{
    let mut out: Vec<u8> = Vec::new();
    push_part_a(&mut out, i);
    push_part_b(&mut out, i);
    push_part_c(&mut out, i);
    push_part_d(&mut out, i);
    push_part_e(&mut out, i);
    push_part_f(&mut out, i);
    assert(out@ =~= spec_inputs_json(*i));
    out
}

} // verus!
