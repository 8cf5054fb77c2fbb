//! The grammar of the textual wire codec. Text frames carry JSON objects
//! whose members are the records' boolean fields; every field name is
//! significant and fixed. This module states the grammar as spec functions:
//! what a payload parses to, and which payloads are refused.

use vstd::prelude::*;
use vstd::string::StringSliceAdditionalSpecFns;

use crate::records::Outputs;
use crate::scan::{spec_find_byte, spec_match_at};

verus! {

/// The whitespace bytes of the grammar: space, tab, line feed, carriage
/// return.
pub open spec fn spec_is_ws(b: u8) -> bool {
    b == 32 || b == 9 || b == 10 || b == 13
}

/// The first index at or after `i` holding a byte that is not whitespace,
/// or the end of the input.
pub open spec fn spec_skip_ws(s: Seq<u8>, i: int) -> int
    decreases s.len() - i,
{
    if 0 <= i && i < s.len() && spec_is_ws(s[i]) {
        spec_skip_ws(s, i + 1)
    } else {
        i
    }
}

/// Why a payload fails to decode.
#[derive(PartialEq, Eq, Structural, Clone, Copy, Debug)]
pub enum JsonError {
    /// The structure or a value is malformed.
    Syntax,
    /// A member name that names no field of the record.
    UnknownField,
    /// A field given twice.
    DuplicateField,
    /// The object ended before every field was given.
    MissingField,
}

/// A JSON boolean literal at index `i`: the parsed value and the index just
/// after it.
pub open spec fn spec_parse_bool(s: Seq<u8>, i: int) -> Result<(bool, int), JsonError> {
    if spec_match_at(s, i, "true".spec_bytes()) {
        Ok((true, i + "true".spec_bytes().len()))
    } else if spec_match_at(s, i, "false".spec_bytes()) {
        Ok((false, i + "false".spec_bytes().len()))
    } else {
        Err(JsonError::Syntax)
    }
}

/// The position of a field name in the actuator record, in declaration
/// order.
#[verifier::opaque]
pub open spec fn spec_field_index(name: Seq<u8>) -> Option<int> {
    if name == "checker_0_led".spec_bytes() {
        Some(0int)
    } else if name == "checker_1_led".spec_bytes() {
        Some(1int)
    } else if name == "checker_2_led".spec_bytes() {
        Some(2int)
    } else if name == "checker_3_led".spec_bytes() {
        Some(3int)
    } else if name == "checker_4_led".spec_bytes() {
        Some(4int)
    } else if name == "checker_5_led".spec_bytes() {
        Some(5int)
    } else if name == "checker_6_led".spec_bytes() {
        Some(6int)
    } else if name == "table_motor".spec_bytes() {
        Some(7int)
    } else if name == "left_hopper".spec_bytes() {
        Some(8int)
    } else if name == "right_hopper".spec_bytes() {
        Some(9int)
    } else if name == "lockout_solenoid_left".spec_bytes() {
        Some(10int)
    } else if name == "lockout_solenoid_right".spec_bytes() {
        Some(11int)
    } else if name == "out_hopper".spec_bytes() {
        Some(12int)
    } else if name == "payout_solenoid".spec_bytes() {
        Some(13int)
    } else if name == "divider_solenoid_left".spec_bytes() {
        Some(14int)
    } else if name == "divider_solenoid_right".spec_bytes() {
        Some(15int)
    } else if name == "ray_lamp".spec_bytes() {
        Some(16int)
    } else {
        None
    }
}

/// The field of the actuator record at a position, in declaration order.
#[verifier::opaque]
pub open spec fn spec_get_field(o: Outputs, j: int) -> bool {
    if j == 0 {
        o.checker_0_led
    } else if j == 1 {
        o.checker_1_led
    } else if j == 2 {
        o.checker_2_led
    } else if j == 3 {
        o.checker_3_led
    } else if j == 4 {
        o.checker_4_led
    } else if j == 5 {
        o.checker_5_led
    } else if j == 6 {
        o.checker_6_led
    } else if j == 7 {
        o.table_motor
    } else if j == 8 {
        o.left_hopper
    } else if j == 9 {
        o.right_hopper
    } else if j == 10 {
        o.lockout_solenoid_left
    } else if j == 11 {
        o.lockout_solenoid_right
    } else if j == 12 {
        o.out_hopper
    } else if j == 13 {
        o.payout_solenoid
    } else if j == 14 {
        o.divider_solenoid_left
    } else if j == 15 {
        o.divider_solenoid_right
    } else {
        o.ray_lamp
    }
}

/// The actuator record with the field at a position replaced.
#[verifier::opaque]
pub open spec fn spec_set_field(o: Outputs, j: int, v: bool) -> Outputs {
    if j == 0 {
        Outputs { checker_0_led: v, ..o }
    } else if j == 1 {
        Outputs { checker_1_led: v, ..o }
    } else if j == 2 {
        Outputs { checker_2_led: v, ..o }
    } else if j == 3 {
        Outputs { checker_3_led: v, ..o }
    } else if j == 4 {
        Outputs { checker_4_led: v, ..o }
    } else if j == 5 {
        Outputs { checker_5_led: v, ..o }
    } else if j == 6 {
        Outputs { checker_6_led: v, ..o }
    } else if j == 7 {
        Outputs { table_motor: v, ..o }
    } else if j == 8 {
        Outputs { left_hopper: v, ..o }
    } else if j == 9 {
        Outputs { right_hopper: v, ..o }
    } else if j == 10 {
        Outputs { lockout_solenoid_left: v, ..o }
    } else if j == 11 {
        Outputs { lockout_solenoid_right: v, ..o }
    } else if j == 12 {
        Outputs { out_hopper: v, ..o }
    } else if j == 13 {
        Outputs { payout_solenoid: v, ..o }
    } else if j == 14 {
        Outputs { divider_solenoid_left: v, ..o }
    } else if j == 15 {
        Outputs { divider_solenoid_right: v, ..o }
    } else {
        Outputs { ray_lamp: v, ..o }
    }
}

/// Every field of the record is true: a parse, reading the record as a set
/// of flags, has seen every field.
pub open spec fn spec_all_seen(o: Outputs) -> bool {
    o.checker_0_led && o.checker_1_led && o.checker_2_led && o.checker_3_led && o.checker_4_led
        && o.checker_5_led && o.checker_6_led && o.table_motor && o.left_hopper && o.right_hopper
        && o.lockout_solenoid_left && o.lockout_solenoid_right && o.out_hopper && o.payout_solenoid
        && o.divider_solenoid_left && o.divider_solenoid_right && o.ray_lamp
}

/// Skipping whitespace never moves backwards, and never runs past the end
/// from inside the input.
proof fn lemma_skip_ws_ge(s: Seq<u8>, i: int)
    ensures
        spec_skip_ws(s, i) >= i,
        i <= s.len() ==> spec_skip_ws(s, i) <= s.len(),
    decreases s.len() - i,
{
    if 0 <= i && i < s.len() && spec_is_ws(s[i]) {
        lemma_skip_ws_ge(s, i + 1);
    }
}

/// A found byte lies at or after the start of the search, inside the input.
proof fn lemma_find_byte_ge(s: Seq<u8>, i: int, b: u8)
    ensures
        spec_find_byte(s, i, b) matches Some(q) ==> i <= q < s.len(),
    decreases s.len() - i,
{
    if 0 <= i && i < s.len() && s[i] != b {
        lemma_find_byte_ge(s, i + 1, b);
    }
}

/// The members of the object, from index `i` (just after `{` or after a
/// `,`): a name, a colon, a boolean, then either a comma and further
/// members or the closing brace. Each field must be given exactly once.
#[verifier::opaque]
pub open spec fn spec_parse_members(s: Seq<u8>, i: int, acc: Outputs, seen: Outputs) -> Result<
    (Outputs, int),
    JsonError,
>
    decreases s.len() - i,
    via spec_parse_members_decreases
{
    let k = spec_skip_ws(s, i);
    if !(0 <= k && k < s.len() && s[k] == 34) {
        Err(JsonError::Syntax)
    } else {
        match spec_find_byte(s, k + 1, 34) {
            None => Err(JsonError::Syntax),
            Some(q) => {
                match spec_field_index(s.subrange(k + 1, q)) {
                    None => Err(JsonError::UnknownField),
                    Some(j) => {
                        if spec_get_field(seen, j) {
                            Err(JsonError::DuplicateField)
                        } else {
                            let c = spec_skip_ws(s, q + 1);
                            if !(c < s.len() && s[c] == 58) {
                                Err(JsonError::Syntax)
                            } else {
                                match spec_parse_bool(s, spec_skip_ws(s, c + 1)) {
                                    Err(e) => Err(e),
                                    Ok((v, after)) => {
                                        let acc2 = spec_set_field(acc, j, v);
                                        let seen2 = spec_set_field(seen, j, true);
                                        let t = spec_skip_ws(s, after);
                                        if t < s.len() && s[t] == 44 {
                                            spec_parse_members(s, t + 1, acc2, seen2)
                                        } else if t < s.len() && s[t] == 125 {
                                            if spec_all_seen(seen2) {
                                                Ok((acc2, t + 1))
                                            } else {
                                                Err(JsonError::MissingField)
                                            }
                                        } else {
                                            Err(JsonError::Syntax)
                                        }
                                    },
                                }
                            }
                        }
                    },
                }
            },
        }
    }
}

#[via_fn]
proof fn spec_parse_members_decreases(s: Seq<u8>, i: int, acc: Outputs, seen: Outputs) {
    reveal(spec_parse_members);
    lemma_skip_ws_ge(s, i);
    let k = spec_skip_ws(s, i);
    if 0 <= k && k < s.len() && s[k] == 34 {
        lemma_find_byte_ge(s, k + 1, 34);
        if let Some(q) = spec_find_byte(s, k + 1, 34) {
            lemma_skip_ws_ge(s, q + 1);
            let c = spec_skip_ws(s, q + 1);
            if c < s.len() && s[c] == 58 {
                lemma_skip_ws_ge(s, c + 1);
                if let Ok((v, after)) = spec_parse_bool(s, spec_skip_ws(s, c + 1)) {
                    lemma_skip_ws_ge(s, after);
                }
            }
        }
    }
}

/// A whole payload: optional whitespace, the object, nothing afterwards
/// that the parse itself consumes. The result carries the index just after
/// the closing brace, so a caller can insist that the whole payload was
/// consumed.
pub open spec fn spec_decode_outputs(s: Seq<u8>) -> Result<(Outputs, int), JsonError> {
    let i = spec_skip_ws(s, 0);
    if !(i < s.len() && s[i] == 123) {
        Err(JsonError::Syntax)
    } else {
        let j = spec_skip_ws(s, i + 1);
        if j < s.len() && s[j] == 125 {
            Err(JsonError::MissingField)
        } else {
            spec_parse_members(s, i + 1, spec_outputs_all_false(), spec_outputs_all_false())
        }
    }
}

/// The all-false actuator record, the seed of a parse.
pub open spec fn spec_outputs_all_false() -> Outputs {
    Outputs {
        checker_0_led: false,
        checker_1_led: false,
        checker_2_led: false,
        checker_3_led: false,
        checker_4_led: false,
        checker_5_led: false,
        checker_6_led: false,
        table_motor: false,
        left_hopper: false,
        right_hopper: false,
        lockout_solenoid_left: false,
        lockout_solenoid_right: false,
        out_hopper: false,
        payout_solenoid: false,
        divider_solenoid_left: false,
        divider_solenoid_right: false,
        ray_lamp: false,
    }
}

} // verus!
