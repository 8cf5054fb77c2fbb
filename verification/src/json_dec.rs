//! The decoder of the textual wire codec: an actuator record from a JSON
//! payload. The members may come in any order; each field must be given
//! exactly once, booleans are the only values; the decoder reports how many
//! bytes it consumed so that the caller can insist on full consumption.
//! Exactly the parse that `crate::json::spec_decode_outputs` describes.

use vstd::prelude::*;
use vstd::string::StringSliceAdditionalSpecFns;

use crate::json::{
    spec_decode_outputs, spec_field_index, spec_get_field, spec_parse_bool, spec_parse_members,
    spec_set_field, spec_skip_ws, JsonError,
};
use crate::records::Outputs;
use crate::scan::{bytes_match_at, find_byte, key_is};

verus! {

/// Advance past whitespace.
fn skip_ws(s: &[u8], i: usize) -> (r: usize)
    requires
        i <= s@.len(),
    ensures
        r as int == spec_skip_ws(s@, i as int),
        i <= r <= s@.len(),
{
    let mut k: usize = i;
    while k < s.len() && (s[k] == 32 || s[k] == 9 || s[k] == 10 || s[k] == 13)
        invariant
            i <= k <= s@.len(),
            spec_skip_ws(s@, i as int) == spec_skip_ws(s@, k as int),
        decreases s@.len() - k,
    {
        k = k + 1;
    }
    k
}

/// The position of the field named by the byte range `[a, b)` of `s`, if
/// any.
fn field_index(s: &[u8], a: usize, b: usize) -> (r: Option<usize>)
    requires
        a <= b <= s@.len(),
    ensures
        (match r {
            Some(j) => Some(j as int),
            None => None,
        }) == spec_field_index(s@.subrange(a as int, b as int)),
        r matches Some(j) ==> j < 17,
{
    proof {
        reveal(spec_field_index);
    }
    if key_is(s, a, b, "checker_0_led") {
        Some(0)
    } else if key_is(s, a, b, "checker_1_led") {
        Some(1)
    } else if key_is(s, a, b, "checker_2_led") {
        Some(2)
    } else if key_is(s, a, b, "checker_3_led") {
        Some(3)
    } else if key_is(s, a, b, "checker_4_led") {
        Some(4)
    } else if key_is(s, a, b, "checker_5_led") {
        Some(5)
    } else if key_is(s, a, b, "checker_6_led") {
        Some(6)
    } else if key_is(s, a, b, "table_motor") {
        Some(7)
    } else if key_is(s, a, b, "left_hopper") {
        Some(8)
    } else if key_is(s, a, b, "right_hopper") {
        Some(9)
    } else if key_is(s, a, b, "lockout_solenoid_left") {
        Some(10)
    } else if key_is(s, a, b, "lockout_solenoid_right") {
        Some(11)
    } else if key_is(s, a, b, "out_hopper") {
        Some(12)
    } else if key_is(s, a, b, "payout_solenoid") {
        Some(13)
    } else if key_is(s, a, b, "divider_solenoid_left") {
        Some(14)
    } else if key_is(s, a, b, "divider_solenoid_right") {
        Some(15)
    } else if key_is(s, a, b, "ray_lamp") {
        Some(16)
    } else {
        None
    }
}

/// The field of the actuator record at a position, in declaration order.
fn get_field(o: &Outputs, j: usize) -> (r: bool)
    requires
        j < 17,
    ensures
        r == spec_get_field(*o, j as int),
{
    proof {
        reveal(spec_get_field);
    }
    if j == 0 {
        o.checker_0_led
    } else if j == 1 {
        o.checker_1_led
    } else if j == 2 {
        o.checker_2_led
    } else if j == 3 {
        o.checker_3_led
    } else if j == 4 {
        o.checker_4_led
    } else if j == 5 {
        o.checker_5_led
    } else if j == 6 {
        o.checker_6_led
    } else if j == 7 {
        o.table_motor
    } else if j == 8 {
        o.left_hopper
    } else if j == 9 {
        o.right_hopper
    } else if j == 10 {
        o.lockout_solenoid_left
    } else if j == 11 {
        o.lockout_solenoid_right
    } else if j == 12 {
        o.out_hopper
    } else if j == 13 {
        o.payout_solenoid
    } else if j == 14 {
        o.divider_solenoid_left
    } else if j == 15 {
        o.divider_solenoid_right
    } else {
        o.ray_lamp
    }
}

/// The actuator record with the field at a position replaced.
fn set_field(o: Outputs, j: usize, v: bool) -> (r: Outputs)
    requires
        j < 17,
    ensures
        r == spec_set_field(o, j as int, v),
{
    proof {
        reveal(spec_set_field);
    }
    if j == 0 {
        Outputs { checker_0_led: v, ..o }
    } else if j == 1 {
        Outputs { checker_1_led: v, ..o }
    } else if j == 2 {
        Outputs { checker_2_led: v, ..o }
    } else if j == 3 {
        Outputs { checker_3_led: v, ..o }
    } else if j == 4 {
        Outputs { checker_4_led: v, ..o }
    } else if j == 5 {
        Outputs { checker_5_led: v, ..o }
    } else if j == 6 {
        Outputs { checker_6_led: v, ..o }
    } else if j == 7 {
        Outputs { table_motor: v, ..o }
    } else if j == 8 {
        Outputs { left_hopper: v, ..o }
    } else if j == 9 {
        Outputs { right_hopper: v, ..o }
    } else if j == 10 {
        Outputs { lockout_solenoid_left: v, ..o }
    } else if j == 11 {
        Outputs { lockout_solenoid_right: v, ..o }
    } else if j == 12 {
        Outputs { out_hopper: v, ..o }
    } else if j == 13 {
        Outputs { payout_solenoid: v, ..o }
    } else if j == 14 {
        Outputs { divider_solenoid_left: v, ..o }
    } else if j == 15 {
        Outputs { divider_solenoid_right: v, ..o }
    } else {
        Outputs { ray_lamp: v, ..o }
    }
}

/// Parse the members of the object from index `i`.
fn parse_members(s: &[u8], i: usize, acc: Outputs, seen: Outputs) -> (r: Result<
    (Outputs, usize),
    JsonError,
>)
    requires
        i <= s@.len(),
    ensures
        (match r {
            Ok((o, n)) => Ok((o, n as int)),
            Err(e) => Err(e),
        }) == spec_parse_members(s@, i as int, acc, seen),
        r matches Ok((o, n)) ==> n <= s@.len(),
    decreases s@.len() - i,
{
    proof {
        reveal(spec_parse_members);
    }
    let k = skip_ws(s, i);
    if !(k < s.len() && s[k] == 34) {
        return Err(JsonError::Syntax);
    }
    let q = match find_byte(s, k + 1, 34) {
        None => {
            return Err(JsonError::Syntax);
        },
        Some(q) => q,
    };
    let j = match field_index(s, k + 1, q) {
        None => {
            return Err(JsonError::UnknownField);
        },
        Some(j) => j,
    };
    assert(spec_field_index(s@.subrange(k + 1, q as int)) == Some(j as int));
    if get_field(&seen, j) {
        return Err(JsonError::DuplicateField);
    }
    let c = skip_ws(s, q + 1);
    if !(c < s.len() && s[c] == 58) {
        return Err(JsonError::Syntax);
    }
    let v_at = skip_ws(s, c + 1);
    let true_pat = "true".as_bytes();
    let false_pat = "false".as_bytes();
    let (v, after): (bool, usize) = if bytes_match_at(s, v_at, true_pat) {
        (true, v_at + true_pat.len())
    } else if bytes_match_at(s, v_at, false_pat) {
        (false, v_at + false_pat.len())
    } else {
        return Err(JsonError::Syntax);
    };
    assert(spec_parse_bool(s@, v_at as int) == Ok::<(bool, int), JsonError>((v, after as int)));
    let acc2 = set_field(acc, j, v);
    let seen2 = set_field(seen, j, true);
    let t = skip_ws(s, after);
    if t < s.len() && s[t] == 44 {
        parse_members(s, t + 1, acc2, seen2)
    } else if t < s.len() && s[t] == 125 {
        let all_seen = seen2.checker_0_led && seen2.checker_1_led && seen2.checker_2_led
            && seen2.checker_3_led && seen2.checker_4_led && seen2.checker_5_led
            && seen2.checker_6_led && seen2.table_motor && seen2.left_hopper && seen2.right_hopper
            && seen2.lockout_solenoid_left && seen2.lockout_solenoid_right && seen2.out_hopper
            && seen2.payout_solenoid && seen2.divider_solenoid_left && seen2.divider_solenoid_right
            && seen2.ray_lamp;
        if all_seen {
            Ok((acc2, t + 1))
        } else {
            Err(JsonError::MissingField)
        }
    } else {
        Err(JsonError::Syntax)
    }
}

/// Decode an actuator record from a JSON payload: the record and the number
/// of bytes consumed, or the first error. Exactly the parse that
/// `spec_decode_outputs` describes.
pub fn decode_outputs_json(payload: &[u8]) -> (r: Result<(Outputs, usize), JsonError>)
    ensures
        (match r {
            Ok((o, n)) => Ok((o, n as int)),
            Err(e) => Err(e),
        }) == spec_decode_outputs(payload@),
        r matches Ok((o, n)) ==> n <= payload@.len(),
{
    let i = skip_ws(payload, 0);
    if !(i < payload.len() && payload[i] == 123) {
        return Err(JsonError::Syntax);
    }
    let j = skip_ws(payload, i + 1);
    if j < payload.len() && payload[j] == 125 {
        return Err(JsonError::MissingField);
    }
    let seed = Outputs {
        checker_0_led: false,
        checker_1_led: false,
        checker_2_led: false,
        checker_3_led: false,
        checker_4_led: false,
        checker_5_led: false,
        checker_6_led: false,
        table_motor: false,
        left_hopper: false,
        right_hopper: false,
        lockout_solenoid_left: false,
        lockout_solenoid_right: false,
        out_hopper: false,
        payout_solenoid: false,
        divider_solenoid_left: false,
        divider_solenoid_right: false,
        ray_lamp: false,
    };
    parse_members(payload, i + 1, seed, seed)
}


} // verus!
