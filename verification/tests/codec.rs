use pac_man_ball::json::JsonError;
use pac_man_ball::json_dec::decode_outputs_json;
use pac_man_ball::json_enc::encode_inputs_json;
use pac_man_ball::records::{Inputs, Outputs};

fn canonical_outputs_json(o: &Outputs) -> String {
    format!(
        "{{\"checker_0_led\":{},\"checker_1_led\":{},\"checker_2_led\":{},\"checker_3_led\":{},\"checker_4_led\":{},\"checker_5_led\":{},\"checker_6_led\":{},\"table_motor\":{},\"left_hopper\":{},\"right_hopper\":{},\"lockout_solenoid_left\":{},\"lockout_solenoid_right\":{},\"out_hopper\":{},\"payout_solenoid\":{},\"divider_solenoid_left\":{},\"divider_solenoid_right\":{},\"ray_lamp\":{}}}",
        o.checker_0_led,
        o.checker_1_led,
        o.checker_2_led,
        o.checker_3_led,
        o.checker_4_led,
        o.checker_5_led,
        o.checker_6_led,
        o.table_motor,
        o.left_hopper,
        o.right_hopper,
        o.lockout_solenoid_left,
        o.lockout_solenoid_right,
        o.out_hopper,
        o.payout_solenoid,
        o.divider_solenoid_left,
        o.divider_solenoid_right,
        o.ray_lamp
    )
}

#[test]
fn encode_all_false_snapshot() {
    let json = encode_inputs_json(&Inputs::default());
    let expected = "{\"checker_0_sensor\":false,\"checker_1_sensor\":false,\"checker_2_sensor\":false,\"checker_3_sensor\":false,\"checker_4_sensor\":false,\"checker_5_sensor\":false,\"checker_6_sensor\":false,\"tilt_switch\":false,\"left_in_sensor_1\":false,\"left_in_sensor_2\":false,\"right_in_sensor_1\":false,\"right_in_sensor_2\":false,\"hopper_left_sensor\":false,\"hopper_right_sensor\":false,\"hopper_out_sensor\":false,\"table_sensor\":false,\"left_divider_sensor\":false,\"right_divider_sensor\":false,\"test_switch\":false,\"select_switch_up\":false,\"select_switch_down\":false,\"enter_switch\":false}";
    assert_eq!(json, expected.as_bytes().to_vec());
}

#[test]
fn encode_mixed_snapshot() {
    let mut inputs = Inputs::default();
    inputs.checker_2_sensor = true;
    inputs.tilt_switch = true;
    inputs.enter_switch = true;
    let json = encode_inputs_json(&inputs);
    let text = String::from_utf8(json).unwrap();
    assert!(text.starts_with("{\"checker_0_sensor\":false,"));
    assert!(text.contains("\"checker_2_sensor\":true,"));
    assert!(text.contains("\"tilt_switch\":true,"));
    assert!(text.ends_with("\"enter_switch\":true}"));
}

#[test]
fn decode_canonical_object() {
    let mut outputs = Outputs::default();
    outputs.checker_3_led = true;
    outputs.payout_solenoid = true;
    outputs.ray_lamp = true;
    let json = canonical_outputs_json(&outputs);
    let (decoded, consumed) = decode_outputs_json(json.as_bytes()).unwrap();
    assert_eq!(decoded, outputs);
    assert_eq!(consumed, json.len());
}

#[test]
fn decode_every_single_field_combination() {
    for bit in 0..17u32 {
        let mut outputs = Outputs::default();
        match bit {
            0 => outputs.checker_0_led = true,
            1 => outputs.checker_1_led = true,
            2 => outputs.checker_2_led = true,
            3 => outputs.checker_3_led = true,
            4 => outputs.checker_4_led = true,
            5 => outputs.checker_5_led = true,
            6 => outputs.checker_6_led = true,
            7 => outputs.table_motor = true,
            8 => outputs.left_hopper = true,
            9 => outputs.right_hopper = true,
            10 => outputs.lockout_solenoid_left = true,
            11 => outputs.lockout_solenoid_right = true,
            12 => outputs.out_hopper = true,
            13 => outputs.payout_solenoid = true,
            14 => outputs.divider_solenoid_left = true,
            15 => outputs.divider_solenoid_right = true,
            _ => outputs.ray_lamp = true,
        }
        let json = canonical_outputs_json(&outputs);
        let (decoded, consumed) = decode_outputs_json(json.as_bytes()).unwrap();
        assert_eq!(decoded, outputs);
        assert_eq!(consumed, json.len());
    }
}

#[test]
fn decode_accepts_any_member_order_and_whitespace() {
    let json = "{ \"ray_lamp\" : true , \"table_motor\": false, \"checker_6_led\":false,\n\"checker_5_led\":false, \"checker_4_led\":false, \"checker_3_led\":false,\t\"checker_2_led\":false, \"checker_1_led\":false, \"checker_0_led\":true,\"right_hopper\":false,\"left_hopper\":false,\"lockout_solenoid_left\":false,\"lockout_solenoid_right\":false,\"out_hopper\":false,\"payout_solenoid\":false,\"divider_solenoid_left\":true,\"divider_solenoid_right\":false}";
    let (decoded, consumed) = decode_outputs_json(json.as_bytes()).unwrap();
    assert!(decoded.ray_lamp);
    assert!(decoded.checker_0_led);
    assert!(decoded.divider_solenoid_left);
    assert!(!decoded.table_motor);
    assert!(!decoded.out_hopper);
    assert_eq!(consumed, json.len());
}

#[test]
fn decode_reports_missing_field() {
    let json = "{\"ray_lamp\":true}";
    assert_eq!(decode_outputs_json(json.as_bytes()), Err(JsonError::MissingField));
    assert_eq!(decode_outputs_json(b"{}"), Err(JsonError::MissingField));
}

#[test]
fn decode_reports_duplicate_field() {
    let json = "{\"ray_lamp\":true,\"ray_lamp\":false}";
    assert_eq!(decode_outputs_json(json.as_bytes()), Err(JsonError::DuplicateField));
}

#[test]
fn decode_reports_unknown_field() {
    let json = "{\"ray_gun\":true}";
    assert_eq!(decode_outputs_json(json.as_bytes()), Err(JsonError::UnknownField));
}

#[test]
fn decode_reports_malformed_payloads() {
    assert_eq!(decode_outputs_json(b""), Err(JsonError::Syntax));
    assert_eq!(decode_outputs_json(b"["), Err(JsonError::Syntax));
    assert_eq!(decode_outputs_json(b"{\"ray_lamp\":1}"), Err(JsonError::Syntax));
    assert_eq!(decode_outputs_json(b"{\"ray_lamp\" true}"), Err(JsonError::Syntax));
    assert_eq!(decode_outputs_json(b"{\"ray_lamp\":true"), Err(JsonError::Syntax));
}

#[test]
fn decode_reports_consumed_length_for_trailing_bytes() {
    let mut json = canonical_outputs_json(&Outputs::default());
    let full = json.len();
    json.push_str("  x");
    let (_, consumed) = decode_outputs_json(json.as_bytes()).unwrap();
    assert_eq!(consumed, full);
    assert!(consumed < json.len());
}
