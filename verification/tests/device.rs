use pac_man_ball::mcp23017;
use pac_man_ball::rats_nest::{
    configure_writes, decode_inputs, decode_output_bytes, device_address, encode_outputs,
    initialization_writes, input_reads, output_writes, BusWrite, DIRECTION_INPUT, DIRECTION_OUTPUT,
    PULL_UP_ENABLED,
};
use pac_man_ball::records::Outputs;

#[test]
fn device_addresses_are_fixed() {
    assert_eq!(device_address(0), 0x21);
    assert_eq!(device_address(1), 0x22);
    assert_eq!(device_address(2), 0x24);
}

#[test]
fn configure_issues_three_writes_in_order() {
    for index in 0..3usize {
        let address = device_address(index);
        let writes = configure_writes(address);
        assert_eq!(writes.len(), 3);
        assert_eq!(
            writes[0],
            BusWrite { address, reg: mcp23017::IODIRA, value: DIRECTION_OUTPUT }
        );
        assert_eq!(
            writes[1],
            BusWrite { address, reg: mcp23017::IODIRB, value: DIRECTION_INPUT }
        );
        assert_eq!(
            writes[2],
            BusWrite { address, reg: mcp23017::GPPUB, value: PULL_UP_ENABLED }
        );
    }
}

#[test]
fn initialization_covers_all_devices_in_table_order() {
    let writes = initialization_writes();
    assert_eq!(writes.len(), 9);
    for index in 0..3usize {
        let address = device_address(index);
        assert_eq!(writes[3 * index].address, address);
        assert_eq!(writes[3 * index].reg, mcp23017::IODIRA);
        assert_eq!(writes[3 * index + 1].reg, mcp23017::IODIRB);
        assert_eq!(writes[3 * index + 2].reg, mcp23017::GPPUB);
    }
}

#[test]
fn poll_reads_port_b_of_each_device() {
    let reads = input_reads();
    assert_eq!(reads.len(), 3);
    for index in 0..3usize {
        assert_eq!(reads[index].address, device_address(index));
        assert_eq!(reads[index].reg, mcp23017::GPIOB);
    }
}

#[test]
fn all_bits_set_means_nothing_asserted() {
    let inputs = decode_inputs(0xFF, 0xFF, 0xFF);
    assert!(!inputs.checker_0_sensor);
    assert!(!inputs.tilt_switch);
    assert!(!inputs.table_sensor);
    assert!(!inputs.enter_switch);
}

#[test]
fn all_bits_clear_means_everything_asserted() {
    let inputs = decode_inputs(0x00, 0x00, 0x00);
    assert!(inputs.checker_0_sensor);
    assert!(inputs.checker_6_sensor);
    assert!(inputs.tilt_switch);
    assert!(inputs.left_in_sensor_1);
    assert!(inputs.hopper_out_sensor);
    assert!(inputs.left_divider_sensor);
    assert!(inputs.test_switch);
    assert!(inputs.enter_switch);
}

#[test]
fn decode_inputs_maps_each_bit_to_its_field() {
    // Clear exactly one bit at a time and check the asserted field.
    let inputs = decode_inputs(0xFF, 0xFF, 0xFE);
    assert!(inputs.checker_0_sensor);
    assert!(!inputs.checker_1_sensor);
    let inputs = decode_inputs(0xFF, 0xFF, 0x7F);
    assert!(inputs.tilt_switch);
    let inputs = decode_inputs(0xFF, 0xEF, 0xFF);
    assert!(inputs.hopper_left_sensor);
    let inputs = decode_inputs(0x7F, 0xFF, 0xFF);
    assert!(inputs.enter_switch);
    let inputs = decode_inputs(0xEF, 0xFF, 0xFF);
    assert!(inputs.test_switch);
}

#[test]
fn decode_inputs_is_deterministic() {
    let a = decode_inputs(0x5A, 0xC3, 0x81);
    let b = decode_inputs(0x5A, 0xC3, 0x81);
    assert_eq!(a, b);
}

fn outputs_from_bits(bits: u32) -> Outputs {
    Outputs {
        checker_0_led: bits & (1 << 0) != 0,
        checker_1_led: bits & (1 << 1) != 0,
        checker_2_led: bits & (1 << 2) != 0,
        checker_3_led: bits & (1 << 3) != 0,
        checker_4_led: bits & (1 << 4) != 0,
        checker_5_led: bits & (1 << 5) != 0,
        checker_6_led: bits & (1 << 6) != 0,
        table_motor: bits & (1 << 7) != 0,
        left_hopper: bits & (1 << 8) != 0,
        right_hopper: bits & (1 << 9) != 0,
        lockout_solenoid_left: bits & (1 << 10) != 0,
        lockout_solenoid_right: bits & (1 << 11) != 0,
        out_hopper: bits & (1 << 12) != 0,
        payout_solenoid: bits & (1 << 13) != 0,
        divider_solenoid_left: bits & (1 << 14) != 0,
        divider_solenoid_right: bits & (1 << 15) != 0,
        ray_lamp: bits & (1 << 16) != 0,
    }
}

#[test]
fn encode_outputs_exact_bytes() {
    let mut outputs = Outputs::default();
    outputs.checker_0_led = true;
    outputs.table_motor = true;
    outputs.left_hopper = true;
    outputs.divider_solenoid_right = true;
    outputs.ray_lamp = true;
    let (b0, b1, b2) = encode_outputs(&outputs);
    assert_eq!(b0, 0x81);
    assert_eq!(b1, 0x81);
    assert_eq!(b2, 0x04);

    let (b0, b1, b2) = encode_outputs(&Outputs::default());
    assert_eq!((b0, b1, b2), (0, 0, 0));
}

#[test]
fn output_bytes_round_trip_all_combinations() {
    for bits in 0u32..(1 << 17) {
        let outputs = outputs_from_bits(bits);
        let (b0, b1, b2) = encode_outputs(&outputs);
        let back = decode_output_bytes(b0, b1, b2);
        assert_eq!(back, outputs);
    }
}

#[test]
fn output_writes_follow_table_order() {
    let mut outputs = Outputs::default();
    outputs.checker_1_led = true;
    outputs.out_hopper = true;
    let writes = output_writes(&outputs);
    assert_eq!(writes.len(), 3);
    for index in 0..3usize {
        assert_eq!(writes[index].address, device_address(index));
        assert_eq!(writes[index].reg, mcp23017::GPIOA);
    }
    assert_eq!(writes[0].value, 0x02);
    assert_eq!(writes[1].value, 0x10);
    assert_eq!(writes[2].value, 0x00);
}

#[test]
fn register_names() {
    assert_eq!(mcp23017::regname(0x00), "IODIRA");
    assert_eq!(mcp23017::regname(0x13), "GPIOB");
    assert_eq!(mcp23017::regname(0x12), "GPIOA");
    assert_eq!(mcp23017::regname(0x0D), "GPPUB");
}
