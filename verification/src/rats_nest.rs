//! The device array: three chained port expanders at fixed bus addresses,
//! composed into one logical device. This module holds the pure half of the
//! driver protocol: the exact register writes that configuration and output
//! application must issue, the reads that a poll cycle must issue, and the
//! bit-level mapping between raw port bytes and the named boolean fields.
//!
//! Input bits are active-low (a clear bit means the sensor is asserted);
//! output bits are active-high, with unused bits held at zero.

use vstd::prelude::*;

use crate::mcp23017;
use crate::records::{Inputs, Outputs};

verus! {

/// All pull-ups of a port enabled.
pub const PULL_UP_ENABLED: u8 = 0xFF;

/// Every pin of a port set to output.
pub const DIRECTION_OUTPUT: u8 = 0x00;

/// Every pin of a port set to input.
pub const DIRECTION_INPUT: u8 = 0xFF;

/// Bus address of the first device of the table.
pub const ADDRESS_0: u8 = mcp23017::ADDR + 0x01;

/// Bus address of the second device of the table.
pub const ADDRESS_1: u8 = mcp23017::ADDR + 0x02;

/// Bus address of the third device of the table.
pub const ADDRESS_2: u8 = mcp23017::ADDR + 0x04;

/// The fixed device address table, in its fixed order.
pub open spec fn spec_device_address(i: int) -> u8 {
    if i == 0 {
        ADDRESS_0
    } else if i == 1 {
        ADDRESS_1
    } else {
        ADDRESS_2
    }
}

/// The address of the device at a position of the table.
pub fn device_address(i: usize) -> (a: u8)
    requires
        i < 3,
    ensures
        a == spec_device_address(i as int),
{
    if i == 0 {
        ADDRESS_0
    } else if i == 1 {
        ADDRESS_1
    } else {
        ADDRESS_2
    }
}

/// One register write transaction: `write(address, [reg, value])` on the bus.
#[derive(PartialEq, Eq, Structural, Clone, Copy, Debug)]
pub struct BusWrite {
    pub address: u8,
    pub reg: u8,
    pub value: u8,
}

/// One register read transaction: `write_read(address, [reg], one byte)` on
/// the bus.
#[derive(PartialEq, Eq, Structural, Clone, Copy, Debug)]
pub struct BusRead {
    pub address: u8,
    pub reg: u8,
}

/// The register writes that configure one device: exactly three, in the
/// fixed order direction-A (all output), direction-B (all input), pull-up-B
/// (all enabled).
pub fn configure_writes(address: u8) -> (w: Vec<BusWrite>)
    ensures
        w@.len() == 3,
        w@[0] == (BusWrite { address, reg: mcp23017::IODIRA, value: DIRECTION_OUTPUT }),
        w@[1] == (BusWrite { address, reg: mcp23017::IODIRB, value: DIRECTION_INPUT }),
        w@[2] == (BusWrite { address, reg: mcp23017::GPPUB, value: PULL_UP_ENABLED }),
{
    let mut w: Vec<BusWrite> = Vec::new();
    w.push(BusWrite { address, reg: mcp23017::IODIRA, value: DIRECTION_OUTPUT });
    w.push(BusWrite { address, reg: mcp23017::IODIRB, value: DIRECTION_INPUT });
    w.push(BusWrite { address, reg: mcp23017::GPPUB, value: PULL_UP_ENABLED });
    w
}

/// The register writes that initialize the whole device array: the three
/// configuration writes of each device, devices taken in table order. The
/// caller must issue them in this order and abort at the first failure.
pub fn initialization_writes() -> (w: Vec<BusWrite>)
    ensures
        w@.len() == 9,
        forall|i: int|
            0 <= i < 3 ==> {
                &&& w@[3 * i] == (BusWrite {
                    address: spec_device_address(i),
                    reg: mcp23017::IODIRA,
                    value: DIRECTION_OUTPUT,
                })
                &&& w@[3 * i + 1] == (BusWrite {
                    address: spec_device_address(i),
                    reg: mcp23017::IODIRB,
                    value: DIRECTION_INPUT,
                })
                &&& w@[3 * i + 2] == (BusWrite {
                    address: spec_device_address(i),
                    reg: mcp23017::GPPUB,
                    value: PULL_UP_ENABLED,
                })
            },
{
    let mut w: Vec<BusWrite> = configure_writes(ADDRESS_0);
    let mut w1: Vec<BusWrite> = configure_writes(ADDRESS_1);
    let mut w2: Vec<BusWrite> = configure_writes(ADDRESS_2);
    w.append(&mut w1);
    w.append(&mut w2);
    w
}

/// The read transactions of one poll cycle: port B of each device, devices
/// taken in table order.
pub fn input_reads() -> (r: Vec<BusRead>)
    ensures
        r@.len() == 3,
        forall|i: int|
            0 <= i < 3 ==> r@[i] == (BusRead {
                address: spec_device_address(i),
                reg: mcp23017::GPIOB,
            }),
{
    let mut r: Vec<BusRead> = Vec::new();
    r.push(BusRead { address: ADDRESS_0, reg: mcp23017::GPIOB });
    r.push(BusRead { address: ADDRESS_1, reg: mcp23017::GPIOB });
    r.push(BusRead { address: ADDRESS_2, reg: mcp23017::GPIOB });
    r
}

/// The snapshot that a raw 3-byte port-B reading decodes to. Input bits are
/// active-low: a field is asserted exactly when its bit is clear.
pub open spec fn spec_decode_inputs(value_0: u8, value_1: u8, value_2: u8) -> Inputs {
    Inputs {
        checker_0_sensor: value_2 & 0x01 == 0,
        checker_1_sensor: value_2 & 0x02 == 0,
        checker_2_sensor: value_2 & 0x04 == 0,
        checker_3_sensor: value_2 & 0x08 == 0,
        checker_4_sensor: value_2 & 0x10 == 0,
        checker_5_sensor: value_2 & 0x20 == 0,
        checker_6_sensor: value_2 & 0x40 == 0,
        tilt_switch: value_2 & 0x80 == 0,
        left_in_sensor_1: value_1 & 0x01 == 0,
        left_in_sensor_2: value_1 & 0x02 == 0,
        right_in_sensor_1: value_1 & 0x04 == 0,
        right_in_sensor_2: value_1 & 0x08 == 0,
        hopper_left_sensor: value_1 & 0x10 == 0,
        hopper_right_sensor: value_1 & 0x20 == 0,
        hopper_out_sensor: value_1 & 0x40 == 0,
        table_sensor: value_1 & 0x80 == 0,
        left_divider_sensor: value_0 & 0x01 == 0,
        right_divider_sensor: value_0 & 0x02 == 0,
        test_switch: value_0 & 0x10 == 0,
        select_switch_up: value_0 & 0x20 == 0,
        select_switch_down: value_0 & 0x40 == 0,
        enter_switch: value_0 & 0x80 == 0,
    }
}

/// Decode a raw 3-byte port-B reading, one byte per device in table order,
/// into a snapshot. A pure function of the three bytes.
pub fn decode_inputs(value_0: u8, value_1: u8, value_2: u8) -> (r: Inputs)
    ensures
        r == spec_decode_inputs(value_0, value_1, value_2),
{
    Inputs {
        checker_0_sensor: value_2 & 0x01 == 0,
        checker_1_sensor: value_2 & 0x02 == 0,
        checker_2_sensor: value_2 & 0x04 == 0,
        checker_3_sensor: value_2 & 0x08 == 0,
        checker_4_sensor: value_2 & 0x10 == 0,
        checker_5_sensor: value_2 & 0x20 == 0,
        checker_6_sensor: value_2 & 0x40 == 0,
        tilt_switch: value_2 & 0x80 == 0,
        left_in_sensor_1: value_1 & 0x01 == 0,
        left_in_sensor_2: value_1 & 0x02 == 0,
        right_in_sensor_1: value_1 & 0x04 == 0,
        right_in_sensor_2: value_1 & 0x08 == 0,
        hopper_left_sensor: value_1 & 0x10 == 0,
        hopper_right_sensor: value_1 & 0x20 == 0,
        hopper_out_sensor: value_1 & 0x40 == 0,
        table_sensor: value_1 & 0x80 == 0,
        left_divider_sensor: value_0 & 0x01 == 0,
        right_divider_sensor: value_0 & 0x02 == 0,
        test_switch: value_0 & 0x10 == 0,
        select_switch_up: value_0 & 0x20 == 0,
        select_switch_down: value_0 & 0x40 == 0,
        enter_switch: value_0 & 0x80 == 0,
    }
}

/// Decoding a raw reading is deterministic: identical raw bytes always yield
/// a bit-for-bit identical snapshot.
pub proof fn lemma_decode_inputs_deterministic(
    a0: u8,
    a1: u8,
    a2: u8,
    b0: u8,
    b1: u8,
    b2: u8,
)
    requires
        a0 == b0,
        a1 == b1,
        a2 == b2,
    ensures
        spec_decode_inputs(a0, a1, a2) == spec_decode_inputs(b0, b1, b2),
{
}

/// First output byte: the seven checker lamps and the table motor.
pub open spec fn spec_output_byte_0(o: Outputs) -> u8 {
    (if o.checker_0_led { 0x01u8 } else { 0u8 }) | (if o.checker_1_led { 0x02u8 } else { 0u8 })
        | (if o.checker_2_led { 0x04u8 } else { 0u8 }) | (if o.checker_3_led { 0x08u8 } else { 0u8 })
        | (if o.checker_4_led { 0x10u8 } else { 0u8 }) | (if o.checker_5_led { 0x20u8 } else { 0u8 })
        | (if o.checker_6_led { 0x40u8 } else { 0u8 }) | (if o.table_motor { 0x80u8 } else { 0u8 })
}

/// Second output byte: the hoppers and the solenoids.
pub open spec fn spec_output_byte_1(o: Outputs) -> u8 {
    (if o.left_hopper { 0x01u8 } else { 0u8 }) | (if o.right_hopper { 0x02u8 } else { 0u8 })
        | (if o.lockout_solenoid_left { 0x04u8 } else { 0u8 })
        | (if o.lockout_solenoid_right { 0x08u8 } else { 0u8 })
        | (if o.out_hopper { 0x10u8 } else { 0u8 }) | (if o.payout_solenoid { 0x20u8 } else { 0u8 })
        | (if o.divider_solenoid_left { 0x40u8 } else { 0u8 })
        | (if o.divider_solenoid_right { 0x80u8 } else { 0u8 })
}

/// Third output byte: only the ray lamp; every other bit is held at zero.
pub open spec fn spec_output_byte_2(o: Outputs) -> u8 {
    if o.ray_lamp {
        0x04u8
    } else {
        0u8
    }
}

/// Compute the three output bytes of an actuator record, one byte per device
/// in table order. Each bit is set exactly when its field is true; unused
/// bits are held at zero.
pub fn encode_outputs(o: &Outputs) -> (r: (u8, u8, u8))
    ensures
        r.0 == spec_output_byte_0(*o),
        r.1 == spec_output_byte_1(*o),
        r.2 == spec_output_byte_2(*o),
{
    let value_0: u8 = (if o.checker_0_led { 0x01u8 } else { 0u8 }) | (if o.checker_1_led {
        0x02u8
    } else {
        0u8
    }) | (if o.checker_2_led { 0x04u8 } else { 0u8 }) | (if o.checker_3_led { 0x08u8 } else { 0u8 })
        | (if o.checker_4_led { 0x10u8 } else { 0u8 }) | (if o.checker_5_led { 0x20u8 } else { 0u8 })
        | (if o.checker_6_led { 0x40u8 } else { 0u8 }) | (if o.table_motor { 0x80u8 } else { 0u8 });
    let value_1: u8 = (if o.left_hopper { 0x01u8 } else { 0u8 }) | (if o.right_hopper {
        0x02u8
    } else {
        0u8
    }) | (if o.lockout_solenoid_left { 0x04u8 } else { 0u8 }) | (if o.lockout_solenoid_right {
        0x08u8
    } else {
        0u8
    }) | (if o.out_hopper { 0x10u8 } else { 0u8 }) | (if o.payout_solenoid { 0x20u8 } else { 0u8 })
        | (if o.divider_solenoid_left { 0x40u8 } else { 0u8 }) | (if o.divider_solenoid_right {
        0x80u8
    } else {
        0u8
    });
    let value_2: u8 = if o.ray_lamp { 0x04u8 } else { 0u8 };
    (value_0, value_1, value_2)
}

/// The actuator record that three raw output bytes decode to: the inverse of
/// the output mapping. A bit set means the field is true.
pub open spec fn spec_decode_output_bytes(value_0: u8, value_1: u8, value_2: u8) -> Outputs {
    Outputs {
        checker_0_led: value_0 & 0x01 != 0,
        checker_1_led: value_0 & 0x02 != 0,
        checker_2_led: value_0 & 0x04 != 0,
        checker_3_led: value_0 & 0x08 != 0,
        checker_4_led: value_0 & 0x10 != 0,
        checker_5_led: value_0 & 0x20 != 0,
        checker_6_led: value_0 & 0x40 != 0,
        table_motor: value_0 & 0x80 != 0,
        left_hopper: value_1 & 0x01 != 0,
        right_hopper: value_1 & 0x02 != 0,
        lockout_solenoid_left: value_1 & 0x04 != 0,
        lockout_solenoid_right: value_1 & 0x08 != 0,
        out_hopper: value_1 & 0x10 != 0,
        payout_solenoid: value_1 & 0x20 != 0,
        divider_solenoid_left: value_1 & 0x40 != 0,
        divider_solenoid_right: value_1 & 0x80 != 0,
        ray_lamp: value_2 & 0x04 != 0,
    }
}

/// Decode three raw output bytes back into the actuator record they encode:
/// the inverse of the output mapping.
pub fn decode_output_bytes(value_0: u8, value_1: u8, value_2: u8) -> (r: Outputs)
    ensures
        r == spec_decode_output_bytes(value_0, value_1, value_2),
{
    Outputs {
        checker_0_led: value_0 & 0x01 != 0,
        checker_1_led: value_0 & 0x02 != 0,
        checker_2_led: value_0 & 0x04 != 0,
        checker_3_led: value_0 & 0x08 != 0,
        checker_4_led: value_0 & 0x10 != 0,
        checker_5_led: value_0 & 0x20 != 0,
        checker_6_led: value_0 & 0x40 != 0,
        table_motor: value_0 & 0x80 != 0,
        left_hopper: value_1 & 0x01 != 0,
        right_hopper: value_1 & 0x02 != 0,
        lockout_solenoid_left: value_1 & 0x04 != 0,
        lockout_solenoid_right: value_1 & 0x08 != 0,
        out_hopper: value_1 & 0x10 != 0,
        payout_solenoid: value_1 & 0x20 != 0,
        divider_solenoid_left: value_1 & 0x40 != 0,
        divider_solenoid_right: value_1 & 0x80 != 0,
        ray_lamp: value_2 & 0x04 != 0,
    }
}

/// Isolating each bit of an eight-way or of disjoint single-bit bytes.
proof fn lemma_or8_isolates(a0: u8, a1: u8, a2: u8, a3: u8, a4: u8, a5: u8, a6: u8, a7: u8)
    by (bit_vector)
    requires
        a0 == 0 || a0 == 0x01,
        a1 == 0 || a1 == 0x02,
        a2 == 0 || a2 == 0x04,
        a3 == 0 || a3 == 0x08,
        a4 == 0 || a4 == 0x10,
        a5 == 0 || a5 == 0x20,
        a6 == 0 || a6 == 0x40,
        a7 == 0 || a7 == 0x80,
    ensures
        (a0 | a1 | a2 | a3 | a4 | a5 | a6 | a7) & 0x01 == a0,
        (a0 | a1 | a2 | a3 | a4 | a5 | a6 | a7) & 0x02 == a1,
        (a0 | a1 | a2 | a3 | a4 | a5 | a6 | a7) & 0x04 == a2,
        (a0 | a1 | a2 | a3 | a4 | a5 | a6 | a7) & 0x08 == a3,
        (a0 | a1 | a2 | a3 | a4 | a5 | a6 | a7) & 0x10 == a4,
        (a0 | a1 | a2 | a3 | a4 | a5 | a6 | a7) & 0x20 == a5,
        (a0 | a1 | a2 | a3 | a4 | a5 | a6 | a7) & 0x40 == a6,
        (a0 | a1 | a2 | a3 | a4 | a5 | a6 | a7) & 0x80 == a7,
{
}

/// Each bit of the first output byte holds exactly its field.
proof fn lemma_byte_0_bits(o: Outputs)
    ensures
        (spec_output_byte_0(o) & 0x01 != 0) == o.checker_0_led,
        (spec_output_byte_0(o) & 0x02 != 0) == o.checker_1_led,
        (spec_output_byte_0(o) & 0x04 != 0) == o.checker_2_led,
        (spec_output_byte_0(o) & 0x08 != 0) == o.checker_3_led,
        (spec_output_byte_0(o) & 0x10 != 0) == o.checker_4_led,
        (spec_output_byte_0(o) & 0x20 != 0) == o.checker_5_led,
        (spec_output_byte_0(o) & 0x40 != 0) == o.checker_6_led,
        (spec_output_byte_0(o) & 0x80 != 0) == o.table_motor,
{
    lemma_or8_isolates(
        if o.checker_0_led { 0x01u8 } else { 0u8 },
        if o.checker_1_led { 0x02u8 } else { 0u8 },
        if o.checker_2_led { 0x04u8 } else { 0u8 },
        if o.checker_3_led { 0x08u8 } else { 0u8 },
        if o.checker_4_led { 0x10u8 } else { 0u8 },
        if o.checker_5_led { 0x20u8 } else { 0u8 },
        if o.checker_6_led { 0x40u8 } else { 0u8 },
        if o.table_motor { 0x80u8 } else { 0u8 },
    );
}

/// Each bit of the second output byte holds exactly its field.
proof fn lemma_byte_1_bits(o: Outputs)
    ensures
        (spec_output_byte_1(o) & 0x01 != 0) == o.left_hopper,
        (spec_output_byte_1(o) & 0x02 != 0) == o.right_hopper,
        (spec_output_byte_1(o) & 0x04 != 0) == o.lockout_solenoid_left,
        (spec_output_byte_1(o) & 0x08 != 0) == o.lockout_solenoid_right,
        (spec_output_byte_1(o) & 0x10 != 0) == o.out_hopper,
        (spec_output_byte_1(o) & 0x20 != 0) == o.payout_solenoid,
        (spec_output_byte_1(o) & 0x40 != 0) == o.divider_solenoid_left,
        (spec_output_byte_1(o) & 0x80 != 0) == o.divider_solenoid_right,
{
    lemma_or8_isolates(
        if o.left_hopper { 0x01u8 } else { 0u8 },
        if o.right_hopper { 0x02u8 } else { 0u8 },
        if o.lockout_solenoid_left { 0x04u8 } else { 0u8 },
        if o.lockout_solenoid_right { 0x08u8 } else { 0u8 },
        if o.out_hopper { 0x10u8 } else { 0u8 },
        if o.payout_solenoid { 0x20u8 } else { 0u8 },
        if o.divider_solenoid_left { 0x40u8 } else { 0u8 },
        if o.divider_solenoid_right { 0x80u8 } else { 0u8 },
    );
}

/// The ray-lamp bit of the third output byte holds exactly its field.
proof fn lemma_byte_2_bits(o: Outputs)
    ensures
        (spec_output_byte_2(o) & 0x04 != 0) == o.ray_lamp,
{
    assert(0x04u8 & 0x04u8 != 0) by (bit_vector);
    assert(0u8 & 0x04u8 == 0) by (bit_vector);
}

/// Round trip: the three output bytes of an actuator record decode back to
/// the record exactly, for every combination of its boolean fields.
pub proof fn lemma_output_bytes_round_trip(o: Outputs)
    ensures
        spec_decode_output_bytes(
            spec_output_byte_0(o),
            spec_output_byte_1(o),
            spec_output_byte_2(o),
        ) == o,
{
    lemma_byte_0_bits(o);
    lemma_byte_1_bits(o);
    lemma_byte_2_bits(o);
}

/// The bus writes that apply an actuator record: port A of each device in
/// table order, carrying the record's output bytes. The caller must issue
/// them in this order; a failure leaves the earlier writes applied.
pub fn output_writes(o: &Outputs) -> (w: Vec<BusWrite>)
    ensures
        w@.len() == 3,
        w@[0] == (BusWrite {
            address: spec_device_address(0),
            reg: mcp23017::GPIOA,
            value: spec_output_byte_0(*o),
        }),
        w@[1] == (BusWrite {
            address: spec_device_address(1),
            reg: mcp23017::GPIOA,
            value: spec_output_byte_1(*o),
        }),
        w@[2] == (BusWrite {
            address: spec_device_address(2),
            reg: mcp23017::GPIOA,
            value: spec_output_byte_2(*o),
        }),
{
    let (value_0, value_1, value_2) = encode_outputs(o);
    let mut w: Vec<BusWrite> = Vec::new();
    w.push(BusWrite { address: ADDRESS_0, reg: mcp23017::GPIOA, value: value_0 });
    w.push(BusWrite { address: ADDRESS_1, reg: mcp23017::GPIOA, value: value_1 });
    w.push(BusWrite { address: ADDRESS_2, reg: mcp23017::GPIOA, value: value_2 });
    w
}

} // verus!
