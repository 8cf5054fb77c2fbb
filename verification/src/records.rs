//! The domain data model: an immutable snapshot of every sensed boolean
//! state (`Inputs`) and a record of every actuator boolean state (`Outputs`).

use vstd::prelude::*;

verus! {

/// Snapshot of all sensed boolean states, produced once per poll cycle.
#[derive(PartialEq, Eq, Structural, Clone, Copy, Debug)]
pub struct Inputs {
    pub checker_0_sensor: bool,
    pub checker_1_sensor: bool,
    pub checker_2_sensor: bool,
    pub checker_3_sensor: bool,
    pub checker_4_sensor: bool,
    pub checker_5_sensor: bool,
    pub checker_6_sensor: bool,
    pub tilt_switch: bool,
    pub left_in_sensor_1: bool,
    pub left_in_sensor_2: bool,
    pub right_in_sensor_1: bool,
    pub right_in_sensor_2: bool,
    pub hopper_left_sensor: bool,
    pub hopper_right_sensor: bool,
    pub hopper_out_sensor: bool,
    pub table_sensor: bool,
    pub left_divider_sensor: bool,
    pub right_divider_sensor: bool,
    pub test_switch: bool,
    pub select_switch_up: bool,
    pub select_switch_down: bool,
    pub enter_switch: bool,
}

/// Record of all actuator boolean states, applied to hardware once per
/// receipt; defaults to all-false.
#[derive(PartialEq, Eq, Structural, Clone, Copy, Debug)]
pub struct Outputs {
    pub checker_0_led: bool,
    pub checker_1_led: bool,
    pub checker_2_led: bool,
    pub checker_3_led: bool,
    pub checker_4_led: bool,
    pub checker_5_led: bool,
    pub checker_6_led: bool,
    pub table_motor: bool,
    pub left_hopper: bool,
    pub right_hopper: bool,
    pub lockout_solenoid_left: bool,
    pub lockout_solenoid_right: bool,
    pub out_hopper: bool,
    pub payout_solenoid: bool,
    pub divider_solenoid_left: bool,
    pub divider_solenoid_right: bool,
    pub ray_lamp: bool,
}

/// Every field of the snapshot is false.
pub open spec fn inputs_all_false(i: Inputs) -> bool {
    &&& !i.checker_0_sensor
    &&& !i.checker_1_sensor
    &&& !i.checker_2_sensor
    &&& !i.checker_3_sensor
    &&& !i.checker_4_sensor
    &&& !i.checker_5_sensor
    &&& !i.checker_6_sensor
    &&& !i.tilt_switch
    &&& !i.left_in_sensor_1
    &&& !i.left_in_sensor_2
    &&& !i.right_in_sensor_1
    &&& !i.right_in_sensor_2
    &&& !i.hopper_left_sensor
    &&& !i.hopper_right_sensor
    &&& !i.hopper_out_sensor
    &&& !i.table_sensor
    &&& !i.left_divider_sensor
    &&& !i.right_divider_sensor
    &&& !i.test_switch
    &&& !i.select_switch_up
    &&& !i.select_switch_down
    &&& !i.enter_switch
}

/// Every field of the actuator record is false.
pub open spec fn outputs_all_false(o: Outputs) -> bool {
    &&& !o.checker_0_led
    &&& !o.checker_1_led
    &&& !o.checker_2_led
    &&& !o.checker_3_led
    &&& !o.checker_4_led
    &&& !o.checker_5_led
    &&& !o.checker_6_led
    &&& !o.table_motor
    &&& !o.left_hopper
    &&& !o.right_hopper
    &&& !o.lockout_solenoid_left
    &&& !o.lockout_solenoid_right
    &&& !o.out_hopper
    &&& !o.payout_solenoid
    &&& !o.divider_solenoid_left
    &&& !o.divider_solenoid_right
    &&& !o.ray_lamp
}

impl Default for Inputs {
    /// The all-false snapshot.
    fn default() -> (r: Self)
        ensures
            inputs_all_false(r),
    {
        Inputs {
            checker_0_sensor: false,
            checker_1_sensor: false,
            checker_2_sensor: false,
            checker_3_sensor: false,
            checker_4_sensor: false,
            checker_5_sensor: false,
            checker_6_sensor: false,
            tilt_switch: false,
            left_in_sensor_1: false,
            left_in_sensor_2: false,
            right_in_sensor_1: false,
            right_in_sensor_2: false,
            hopper_left_sensor: false,
            hopper_right_sensor: false,
            hopper_out_sensor: false,
            table_sensor: false,
            left_divider_sensor: false,
            right_divider_sensor: false,
            test_switch: false,
            select_switch_up: false,
            select_switch_down: false,
            enter_switch: false,
        }
    }
}

impl Default for Outputs {
    /// The all-false actuator record.
    fn default() -> (r: Self)
        ensures
            outputs_all_false(r),
    {
        Outputs {
            checker_0_led: false,
            checker_1_led: false,
            checker_2_led: false,
            checker_3_led: false,
            checker_4_led: false,
            checker_5_led: false,
            checker_6_led: false,
            table_motor: false,
            left_hopper: false,
            right_hopper: false,
            lockout_solenoid_left: false,
            lockout_solenoid_right: false,
            out_hopper: false,
            payout_solenoid: false,
            divider_solenoid_left: false,
            divider_solenoid_right: false,
            ray_lamp: false,
        }
    }
}

} // verus!
