use pac_man_ball::bridge::{new_bridge_pair, poll_exchange, InputsBridge, OutputsBridge};
use pac_man_ball::records::{Inputs, Outputs};

#[test]
fn new_channels_are_empty() {
    let mut inputs_bridge = InputsBridge::new();
    let mut outputs_bridge = OutputsBridge::new();
    assert_eq!(inputs_bridge.try_take(), None);
    assert_eq!(outputs_bridge.try_take(), None);
}

#[test]
fn bridge_pair_starts_empty() {
    let (mut egress, mut ingress) = new_bridge_pair();
    assert_eq!(egress.try_take(), None);
    assert_eq!(ingress.try_take(), None);
}

#[test]
fn publish_then_take() {
    let mut bridge = InputsBridge::new();
    let mut snapshot = Inputs::default();
    snapshot.tilt_switch = true;
    bridge.publish(snapshot);
    assert_eq!(bridge.try_take(), Some(snapshot));
    assert_eq!(bridge.try_take(), None);
}

#[test]
fn second_publish_wins() {
    // Publishing never blocks; without an intervening take the consumer
    // observes only the second value.
    let mut bridge = OutputsBridge::new();
    let mut first = Outputs::default();
    first.checker_0_led = true;
    let mut second = Outputs::default();
    second.ray_lamp = true;
    bridge.publish(first);
    bridge.publish(second);
    assert_eq!(bridge.try_take(), Some(second));
    assert_eq!(bridge.try_take(), None);
}

#[test]
fn poll_exchange_publishes_and_drains() {
    let mut egress = InputsBridge::new();
    let mut ingress = OutputsBridge::new();

    let mut snapshot = Inputs::default();
    snapshot.enter_switch = true;

    // No command pending: the poll never blocks, the snapshot is published.
    let drained = poll_exchange(&mut egress, &mut ingress, snapshot);
    assert_eq!(drained, None);
    assert_eq!(egress.try_take(), Some(snapshot));

    // A pending command is drained exactly once.
    let mut command = Outputs::default();
    command.left_hopper = true;
    ingress.publish(command);
    let drained = poll_exchange(&mut egress, &mut ingress, snapshot);
    assert_eq!(drained, Some(command));
    let drained = poll_exchange(&mut egress, &mut ingress, snapshot);
    assert_eq!(drained, None);
}
