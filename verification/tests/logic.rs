use pac_man_ball::logic::{init, LogicController};

#[test]
fn test_logic_controller_creation() {
    let controller = LogicController::new(42);
    assert_eq!(controller.id, 42);
}

#[test]
fn test_logic_controller_process() {
    let controller = LogicController::new(21);
    let result = controller.process();
    assert_eq!(result, 42); // 21 * 2
}

#[test]
fn test_init_function() {
    let controller = init();
    assert_eq!(controller.id, 1);

    let result = controller.process();
    assert_eq!(result, 2); // 1 * 2
}

#[test]
fn test_executor_integration() {
    let controller = LogicController::new(10);

    let result = controller.process();
    assert_eq!(result, 20);
}
