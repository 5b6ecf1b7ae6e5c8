use hello_triangle::d3d::{
    feature_levels, next_device_step, DeviceStep, FEATURE_LEVEL_11_0, FEATURE_LEVEL_11_1,
    FEATURE_LEVEL_12_0, FEATURE_LEVEL_12_1, S_OK,
};
use hello_triangle::win::{message_action, MessageAction, WM_DESTROY};

const E_FAIL: u32 = 0x80004005;

#[test]
fn feature_levels_are_highest_first() {
    assert_eq!(feature_levels(), vec![0xc100, 0xc000, 0xb100, 0xb000]);
}

#[test]
fn first_step_tries_highest_level() {
    assert_eq!(next_device_step(0, E_FAIL), DeviceStep::Try(FEATURE_LEVEL_12_1));
    assert_eq!(next_device_step(0, S_OK), DeviceStep::Try(FEATURE_LEVEL_12_1));
}

#[test]
fn failure_moves_to_next_lower_level() {
    assert_eq!(next_device_step(1, E_FAIL), DeviceStep::Try(FEATURE_LEVEL_12_0));
    assert_eq!(next_device_step(2, E_FAIL), DeviceStep::Try(FEATURE_LEVEL_11_1));
    assert_eq!(next_device_step(3, E_FAIL), DeviceStep::Try(FEATURE_LEVEL_11_0));
}

#[test]
fn success_stops_creation() {
    assert_eq!(next_device_step(1, S_OK), DeviceStep::Done(S_OK));
    assert_eq!(next_device_step(4, S_OK), DeviceStep::Done(S_OK));
}

#[test]
fn all_levels_failing_reports_last_code() {
    assert_eq!(next_device_step(4, E_FAIL), DeviceStep::Done(E_FAIL));
    assert_eq!(next_device_step(9, 0x887a0004), DeviceStep::Done(0x887a0004));
}

#[test]
fn device_loop_stops_at_first_supported_level() {
    // A driver that supports 11_1 and below.
    let supported = |level: u32| level <= FEATURE_LEVEL_11_1;
    let mut attempts: usize = 0;
    let mut last = E_FAIL;
    let mut tried = Vec::new();
    let outcome = loop {
        match next_device_step(attempts, last) {
            DeviceStep::Try(level) => {
                tried.push(level);
                last = if supported(level) { S_OK } else { E_FAIL };
                attempts += 1;
            }
            DeviceStep::Done(code) => break code,
        }
    };
    assert_eq!(outcome, S_OK);
    assert_eq!(tried, vec![FEATURE_LEVEL_12_1, FEATURE_LEVEL_12_0, FEATURE_LEVEL_11_1]);
}

#[test]
fn destroy_message_posts_quit() {
    assert_eq!(message_action(WM_DESTROY), MessageAction::PostQuit);
    assert_eq!(message_action(2), MessageAction::PostQuit);
}

#[test]
fn other_messages_take_default_procedure() {
    assert_eq!(message_action(0x000f), MessageAction::DefaultProcedure);
    assert_eq!(message_action(0x0012), MessageAction::DefaultProcedure);
    assert_eq!(message_action(0), MessageAction::DefaultProcedure);
}
