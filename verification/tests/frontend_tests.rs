use rustsdlretro_core::{env_request, env_request_handled, take_variable_update, CoreError, EnvRequest, Throttle};

#[test]
fn throttle_waits_then_advances_one_period() {
    let mut t = Throttle::new(16666, 1000);
    assert_eq!(t.frame_time(), 16666);
    assert_eq!(t.next_frame(), 17666);
    assert_eq!(t.check_wait(1000), 16666);
    assert_eq!(t.next_frame(), 17666);
    assert_eq!(t.check_wait(20000), -2334);
    assert_eq!(t.next_frame(), 34332);
    assert_eq!(t.check_wait(34332), 0);
    assert_eq!(t.next_frame(), 50998);
    t.skip_check();
    assert_eq!(t.next_frame(), 67664);
}

#[test]
fn environment_commands() {
    assert_eq!(env_request(27), EnvRequest::GetLogInterface);
    assert_eq!(env_request(9), EnvRequest::GetSystemDirectory);
    assert_eq!(env_request(10), EnvRequest::SetPixelFormat);
    assert_eq!(env_request(16), EnvRequest::SetVariables);
    assert_eq!(env_request(17), EnvRequest::GetVariableUpdate);
    assert_eq!(env_request(68), EnvRequest::SetCoreOptionsV2Intl);
    assert_eq!(env_request(3), EnvRequest::Unsupported);
    assert!(env_request_handled(EnvRequest::GetVariable));
    assert!(!env_request_handled(EnvRequest::Unsupported));
}

#[test]
fn variable_update_flag_is_cleared() {
    let mut pending = true;
    assert!(take_variable_update(&mut pending));
    assert!(!pending);
    assert!(!take_variable_update(&mut pending));
}

#[test]
fn core_error_text() {
    let e = CoreError::new("dlopen: no such file".to_string());
    assert_eq!(e.to_display_string(), "CoreError: dlopen: no such file");
    assert_eq!(e.message, "dlopen: no such file");
}
