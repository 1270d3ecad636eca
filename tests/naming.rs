use obs_client::pipe::{message_body, pipe_path};
use obs_client::inject::{injection_outcome, injector_arguments};
use obs_client::names::{
    decimal_string, exit_event_name, hook_info_name, init_event_name, keepalive_name, object_name, pipe_name,
    ready_event_name, restart_event_name, stop_event_name, texture_mapping_name,
};
use obs_client::{ExitStatus, InjectHelperError};
use std::convert::TryFrom;

#[test]
fn per_process_names_are_prefix_and_decimal_pid() {
    assert_eq!(keepalive_name(4242), "CaptureHook_KeepAlive4242");
    assert_eq!(pipe_name(4242), "CaptureHook_Pipe4242");
    assert_eq!(restart_event_name(4242), "CaptureHook_Restart4242");
    assert_eq!(stop_event_name(4242), "CaptureHook_Stop4242");
    assert_eq!(init_event_name(4242), "CaptureHook_Initialize4242");
    assert_eq!(ready_event_name(4242), "CaptureHook_HookReady4242");
    assert_eq!(exit_event_name(4242), "CaptureHook_Exit4242");
    assert_eq!(hook_info_name(4242), "CaptureHook_HookInfo4242");
    assert_eq!(object_name("X", 0), "X0");
}

#[test]
fn texture_mapping_name_has_window_and_map_id() {
    assert_eq!(texture_mapping_name(66, 7), "CaptureHook_Texture_66_7");
    assert_eq!(texture_mapping_name(0, 0), "CaptureHook_Texture_0_0");
}

#[test]
fn decimal_text_edges() {
    assert_eq!(decimal_string(0), "0");
    assert_eq!(decimal_string(9), "9");
    assert_eq!(decimal_string(10), "10");
    assert_eq!(decimal_string(1000), "1000");
    assert_eq!(decimal_string(u32::MAX), "4294967295");
}

#[test]
fn injector_arguments_are_dll_flag_and_target() {
    assert_eq!(injector_arguments(4242, true), vec!["graphics-hook64.dll", "1", "4242"]);
    assert_eq!(injector_arguments(7, false), vec!["graphics-hook64.dll", "0", "7"]);
}

#[test]
fn exit_codes_decode() {
    assert_eq!(ExitStatus::from_code(-1), ExitStatus::InjectFailed);
    assert_eq!(ExitStatus::from_code(-2), ExitStatus::InvalidParams);
    assert_eq!(ExitStatus::from_code(-3), ExitStatus::OpenProcessFail);
    assert_eq!(ExitStatus::from_code(-4), ExitStatus::UnlikelyFail);
    assert_eq!(ExitStatus::from_code(-5), ExitStatus::Unknown(-5));
    assert_eq!(ExitStatus::from_code(17), ExitStatus::Unknown(17));
    assert_eq!(ExitStatus::try_from(-3), Ok(ExitStatus::OpenProcessFail));
    assert_eq!(ExitStatus::try_from(3), Err(()));
}

#[test]
fn injection_outcome_follows_exit_code() {
    assert!(injection_outcome(Some(0)).is_ok());
    assert!(matches!(
        injection_outcome(Some(-3)),
        Err(InjectHelperError::InjectError(ExitStatus::OpenProcessFail))
    ));
    assert!(matches!(
        injection_outcome(Some(42)),
        Err(InjectHelperError::InjectError(ExitStatus::Unknown(42)))
    ));
    assert!(matches!(
        injection_outcome(None),
        Err(InjectHelperError::InjectError(ExitStatus::Unknown(0)))
    ));
}

#[test]
fn pipe_path_and_messages() {
    assert_eq!(pipe_path("CaptureHook_Pipe4242"), "\\\\.\\pipe\\CaptureHook_Pipe4242");
    assert_eq!(message_body(b"hello\0"), Some(b"hello".to_vec()));
    assert_eq!(message_body(b"\0"), Some(Vec::new()));
    assert_eq!(message_body(b"hello"), None);
    assert_eq!(message_body(b"he\0llo\0"), None);
    assert_eq!(message_body(b""), None);
}
