use obs_client::capture::{FrameAction, FrameOutcome, LaunchAction, LaunchOutcome, Resource};
use obs_client::color::frame_len;
use obs_client::hook_info::HOOK_INFO_SIZE;
use obs_client::loader::ParseError;
use obs_client::{Capture, CaptureConfig, ExitStatus, GraphicOffsetsError, InjectHelperError, ObsError};

const OUTPUT: &str = "[d3d8]\npresent=1\n[d3d9]\npresent=2\npresent_ex=3\npresent_swap=4\nd3d9_clsoff=5\nis_d3d9ex_clsoff=6\n[dxgi]\npresent=7\npresent1=8\nresize=9\n";

fn hook_block(window: u32, map_id: u32) -> Vec<u8> {
    let mut block = vec![0u8; HOOK_INFO_SIZE];
    block[12..16].copy_from_slice(&window.to_le_bytes());
    block[40..44].copy_from_slice(&map_id.to_le_bytes());
    block
}

fn expect_name(a: LaunchAction, want: &str) {
    let got = match a {
        LaunchAction::FindWindow(n)
        | LaunchAction::CreateMutex(n)
        | LaunchAction::CreatePipe(n)
        | LaunchAction::SignalExistingHook(n)
        | LaunchAction::OpenHookInfo(n)
        | LaunchAction::OpenEvent(_, n)
        | LaunchAction::SignalInit(n)
        | LaunchAction::ReadHookInfo(n)
        | LaunchAction::ReadTexture(n) => n,
        other => panic!("unexpected action {:?}", other),
    };
    assert_eq!(got, want);
}

/// Drives a launch from the hook probe up to success.
fn finish_from_hook_info(c: &mut Capture) {
    expect_name(c.launch_step(LaunchOutcome::EventSignalled(Some(true))), "CaptureHook_HookInfo4242");
    let a = c.launch_step(LaunchOutcome::MappingOpened(Ok(())));
    assert!(matches!(a, LaunchAction::LoadOffsets));
    match c.launch_step(LaunchOutcome::OffsetsOutput(Ok(OUTPUT.to_string()))) {
        LaunchAction::WriteHookInfo(g, overlay) => {
            assert_eq!(g.d3d8.present, 1);
            assert_eq!(g.dxgi.resize, 9);
            assert!(!overlay);
        }
        other => panic!("unexpected action {:?}", other),
    }
    finish_from_written(c);
}

fn finish_from_written(c: &mut Capture) {
    expect_name(c.launch_step(LaunchOutcome::Written), "CaptureHook_Restart4242");
    expect_name(c.launch_step(LaunchOutcome::Created(true)), "CaptureHook_Stop4242");
    expect_name(c.launch_step(LaunchOutcome::Created(true)), "CaptureHook_Initialize4242");
    expect_name(c.launch_step(LaunchOutcome::Created(true)), "CaptureHook_HookReady4242");
    expect_name(c.launch_step(LaunchOutcome::Created(true)), "CaptureHook_Exit4242");
    expect_name(c.launch_step(LaunchOutcome::Created(true)), "CaptureHook_Initialize4242");
    expect_name(c.launch_step(LaunchOutcome::EventSignalled(Some(true))), "CaptureHook_HookInfo4242");
    expect_name(c.launch_step(LaunchOutcome::Block(Ok(hook_block(66, 5)))), "CaptureHook_Texture_66_5");
    let a = c.launch_step(LaunchOutcome::Block(Ok(vec![0x21, 0, 0, 0])));
    assert!(matches!(a, LaunchAction::CreateDevice));
    let a = c.launch_step(LaunchOutcome::Created(true));
    assert!(matches!(a, LaunchAction::OpenSharedResource(0x21)));
    let a = c.launch_step(LaunchOutcome::Created(true));
    assert!(matches!(a, LaunchAction::Finished(Ok(()))));
}

fn locate(c: &mut Capture) {
    expect_name(c.launch_step(LaunchOutcome::Begin), "Game");
    expect_name(c.launch_step(LaunchOutcome::Window(Some((0x10, 4242, 99)))), "CaptureHook_KeepAlive4242");
    expect_name(c.launch_step(LaunchOutcome::Created(true)), "CaptureHook_Pipe4242");
    expect_name(c.launch_step(LaunchOutcome::Created(true)), "CaptureHook_Restart4242");
}

#[test]
fn window_not_found() {
    let mut c = Capture::new("Absent-Window");
    expect_name(c.launch_step(LaunchOutcome::Begin), "Absent-Window");
    let a = c.launch_step(LaunchOutcome::Window(None));
    assert!(matches!(a, LaunchAction::Finished(Err(ObsError::ProcessNotFound))));
}

#[test]
fn cold_launch_injects_then_completes() {
    let mut c = Capture::new("Game");
    locate(&mut c);
    match c.launch_step(LaunchOutcome::EventSignalled(None)) {
        LaunchAction::Inject(args) => assert_eq!(args, vec!["graphics-hook64.dll", "1", "99"]),
        other => panic!("unexpected action {:?}", other),
    }
    expect_name(c.launch_step(LaunchOutcome::InjectorRan(Ok(Some(0)))), "CaptureHook_HookInfo4242");
    let a = c.launch_step(LaunchOutcome::MappingOpened(Ok(())));
    assert!(matches!(a, LaunchAction::LoadOffsets));
    let a = c.launch_step(LaunchOutcome::OffsetsOutput(Ok(OUTPUT.to_string())));
    assert!(matches!(a, LaunchAction::WriteHookInfo(_, false)));
    finish_from_written(&mut c);
    assert_eq!(c.context.pid, 4242);
    assert_eq!(c.context.thread_id, 99);
    assert_eq!(c.context.texture_handle, 0x21);
}

#[test]
fn warm_reattach_skips_injection() {
    let mut c = Capture::new("Game");
    locate(&mut c);
    finish_from_hook_info(&mut c);
}

#[test]
fn relaunch_keeps_mutex_and_pipe() {
    let mut c = Capture::new("Game");
    locate(&mut c);
    finish_from_hook_info(&mut c);
    expect_name(c.launch_step(LaunchOutcome::Begin), "Game");
    expect_name(c.launch_step(LaunchOutcome::Window(Some((0x10, 4242, 99)))), "CaptureHook_Restart4242");
}

#[test]
fn injector_rejection() {
    let mut c = Capture::new("Game");
    locate(&mut c);
    let _ = c.launch_step(LaunchOutcome::EventSignalled(None));
    let a = c.launch_step(LaunchOutcome::InjectorRan(Ok(Some(-3))));
    assert!(matches!(
        a,
        LaunchAction::Finished(Err(ObsError::Inject(InjectHelperError::InjectError(ExitStatus::OpenProcessFail))))
    ));
}

#[test]
fn offset_parse_failure() {
    let mut c = Capture::new("Game");
    locate(&mut c);
    let _ = c.launch_step(LaunchOutcome::EventSignalled(Some(false)));
    let _ = c.launch_step(LaunchOutcome::MappingOpened(Ok(())));
    let a = c.launch_step(LaunchOutcome::OffsetsOutput(Ok("d3d8 = \"oops\"".to_string())));
    assert!(matches!(
        a,
        LaunchAction::Finished(Err(ObsError::LoadGraphicOffsets(GraphicOffsetsError::ParseOutput(_))))
    ));
    assert!(matches!(
        a,
        LaunchAction::Finished(Err(ObsError::LoadGraphicOffsets(GraphicOffsetsError::ParseOutput(
            ParseError::Entry(_, _)
        ))))
    ));
}

#[test]
fn failures_map_to_their_errors() {
    let mut c = Capture::new("Game");
    let _ = c.launch_step(LaunchOutcome::Begin);
    let _ = c.launch_step(LaunchOutcome::Window(Some((1, 2, 3))));
    assert!(matches!(c.launch_step(LaunchOutcome::Created(false)), LaunchAction::Finished(Err(ObsError::CreateMutex))));

    let mut c = Capture::new("Game");
    let _ = c.launch_step(LaunchOutcome::Begin);
    let _ = c.launch_step(LaunchOutcome::Window(Some((1, 2, 3))));
    let _ = c.launch_step(LaunchOutcome::Created(true));
    assert!(matches!(c.launch_step(LaunchOutcome::Created(false)), LaunchAction::Finished(Err(ObsError::CreatePipe))));

    let mut c = Capture::new("Game");
    locate(&mut c);
    let _ = c.launch_step(LaunchOutcome::EventSignalled(Some(true)));
    assert!(matches!(
        c.launch_step(LaunchOutcome::MappingOpened(Err(2))),
        LaunchAction::Finished(Err(ObsError::CreateFileMapping(2)))
    ));

    let mut c = Capture::new("Game");
    locate(&mut c);
    let _ = c.launch_step(LaunchOutcome::EventSignalled(Some(true)));
    let _ = c.launch_step(LaunchOutcome::MappingOpened(Ok(())));
    let _ = c.launch_step(LaunchOutcome::OffsetsOutput(Ok(OUTPUT.to_string())));
    let _ = c.launch_step(LaunchOutcome::Written);
    let _ = c.launch_step(LaunchOutcome::Created(true));
    assert!(matches!(c.launch_step(LaunchOutcome::Created(false)), LaunchAction::Finished(Err(ObsError::CreateEvent))));
}

#[test]
fn frame_acquisition() {
    let mut c = Capture::new("Game");
    locate(&mut c);
    finish_from_hook_info(&mut c);

    assert!(matches!(c.frame_step(FrameOutcome::Begin), FrameAction::CheckRestart));
    assert!(matches!(c.frame_step(FrameOutcome::RestartEvent(false)), FrameAction::MapFrame));
    match c.frame_step(FrameOutcome::Mapped(Ok((7680, 1920, 1080)))) {
        FrameAction::Frame(pitch, width, height) => {
            assert_eq!((width, height), (1920, 1080));
            assert_eq!(frame_len(pitch, height, 1), Some(8_294_400));
        }
        other => panic!("unexpected action {:?}", other),
    }

    assert!(matches!(c.frame_step(FrameOutcome::Begin), FrameAction::CheckRestart));
    assert!(matches!(c.frame_step(FrameOutcome::RestartEvent(false)), FrameAction::UnmapSurface));
    assert!(matches!(c.frame_step(FrameOutcome::Unmapped), FrameAction::MapFrame));
    assert!(matches!(
        c.frame_step(FrameOutcome::Mapped(Err(ObsError::MapSurface))),
        FrameAction::Failed(ObsError::MapSurface)
    ));
    assert!(!c.context.frame_surface);

    assert!(matches!(c.frame_step(FrameOutcome::Begin), FrameAction::CheckRestart));
    assert!(matches!(c.frame_step(FrameOutcome::RestartEvent(true)), FrameAction::Relaunch));
    assert!(matches!(
        c.frame_step(FrameOutcome::Relaunched(Err(ObsError::ProcessNotFound))),
        FrameAction::Failed(ObsError::ProcessNotFound)
    ));
}

#[test]
fn missing_restart_event_relaunches() {
    let mut c = Capture::new("Game");
    assert!(matches!(c.frame_step(FrameOutcome::Begin), FrameAction::Relaunch));
    assert!(matches!(c.frame_step(FrameOutcome::Relaunched(Ok(()))), FrameAction::MapFrame));
}

#[test]
fn teardown_releases_everything_once() {
    let mut c = Capture::new("Game");
    locate(&mut c);
    finish_from_hook_info(&mut c);
    let _ = c.frame_step(FrameOutcome::Begin);
    let _ = c.frame_step(FrameOutcome::RestartEvent(false));
    let _ = c.frame_step(FrameOutcome::Mapped(Ok((7680, 1920, 1080))));

    let released = c.teardown();
    assert_eq!(
        released,
        vec![
            Resource::FrameSurface,
            Resource::KeepAliveMutex,
            Resource::Pipe,
            Resource::RestartEvent,
            Resource::StopEvent,
            Resource::InitEvent,
            Resource::ReadyEvent,
            Resource::ExitEvent,
            Resource::Device,
            Resource::DeviceContext,
            Resource::SharedResource,
        ]
    );
    assert!(c.teardown().is_empty());

    let mut fresh = Capture::new("Game");
    assert!(fresh.teardown().is_empty());
}

#[test]
fn overlay_flag_reaches_the_control_block() {
    let mut c = Capture::with_config(CaptureConfig::new("Game", true));
    locate(&mut c);
    let _ = c.launch_step(LaunchOutcome::EventSignalled(Some(true)));
    let _ = c.launch_step(LaunchOutcome::MappingOpened(Ok(())));
    let a = c.launch_step(LaunchOutcome::OffsetsOutput(Ok(OUTPUT.to_string())));
    assert!(matches!(a, LaunchAction::WriteHookInfo(_, true)));
}

#[test]
fn short_blocks_and_missing_init_event_fail() {
    let mut c = Capture::new("Game");
    locate(&mut c);
    let _ = c.launch_step(LaunchOutcome::EventSignalled(Some(true)));
    let _ = c.launch_step(LaunchOutcome::MappingOpened(Ok(())));
    let _ = c.launch_step(LaunchOutcome::OffsetsOutput(Ok(OUTPUT.to_string())));
    let _ = c.launch_step(LaunchOutcome::Written);
    for _ in 0..5 {
        let _ = c.launch_step(LaunchOutcome::Created(true));
    }
    assert!(matches!(
        c.launch_step(LaunchOutcome::EventSignalled(None)),
        LaunchAction::Finished(Err(ObsError::CreateEvent))
    ));

    let _ = c.launch_step(LaunchOutcome::Begin);
    let _ = c.launch_step(LaunchOutcome::Window(Some((0x10, 4242, 99))));
    let _ = c.launch_step(LaunchOutcome::EventSignalled(Some(true)));
    let _ = c.launch_step(LaunchOutcome::MappingOpened(Ok(())));
    let _ = c.launch_step(LaunchOutcome::OffsetsOutput(Ok(OUTPUT.to_string())));
    let _ = c.launch_step(LaunchOutcome::Written);
    for _ in 0..5 {
        let _ = c.launch_step(LaunchOutcome::Created(true));
    }
    let _ = c.launch_step(LaunchOutcome::EventSignalled(Some(false)));
    assert!(matches!(
        c.launch_step(LaunchOutcome::Block(Err(2))),
        LaunchAction::Finished(Err(ObsError::CreateFileMapping(2)))
    ));
}
