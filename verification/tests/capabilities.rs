use ergonomic::error::{SimulationError, Stage};
use ergonomic::native::NativeCall;
use ergonomic::permission::PermissionFlow;
use ergonomic::platform::{ErgonomicCapabilities, Platform};
use ergonomic::{
    check_ergonomic_permissions, get_ergonomic_capabilities, linux, macos,
    request_ergonomic_permissions, windows,
};

fn all_platforms() -> Vec<Platform> {
    vec![Platform::MacOs, Platform::Windows, Platform::Linux, Platform::Other]
}

fn settle(mut flow: PermissionFlow, system_says: u32, calls: &mut Vec<NativeCall>) -> bool {
    for _ in 0..4 {
        match flow.pending() {
            Some(call) => {
                calls.push(call);
                flow = flow.resume(system_says);
            }
            None => return flow.answer().unwrap(),
        }
    }
    panic!("the flow did not settle");
}

#[test]
fn capabilities_of_the_gated_platform() {
    assert_eq!(
        get_ergonomic_capabilities(Platform::MacOs),
        ErgonomicCapabilities {
            platform_supported: true,
            requires_permissions: true,
            has_native_permission_dialog: true,
        }
    );
}

#[test]
fn capabilities_of_the_ungated_platform() {
    assert_eq!(
        get_ergonomic_capabilities(Platform::Windows),
        ErgonomicCapabilities {
            platform_supported: true,
            requires_permissions: false,
            has_native_permission_dialog: false,
        }
    );
}

#[test]
fn capabilities_of_platforms_without_backend() {
    let nothing = ErgonomicCapabilities {
        platform_supported: false,
        requires_permissions: false,
        has_native_permission_dialog: false,
    };
    assert_eq!(get_ergonomic_capabilities(Platform::Linux), nothing);
    assert_eq!(get_ergonomic_capabilities(Platform::Other), nothing);
}

#[test]
fn capabilities_are_consistent_on_every_platform() {
    for platform in all_platforms() {
        let caps = get_ergonomic_capabilities(platform);
        assert!(!caps.requires_permissions || caps.platform_supported);
        assert!(!caps.has_native_permission_dialog || caps.requires_permissions);
        assert_eq!(caps.platform_supported, platform.is_supported());
        assert_eq!(caps.requires_permissions, platform.is_gated());
    }
}

#[test]
fn ungated_permissions_are_always_granted() {
    for round in 0..5 {
        let mut calls = Vec::new();
        if round % 2 == 0 {
            assert!(settle(check_ergonomic_permissions(Platform::Windows), 0, &mut calls));
            assert!(settle(request_ergonomic_permissions(Platform::Windows), 0, &mut calls));
        } else {
            assert!(settle(request_ergonomic_permissions(Platform::Windows), 0, &mut calls));
            assert!(settle(check_ergonomic_permissions(Platform::Windows), 0, &mut calls));
        }
        assert!(calls.is_empty());
    }
    assert!(windows::check_permissions());
    assert!(windows::request_permissions());
}

#[test]
fn unsupported_permissions_are_never_granted() {
    for platform in [Platform::Linux, Platform::Other] {
        let mut calls = Vec::new();
        assert!(!settle(check_ergonomic_permissions(platform), 1, &mut calls));
        assert!(!settle(request_ergonomic_permissions(platform), 1, &mut calls));
        assert!(calls.is_empty());
    }
    assert!(!linux::check_permissions());
    assert!(!linux::request_permissions());
}

#[test]
fn gated_check_answers_what_the_system_answers() {
    let mut calls = Vec::new();
    assert!(settle(check_ergonomic_permissions(Platform::MacOs), 1, &mut calls));
    assert!(!settle(check_ergonomic_permissions(Platform::MacOs), 0, &mut calls));
    assert_eq!(calls, vec![NativeCall::QueryTrust, NativeCall::QueryTrust]);
    assert_eq!(macos::check_permissions(), PermissionFlow::Asking);
}

#[test]
fn gated_request_answers_initiated_not_granted() {
    let mut calls = Vec::new();
    assert!(settle(request_ergonomic_permissions(Platform::MacOs), 0, &mut calls));
    assert!(settle(request_ergonomic_permissions(Platform::MacOs), 1, &mut calls));
    assert_eq!(
        calls,
        vec![NativeCall::QueryTrustWithPrompt, NativeCall::QueryTrustWithPrompt]
    );
    // whether trust was granted shows only in a later check
    assert!(!settle(check_ergonomic_permissions(Platform::MacOs), 0, &mut calls));
    assert_eq!(macos::request_permissions(), PermissionFlow::Prompting);
}

#[test]
fn settled_flow_stays_settled() {
    let flow = PermissionFlow::Settled(true);
    assert_eq!(flow.pending(), None);
    assert_eq!(flow.resume(0), PermissionFlow::Settled(true));
    assert_eq!(flow.answer(), Some(true));
    assert_eq!(PermissionFlow::Asking.answer(), None);
    assert_eq!(PermissionFlow::Prompting.answer(), None);
}

#[test]
fn messages_of_every_error() {
    let message = |e: SimulationError| e.message();
    assert_eq!(
        message(SimulationError::NativeApiFailure(Stage::EventSource)),
        "Failed to create event source"
    );
    assert_eq!(
        message(SimulationError::NativeApiFailure(Stage::KeyDown)),
        "Failed to create key down event"
    );
    assert_eq!(
        message(SimulationError::NativeApiFailure(Stage::KeyUp)),
        "Failed to create key up event"
    );
    assert_eq!(message(SimulationError::NativeApiFailure(Stage::SendInput)), "SendInput failed");
    assert_eq!(
        message(SimulationError::PlatformUnsupported(Platform::Linux)),
        "Linux support not yet implemented"
    );
    assert_eq!(
        message(SimulationError::PlatformUnsupported(Platform::Other)),
        "Platform not supported"
    );
}

#[test]
fn messages_tell_the_stages_apart() {
    let stages = [Stage::EventSource, Stage::KeyDown, Stage::KeyUp, Stage::SendInput];
    for a in stages {
        for b in stages {
            let same = SimulationError::NativeApiFailure(a).message()
                == SimulationError::NativeApiFailure(b).message();
            assert_eq!(same, a == b);
            assert_eq!(a.tag() == b.tag(), a == b);
        }
    }
}

#[test]
fn tags_of_the_stages() {
    assert_eq!(Stage::EventSource.tag(), "event-source");
    assert_eq!(Stage::KeyDown.tag(), "key-down");
    assert_eq!(Stage::KeyUp.tag(), "key-up");
    assert_eq!(Stage::SendInput.tag(), "send-input");
}

#[test]
fn error_classes() {
    assert!(SimulationError::PlatformUnsupported(Platform::Linux).is_platform_unsupported());
    assert!(!SimulationError::NativeApiFailure(Stage::KeyUp).is_platform_unsupported());
    assert_eq!(SimulationError::NativeApiFailure(Stage::KeyUp).stage(), Some(Stage::KeyUp));
    assert_eq!(SimulationError::PlatformUnsupported(Platform::Other).stage(), None);
}

#[test]
fn linux_refuses_to_simulate() {
    assert_eq!(linux::simulate_copy(), Err("Linux support not yet implemented".to_string()));
    assert_eq!(linux::simulate_paste(), Err("Linux support not yet implemented".to_string()));
}
