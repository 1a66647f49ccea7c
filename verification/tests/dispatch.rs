use ergonomic::error::{SimulationError, Stage};
use ergonomic::macos;
use ergonomic::native::NativeCall;
use ergonomic::platform::Platform;
use ergonomic::simulation::{ShortcutKey, Simulation};
use ergonomic::windows;
use ergonomic::{simulate_copy, simulate_paste, simulate_shortcut};

/// Runs a simulation against a system that answers every call with `reply`
/// and counts the calls.
fn run(mut simulation: Simulation, reply: u32) -> (Result<(), String>, usize) {
    let mut calls = 0;
    for _ in 0..20 {
        match simulation.pending() {
            Some(_) => {
                calls += 1;
                simulation = simulation.resume(reply);
            }
            None => return (simulation.outcome().unwrap(), calls),
        }
    }
    panic!("the simulation did not end");
}

#[test]
fn each_platform_gets_its_backend() {
    assert_eq!(simulate_copy(Platform::MacOs), Simulation::Command(macos::simulate_copy()));
    assert_eq!(simulate_paste(Platform::MacOs), Simulation::Command(macos::simulate_paste()));
    assert_eq!(simulate_copy(Platform::Windows), Simulation::Control(windows::simulate_copy()));
    assert_eq!(simulate_paste(Platform::Windows), Simulation::Control(windows::simulate_paste()));
    assert_eq!(
        simulate_copy(Platform::Linux),
        Simulation::Unsupported { platform: Platform::Linux, key: ShortcutKey::Copy }
    );
    assert_eq!(
        simulate_paste(Platform::Other),
        Simulation::Unsupported { platform: Platform::Other, key: ShortcutKey::Paste }
    );
    assert_eq!(
        simulate_shortcut(Platform::Windows, ShortcutKey::Paste),
        simulate_paste(Platform::Windows)
    );
}

#[test]
fn unsupported_platform_makes_no_native_call() {
    for platform in [Platform::Linux, Platform::Other] {
        for simulation in [simulate_copy(platform), simulate_paste(platform)] {
            assert_eq!(simulation.pending(), None);
            assert_eq!(
                simulation.verdict(),
                Some(Err(SimulationError::PlatformUnsupported(platform)))
            );
            assert!(simulation.verdict().unwrap().unwrap_err().is_platform_unsupported());
            assert_eq!(simulation.resume(1), simulation);
            let (outcome, calls) = run(simulation, 1);
            assert!(outcome.is_err());
            assert_eq!(calls, 0);
        }
    }
}

#[test]
fn linux_outcome_carries_its_own_message() {
    let (outcome, _) = run(simulate_copy(Platform::Linux), 1);
    assert_eq!(outcome, Err("Linux support not yet implemented".to_string()));
    let (outcome, _) = run(simulate_paste(Platform::Linux), 1);
    assert_eq!(outcome, Err("Linux support not yet implemented".to_string()));
}

#[test]
fn other_platform_outcome_says_not_supported() {
    let (outcome, _) = run(simulate_copy(Platform::Other), 1);
    assert_eq!(outcome, Err("Platform not supported".to_string()));
    let (outcome, _) = run(simulate_paste(Platform::Other), 1);
    assert_eq!(outcome, Err("Platform not supported".to_string()));
}

#[test]
fn supported_platforms_succeed_when_the_system_plays_along() {
    assert_eq!(run(simulate_copy(Platform::MacOs), 1), (Ok(()), 10));
    assert_eq!(run(simulate_paste(Platform::MacOs), 1), (Ok(()), 10));
    assert_eq!(run(simulate_copy(Platform::Windows), 1), (Ok(()), 12));
    assert_eq!(run(simulate_paste(Platform::Windows), 1), (Ok(()), 12));
}

#[test]
fn outcome_is_the_message_of_the_failed_stage() {
    assert_eq!(
        run(simulate_copy(Platform::MacOs), 0),
        (Err("Failed to create event source".to_string()), 1)
    );
    assert_eq!(
        run(simulate_copy(Platform::Windows), 0),
        (Err("SendInput failed".to_string()), 3)
    );
    let key_down = simulate_copy(Platform::MacOs).resume(1).resume(0).resume(0);
    assert_eq!(key_down.outcome(), Some(Err("Failed to create key down event".to_string())));
    let key_up = simulate_copy(Platform::MacOs)
        .resume(1)
        .resume(1)
        .resume(0)
        .resume(0)
        .resume(0)
        .resume(0)
        .resume(0);
    assert_eq!(key_up.verdict(), Some(Err(SimulationError::NativeApiFailure(Stage::KeyUp))));
    assert_eq!(key_up.outcome(), Some(Err("Failed to create key up event".to_string())));
}

#[test]
fn no_outcome_before_the_end() {
    let simulation = simulate_copy(Platform::MacOs);
    assert_eq!(simulation.outcome(), None);
    assert_eq!(simulation.verdict(), None);
    assert_eq!(simulation.pending(), Some(NativeCall::CreateEventSource { state_id: 1 }));
    let simulation = simulate_paste(Platform::Windows);
    assert_eq!(simulation.outcome(), None);
    assert_eq!(simulation.pending(), Some(NativeCall::Sleep { millis: 10 }));
}

#[test]
fn simulation_forwards_to_its_backend() {
    let mut whole = simulate_paste(Platform::MacOs);
    let mut part = macos::simulate_paste();
    for reply in [1u32, 1, 0, 0, 0, 1, 1, 1, 1, 1] {
        assert_eq!(whole.pending(), part.pending());
        assert_eq!(whole.verdict(), part.verdict());
        whole = whole.resume(reply);
        part = part.resume(reply);
        assert_eq!(whole, Simulation::Command(part));
    }
    let mut whole = simulate_copy(Platform::Windows);
    let mut part = windows::simulate_copy();
    for reply in [0u32, 0x1d, 1, 0, 0x2e, 1, 0, 0x2e, 0, 1] {
        assert_eq!(whole.pending(), part.pending());
        whole = whole.resume(reply);
        part = part.resume(reply);
        assert_eq!(whole, Simulation::Control(part));
    }
    assert_eq!(whole.verdict(), Some(Err(SimulationError::NativeApiFailure(Stage::SendInput))));
}

#[test]
fn copy_twice_on_the_gated_platform_gives_two_successes() {
    let (first, first_calls) = run(simulate_copy(Platform::MacOs), 1);
    let (second, second_calls) = run(simulate_copy(Platform::MacOs), 1);
    assert_eq!(first, Ok(()));
    assert_eq!(second, Ok(()));
    assert_eq!(first_calls, second_calls);
    assert_eq!(simulate_copy(Platform::MacOs), simulate_copy(Platform::MacOs));
}
