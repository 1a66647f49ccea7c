//! What holds of every run of a simulation and of a permission flow,
//! whatever the system replies.

use crate::error::{SimulationError, Stage};
use crate::macos;
use crate::native::{Desktop, Handle, Key, NativeCall, Stroke, EVENT_FLAG_MASK_COMMAND};
use crate::permission::PermissionFlow;
use crate::platform::{ErgonomicCapabilities, Platform};
use crate::simulation::{ShortcutKey, Simulation};
use crate::windows;
use vstd::prelude::*;

verus! {

/// What a run keeps true from round to round.
spec fn on_track(simulation: Simulation, desktop: Desktop, replies: Seq<u32>, rounds: nat) -> bool {
    &&& desktop == simulation.footprint(replies)
    &&& match simulation {
        Simulation::Unsupported { .. } => true,
        Simulation::Command(shortcut) => shortcut.phase.wf(),
        Simulation::Control(shortcut) => {
            &&& shortcut.follows(replies)
            &&& shortcut.spec_pending() is Some ==> shortcut.calls_made() == if rounds
                <= replies.len() {
                rounds
            } else {
                replies.len()
            }
        },
    }
}

proof fn lemma_run_on_track(platform: Platform, key: ShortcutKey, replies: Seq<u32>, rounds: nat)
    ensures
        on_track(
            Simulation::begin(platform, key).run(replies, rounds).0,
            Simulation::begin(platform, key).run(replies, rounds).1,
            replies,
            rounds,
        ),
    decreases rounds,
{
    let start = Simulation::begin(platform, key);
    if rounds == 0 {
        macos::lemma_start_footprint(key.key_code());
        windows::lemma_start_footprint(key.virtual_key(), replies);
    } else {
        lemma_run_on_track(platform, key, replies, (rounds - 1) as nat);
        let (simulation, desktop) = start.run(replies, (rounds - 1) as nat);
        if simulation.spec_pending() is Some && rounds <= replies.len() {
            match simulation {
                Simulation::Unsupported { .. } => {},
                Simulation::Command(shortcut) => {
                    macos::lemma_resume_footprint(shortcut, replies[rounds - 1]);
                },
                Simulation::Control(shortcut) => {
                    windows::lemma_resume_footprint(shortcut, replies);
                },
            }
        }
    }
}

/// A run leaves the system as the footprint of the simulation says, and the
/// simulation well formed.
pub proof fn lemma_run_footprint(
    platform: Platform,
    key: ShortcutKey,
    replies: Seq<u32>,
    rounds: nat,
)
    ensures
        Simulation::begin(platform, key).run(replies, rounds).0.wf(),
        Simulation::begin(platform, key).run(replies, rounds).1 == Simulation::begin(
            platform,
            key,
        ).run(replies, rounds).0.footprint(replies),
{
    lemma_run_on_track(platform, key, replies, rounds);
}

/// No call of a run uses a handle that holds nothing, creates an object over
/// one that is still held or releases a handle twice, whatever the system
/// replies and wherever the run stands.
pub proof fn lemma_run_is_sound(
    platform: Platform,
    key: ShortcutKey,
    replies: Seq<u32>,
    rounds: nat,
)
    ensures
        Simulation::begin(platform, key).run(replies, rounds).1.sound,
{
    lemma_run_on_track(platform, key, replies, rounds);
}

/// When a simulation has ended, with whatever verdict, nothing is held:
/// every handle that was acquired was acquired once and released once, the
/// last acquired first.
pub proof fn lemma_ended_run_is_balanced(
    platform: Platform,
    key: ShortcutKey,
    replies: Seq<u32>,
    rounds: nat,
)
    requires
        Simulation::begin(platform, key).run(replies, rounds).0.spec_verdict() is Some,
    ensures
        Simulation::begin(platform, key).run(replies, rounds).1.balanced(),
{
    lemma_run_on_track(platform, key, replies, rounds);
    let desktop = Simulation::begin(platform, key).run(replies, rounds).1;
    assert(desktop.live =~= Map::empty());
    assert(desktop.released =~= desktop.acquired.reverse());
}

/// The modifier key of shortcuts on a platform that has a backend.
pub open spec fn modifier(platform: Platform) -> Key {
    if platform is MacOs {
        Key::Modifier(EVENT_FLAG_MASK_COMMAND)
    } else {
        Key::Virtual(windows::VK_CONTROL)
    }
}

/// The key that makes `key` together with the modifier.
pub open spec fn main_key(platform: Platform, key: ShortcutKey) -> Key {
    if platform is MacOs {
        Key::Code(key.key_code())
    } else {
        Key::Virtual(key.virtual_key())
    }
}

/// A simulation that succeeds has let the focused application see exactly
/// four strokes: the modifier going down, the key going down, the key coming
/// up, the modifier coming up.
pub proof fn lemma_successful_run_strokes(
    platform: Platform,
    key: ShortcutKey,
    replies: Seq<u32>,
    rounds: nat,
)
    requires
        Simulation::begin(platform, key).run(replies, rounds).0.spec_verdict() == Some(
            Ok::<(), SimulationError>(()),
        ),
    ensures
        platform.supported(),
        Simulation::begin(platform, key).run(replies, rounds).1.strokes == seq![
            Stroke { key: modifier(platform), pressed: true },
            Stroke { key: main_key(platform, key), pressed: true },
            Stroke { key: main_key(platform, key), pressed: false },
            Stroke { key: modifier(platform), pressed: false },
        ],
{
    lemma_run_on_track(platform, key, replies, rounds);
    lemma_run_keeps_key(platform, key, replies, rounds);
}

/// A run changes neither the backend nor the key of the simulation.
proof fn lemma_run_keeps_key(platform: Platform, key: ShortcutKey, replies: Seq<u32>, rounds: nat)
    ensures
        match Simulation::begin(platform, key).run(replies, rounds).0 {
            Simulation::Unsupported { platform: p, key: k } => !platform.supported() && p
                == platform && k == key,
            Simulation::Command(shortcut) => platform is MacOs && shortcut.key_code
                == key.key_code(),
            Simulation::Control(shortcut) => platform is Windows && shortcut.key_code
                == key.virtual_key(),
        },
    decreases rounds,
{
    if rounds > 0 {
        lemma_run_keeps_key(platform, key, replies, (rounds - 1) as nat);
    }
}

/// Where the platform has no backend a simulation has ended before it began,
/// with an error that says so, and no native call is ever made.
pub proof fn lemma_unsupported_platform_makes_no_call(
    platform: Platform,
    key: ShortcutKey,
    replies: Seq<u32>,
    rounds: nat,
)
    requires
        !platform.supported(),
    ensures
        Simulation::begin(platform, key).run(replies, rounds).0.spec_verdict() == Some(
            Err::<(), _>(SimulationError::PlatformUnsupported(platform)),
        ),
        SimulationError::PlatformUnsupported(platform).unsupported(),
        Simulation::begin(platform, key).run(replies, rounds).1 == Desktop::untouched(),
{
    lemma_run_on_track(platform, key, replies, rounds);
    lemma_run_keeps_key(platform, key, replies, rounds);
}

/// Once a simulation has ended further rounds change nothing.
pub proof fn lemma_ended_run_stays(
    platform: Platform,
    key: ShortcutKey,
    replies: Seq<u32>,
    ended: nat,
    rounds: nat,
)
    requires
        Simulation::begin(platform, key).run(replies, ended).0.spec_verdict() is Some,
        ended <= rounds,
    ensures
        Simulation::begin(platform, key).run(replies, rounds) == Simulation::begin(
            platform,
            key,
        ).run(replies, ended),
    decreases rounds,
{
    if ended < rounds {
        lemma_ended_run_stays(platform, key, replies, ended, (rounds - 1) as nat);
        lemma_run_on_track(platform, key, replies, (rounds - 1) as nat);
    }
}

/// Every round in which a call is made brings the end nearer.
proof fn lemma_run_progress(platform: Platform, key: ShortcutKey, replies: Seq<u32>, rounds: nat)
    requires
        rounds <= replies.len(),
    ensures
        Simulation::begin(platform, key).run(replies, rounds).0.calls_left() + rounds
            <= Simulation::begin(platform, key).calls_left() || Simulation::begin(
            platform,
            key,
        ).run(replies, rounds).0.spec_verdict() is Some,
    decreases rounds,
{
    if rounds > 0 {
        lemma_run_progress(platform, key, replies, (rounds - 1) as nat);
        lemma_run_on_track(platform, key, replies, (rounds - 1) as nat);
        lemma_run_on_track(platform, key, replies, rounds);
    }
}

/// A simulation ends: after ten calls at most where the modifier is the
/// command key, twelve where it is the control key, none where there is no
/// backend.
pub proof fn lemma_run_ends(platform: Platform, key: ShortcutKey, replies: Seq<u32>, rounds: nat)
    requires
        Simulation::begin(platform, key).calls_left() <= rounds,
        Simulation::begin(platform, key).calls_left() <= replies.len(),
    ensures
        Simulation::begin(platform, key).calls_left() == match platform {
            Platform::MacOs => 10nat,
            Platform::Windows => 12nat,
            _ => 0nat,
        },
        Simulation::begin(platform, key).run(replies, rounds).0.spec_verdict() is Some,
{
    let enough = Simulation::begin(platform, key).calls_left();
    lemma_run_progress(platform, key, replies, enough);
    lemma_run_on_track(platform, key, replies, enough);
    lemma_ended_run_stays(platform, key, replies, enough, rounds);
}

/// However long the host goes on and whatever the system replies, a run
/// makes no more calls than its backend allows for.
pub proof fn lemma_run_calls_bounded(
    platform: Platform,
    key: ShortcutKey,
    replies: Seq<u32>,
    rounds: nat,
)
    ensures
        Simulation::begin(platform, key).run(replies, rounds).1.calls.len() <= Simulation::begin(
            platform,
            key,
        ).calls_left(),
{
    lemma_run_on_track(platform, key, replies, rounds);
    lemma_run_keeps_key(platform, key, replies, rounds);
    match Simulation::begin(platform, key).run(replies, rounds).0 {
        Simulation::Unsupported { .. } => {},
        Simulation::Command(shortcut) => {
            macos::lemma_footprint_calls(shortcut);
        },
        Simulation::Control(shortcut) => {
            windows::lemma_footprint_calls(shortcut, replies);
        },
    }
}

/// With the command key the verdict is decided by the three creations: the
/// first that returns nothing names the stage that failed, and the
/// simulation succeeds if none does. What was acquired before is released,
/// and an event that was posted stays posted: after a failure to create the
/// key-up event the application has seen the key go down.
pub proof fn lemma_command_run_verdict(key: ShortcutKey, replies: Seq<u32>, rounds: nat)
    requires
        10 <= rounds,
        10 <= replies.len(),
    ensures
        ({
            let (simulation, desktop) = Simulation::begin(Platform::MacOs, key).run(
                replies,
                rounds,
            );
            let source = Handle::EventSource;
            let down = Handle::KeyDownEvent;
            let up = Handle::KeyUpEvent;
            if replies[0] == 0 {
                &&& simulation.spec_verdict() == Some(
                    Err::<(), _>(SimulationError::NativeApiFailure(Stage::EventSource)),
                )
                &&& desktop.calls.len() == 1
                &&& desktop.acquired == Seq::<Handle>::empty()
                &&& desktop.released == Seq::<Handle>::empty()
                &&& desktop.strokes == Seq::<Stroke>::empty()
            } else if replies[1] == 0 {
                &&& simulation.spec_verdict() == Some(
                    Err::<(), _>(SimulationError::NativeApiFailure(Stage::KeyDown)),
                )
                &&& desktop.calls.len() == 3
                &&& desktop.acquired == seq![source]
                &&& desktop.released == seq![source]
                &&& desktop.strokes == Seq::<Stroke>::empty()
            } else if replies[4] == 0 {
                &&& simulation.spec_verdict() == Some(
                    Err::<(), _>(SimulationError::NativeApiFailure(Stage::KeyUp)),
                )
                &&& desktop.calls.len() == 7
                &&& desktop.acquired == seq![source, down]
                &&& desktop.released == seq![down, source]
                &&& desktop.strokes == macos::chord(key.key_code(), true)
            } else {
                &&& simulation.spec_verdict() == Some(Ok::<(), SimulationError>(()))
                &&& desktop.calls.len() == 10
                &&& desktop.acquired == seq![source, down, up]
                &&& desktop.released == seq![up, down, source]
                &&& desktop.strokes == macos::chord(key.key_code(), true) + macos::chord(
                    key.key_code(),
                    false,
                )
            }
        }),
{
    lemma_command_run_phase(key, replies);
    lemma_ended_run_stays(Platform::MacOs, key, replies, 10, rounds);
    lemma_run_on_track(Platform::MacOs, key, replies, rounds);
    let (simulation, desktop) = Simulation::begin(Platform::MacOs, key).run(replies, rounds);
    assert(desktop == simulation.footprint(replies));
    if replies[0] != 0 && replies[1] != 0 && replies[4] != 0 {
        assert(desktop.strokes =~= macos::chord(key.key_code(), true) + macos::chord(
            key.key_code(),
            false,
        ));
    }
}

/// Where ten rounds take a simulation with the command key.
proof fn lemma_command_run_phase(key: ShortcutKey, replies: Seq<u32>)
    requires
        10 <= replies.len(),
    ensures
        Simulation::begin(Platform::MacOs, key).run(replies, 10).0 == Simulation::Command(
            macos::CommandShortcut {
                key_code: key.key_code(),
                phase: if replies[0] == 0 {
                    macos::Phase::Failed(Stage::EventSource)
                } else if replies[1] == 0 {
                    macos::Phase::Failed(Stage::KeyDown)
                } else if replies[4] == 0 {
                    macos::Phase::Failed(Stage::KeyUp)
                } else {
                    macos::Phase::Done
                },
            },
        ),
{
    reveal_with_fuel(Simulation::run, 11);
}

/// The inputs the system inserts before it first reports another number
/// than one, out of the four of a shortcut.
pub open spec fn inserted_inputs(replies: Seq<u32>) -> nat {
    if replies[2] != 1 {
        0
    } else if replies[5] != 1 {
        1
    } else if replies[8] != 1 {
        2
    } else if replies[11] != 1 {
        3
    } else {
        4
    }
}

/// With the control key the verdict is decided by the four sendings: the
/// simulation succeeds if the system inserts every input, and fails at the
/// first it does not insert. Nothing is sent after that one and nothing is
/// taken back: the application has seen the strokes before it, so that a key
/// may stay down. Before every input that was sent the thread has slept.
pub proof fn lemma_control_run_verdict(key: ShortcutKey, replies: Seq<u32>, rounds: nat)
    requires
        12 <= rounds,
        12 <= replies.len(),
    ensures
        ({
            let (simulation, desktop) = Simulation::begin(Platform::Windows, key).run(
                replies,
                rounds,
            );
            let inserted = inserted_inputs(replies);
            let sent = if inserted < 4 {
                inserted + 1
            } else {
                4
            };
            &&& simulation.spec_verdict() == Some(
                if inserted == 4 {
                    Ok::<(), SimulationError>(())
                } else {
                    Err::<(), _>(SimulationError::NativeApiFailure(Stage::SendInput))
                },
            )
            &&& desktop.calls == windows::script(key.virtual_key(), replies).take(3 * sent as int)
            &&& desktop.strokes == windows::chord(key.virtual_key()).take(inserted as int)
            &&& desktop.slept_millis == sent * windows::KEY_DELAY_MILLIS
            &&& desktop.acquired == Seq::<Handle>::empty()
        }),
{
    lemma_control_run_phase(key, replies);
    lemma_ended_run_stays(Platform::Windows, key, replies, 12, rounds);
    lemma_run_on_track(Platform::Windows, key, replies, rounds);
}

/// Where twelve rounds take a simulation with the control key.
proof fn lemma_control_run_phase(key: ShortcutKey, replies: Seq<u32>)
    requires
        12 <= replies.len(),
    ensures
        Simulation::begin(Platform::Windows, key).run(replies, 12).0 == Simulation::Control(
            windows::ControlShortcut {
                key_code: key.virtual_key(),
                phase: if replies[2] != 1 {
                    windows::ControlPhase::Failed(windows::Event::ControlDown)
                } else if replies[5] != 1 {
                    windows::ControlPhase::Failed(windows::Event::KeyDown)
                } else if replies[8] != 1 {
                    windows::ControlPhase::Failed(windows::Event::KeyUp)
                } else if replies[11] != 1 {
                    windows::ControlPhase::Failed(windows::Event::ControlUp)
                } else {
                    windows::ControlPhase::Done
                },
            },
        ),
{
    reveal_with_fuel(Simulation::run, 13);
}

/// With the control key every stroke the application has seen was preceded
/// by a sleep of its own, wherever the run stands; a simulation that
/// succeeds has slept four times and made its twelve calls in the order of
/// the script.
pub proof fn lemma_control_run_sleeps(key: ShortcutKey, replies: Seq<u32>, rounds: nat)
    ensures
        ({
            let (simulation, desktop) = Simulation::begin(Platform::Windows, key).run(
                replies,
                rounds,
            );
            &&& desktop.slept_millis >= desktop.strokes.len() * windows::KEY_DELAY_MILLIS
            &&& simulation.spec_verdict() == Some(Ok::<(), SimulationError>(()))
                ==> desktop.slept_millis == 4 * windows::KEY_DELAY_MILLIS && desktop.calls
                == windows::script(key.virtual_key(), replies)
        }),
{
    lemma_run_on_track(Platform::Windows, key, replies, rounds);
    lemma_run_keeps_key(Platform::Windows, key, replies, rounds);
    let (simulation, desktop) = Simulation::begin(Platform::Windows, key).run(replies, rounds);
    assert(windows::chord(key.virtual_key()).len() == 4);
    assert(windows::script(key.virtual_key(), replies).len() == 12);
    if simulation.spec_verdict() == Some(Ok::<(), SimulationError>(())) {
        assert(desktop.calls =~= windows::script(key.virtual_key(), replies));
    }
}

/// What a permission flow answers, and what it asks of the system to get
/// there. Where trust does not gate input synthesis no call is made and the
/// answer is there from the start: granted and initiated where there is a
/// backend, neither where there is none. Where trust gates it a check makes
/// one query and answers what the system answered, and a request makes one
/// query with a prompt and answers that it was initiated, whatever the
/// system says. Neither leaves a trace on the system beyond the call.
pub proof fn lemma_permission_run(
    platform: Platform,
    request: bool,
    replies: Seq<u32>,
    rounds: nat,
)
    ensures
        ({
            let start = if request {
                PermissionFlow::request(platform)
            } else {
                PermissionFlow::check(platform)
            };
            let (flow, desktop) = start.run(replies, rounds);
            if !platform.gated() {
                &&& flow == PermissionFlow::Settled(platform.supported())
                &&& desktop == Desktop::untouched()
            } else if rounds == 0 || replies.len() == 0 {
                &&& flow == start
                &&& flow.spec_answer() is None
                &&& desktop == Desktop::untouched()
            } else {
                &&& flow == PermissionFlow::Settled(request || replies[0] != 0)
                &&& desktop == (Desktop {
                    calls: seq![
                        if request {
                            NativeCall::QueryTrustWithPrompt
                        } else {
                            NativeCall::QueryTrust
                        },
                    ],
                    ..Desktop::untouched()
                })
            }
        }),
    decreases rounds,
{
    if rounds > 0 {
        lemma_permission_run(platform, request, replies, (rounds - 1) as nat);
        let start = if request {
            PermissionFlow::request(platform)
        } else {
            PermissionFlow::check(platform)
        };
        if platform.gated() && replies.len() > 0 {
            assert(start.run(replies, rounds).1.calls =~= seq![
                if request {
                    NativeCall::QueryTrustWithPrompt
                } else {
                    NativeCall::QueryTrust
                },
            ]);
        }
    }
}

/// On every platform a permission is required only where simulation is
/// supported, and a native dialog exists only where a permission is
/// required.
pub proof fn lemma_capabilities_consistent(platform: Platform)
    ensures
        ErgonomicCapabilities::of(platform).consistent(),
        ErgonomicCapabilities::of(platform).requires_permissions ==> ErgonomicCapabilities::of(
            platform,
        ).platform_supported,
{
}

} // verus!
