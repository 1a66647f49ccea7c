//! The native calls a backend asks its host to make, and a model of what
//! those calls do to the system.
//!
//! A backend never touches the operating system. It names one call at a time,
//! the host makes it and reports what came back as a `u32`: `0` for a null
//! pointer, for `false` and for a call that returns nothing, `1` for a
//! pointer that is not null and for `true`, the number itself where the call
//! returns one.

use vstd::prelude::*;

verus! {

/// State identifier of an event source that follows the hardware state.
pub const HID_SYSTEM_STATE: u32 = 1;

/// The point where events enter the system from the hardware.
pub const HID_EVENT_TAP: u32 = 0;

/// Event flag of the command key.
pub const EVENT_FLAG_MASK_COMMAND: u64 = 0x0010_0000;

/// Mapping of a virtual-key code to a scan code.
pub const MAPVK_VK_TO_VSC: u32 = 0;

/// Keyboard input flag of a key that is being released.
pub const KEYEVENTF_KEYUP: u32 = 0x0002;

/// The native objects one simulation may hold.
#[derive(Clone, Copy, Debug, PartialEq, Eq, Structural)]
pub enum Handle {
    EventSource,
    KeyDownEvent,
    KeyUpEvent,
}

impl Handle {
    /// The handle acquired just before this one, which is released just
    /// after it.
    pub open spec fn predecessor(self) -> Option<Handle> {
        match self {
            Handle::EventSource => None,
            Handle::KeyDownEvent => Some(Handle::EventSource),
            Handle::KeyUpEvent => Some(Handle::KeyDownEvent),
        }
    }

    pub fn acquired_before(&self) -> (before: Option<Handle>)
        ensures
            before == self.predecessor(),
    {
        match self {
            Handle::EventSource => None,
            Handle::KeyDownEvent => Some(Handle::EventSource),
            Handle::KeyUpEvent => Some(Handle::KeyDownEvent),
        }
    }
}

/// One keyboard input as the ungated input interface takes it.
#[derive(Clone, Copy, Debug, PartialEq, Eq, Structural)]
pub struct KeyboardInput {
    pub virtual_key: u16,
    pub scan_code: u16,
    pub flags: u32,
    pub time: u32,
    pub extra_info: u64,
}

/// A call for the host to make.
#[derive(Clone, Copy, Debug, PartialEq, Eq, Structural)]
pub enum NativeCall {
    /// Ask whether the process is trusted to synthesise input.
    QueryTrust,
    /// Ask the same and have the system prompt the user if it is not.
    QueryTrustWithPrompt,
    /// Create an event source and hold it as `Handle::EventSource`.
    CreateEventSource { state_id: u32 },
    /// Create a keyboard event from the source held and hold it as `event`.
    CreateKeyboardEvent { event: Handle, key_code: u16, key_down: bool },
    /// Set the flags of the event held as `event`.
    SetEventFlags { event: Handle, flags: u64 },
    /// Post the event held as `event` at `tap`.
    PostEvent { event: Handle, tap: u32 },
    /// Release the object held as `handle`.
    Release { handle: Handle },
    /// Block the calling thread.
    Sleep { millis: u64 },
    /// Map a virtual-key code.
    MapVirtualKey { virtual_key: u16, map_type: u32 },
    /// Hand one keyboard input to the system; it reports how many it
    /// inserted.
    SendKeyboardInput { input: KeyboardInput },
}

/// A key as the focused application tells keys apart.
pub enum Key {
    /// The modifier keys of an event's flags.
    Modifier(u64),
    /// A key named by the key code of an event.
    Code(u16),
    /// A key named by a virtual-key code.
    Virtual(u16),
}

/// One key going down or coming up.
pub struct Stroke {
    pub key: Key,
    pub pressed: bool,
}

/// What a keyboard event holds.
pub struct KeyboardEvent {
    pub key_code: u16,
    pub key_down: bool,
    pub flags: u64,
}

/// A native object that is alive.
pub enum NativeObject {
    EventSource { state_id: u32 },
    KeyboardEvent(KeyboardEvent),
}

impl KeyboardEvent {
    /// The strokes the event stands for. With flags set the modifiers go down
    /// before the key and come up after it.
    pub open spec fn strokes(self) -> Seq<Stroke> {
        let key = Stroke { key: Key::Code(self.key_code), pressed: self.key_down };
        let modifier = Stroke { key: Key::Modifier(self.flags), pressed: self.key_down };
        if self.flags == 0 {
            seq![key]
        } else if self.key_down {
            seq![modifier, key]
        } else {
            seq![key, modifier]
        }
    }
}

impl KeyboardInput {
    /// The stroke the input stands for.
    pub open spec fn stroke(self) -> Stroke {
        Stroke {
            key: Key::Virtual(self.virtual_key),
            pressed: self.flags & KEYEVENTF_KEYUP == 0,
        }
    }
}

/// The system as the native calls leave it: a model to state against what a
/// sequence of calls amounts to.
#[verifier::ext_equal]
pub struct Desktop {
    /// Every call made, in order.
    pub calls: Seq<NativeCall>,
    /// The objects that were created and not yet released.
    pub live: Map<Handle, NativeObject>,
    /// The handles in the order they were acquired.
    pub acquired: Seq<Handle>,
    /// The handles in the order they were released.
    pub released: Seq<Handle>,
    /// The strokes that reached the focused application.
    pub strokes: Seq<Stroke>,
    /// The time spent asleep, in milliseconds.
    pub slept_millis: nat,
    /// No call so far used a handle that held nothing, created an object
    /// over one still held or asked a handle for what it cannot be.
    pub sound: bool,
}

impl Desktop {
    /// The system before any call.
    pub open spec fn untouched() -> Desktop {
        Desktop {
            calls: Seq::empty(),
            live: Map::empty(),
            acquired: Seq::empty(),
            released: Seq::empty(),
            strokes: Seq::empty(),
            slept_millis: 0,
            sound: true,
        }
    }

    /// Nothing is held.
    pub open spec fn clean(self) -> bool {
        self.live == Map::<Handle, NativeObject>::empty()
    }

    /// Every handle was acquired at most once, and all of them were released
    /// again, last acquired first.
    pub open spec fn balanced(self) -> bool {
        &&& self.clean()
        &&& self.acquired.no_duplicates()
        &&& self.released == self.acquired.reverse()
    }

    pub open spec fn holds_event(self, handle: Handle) -> bool {
        self.live.contains_key(handle) && self.live[handle] is KeyboardEvent
    }

    pub open spec fn holds_source(self) -> bool {
        self.live.contains_key(Handle::EventSource) && self.live[Handle::EventSource] is EventSource
    }

    /// Records that an object came into being under `handle`.
    pub open spec fn acquire(self, handle: Handle, object: NativeObject) -> Desktop {
        Desktop {
            live: self.live.insert(handle, object),
            acquired: self.acquired.push(handle),
            sound: self.sound && !self.live.contains_key(handle),
            ..self
        }
    }

    /// The effect of a call, leaving aside that it was made.
    pub open spec fn effect(self, call: NativeCall, returned: u32) -> Desktop {
        match call {
            NativeCall::QueryTrust | NativeCall::QueryTrustWithPrompt => self,
            NativeCall::CreateEventSource { state_id } => {
                if returned == 0 {
                    self
                } else {
                    self.acquire(Handle::EventSource, NativeObject::EventSource { state_id })
                }
            },
            NativeCall::CreateKeyboardEvent { event, key_code, key_down } => {
                let checked = Desktop {
                    sound: self.sound && self.holds_source() && event != Handle::EventSource,
                    ..self
                };
                if returned == 0 {
                    checked
                } else {
                    checked.acquire(
                        event,
                        NativeObject::KeyboardEvent(KeyboardEvent { key_code, key_down, flags: 0 }),
                    )
                }
            },
            NativeCall::SetEventFlags { event, flags } => {
                if self.holds_event(event) {
                    let before = self.live[event]->KeyboardEvent_0;
                    Desktop {
                        live: self.live.insert(
                            event,
                            NativeObject::KeyboardEvent(KeyboardEvent { flags, ..before }),
                        ),
                        ..self
                    }
                } else {
                    Desktop { sound: false, ..self }
                }
            },
            NativeCall::PostEvent { event, .. } => {
                if self.holds_event(event) {
                    Desktop {
                        strokes: self.strokes + self.live[event]->KeyboardEvent_0.strokes(),
                        ..self
                    }
                } else {
                    Desktop { sound: false, ..self }
                }
            },
            NativeCall::Release { handle } => {
                if self.live.contains_key(handle) {
                    Desktop {
                        live: self.live.remove(handle),
                        released: self.released.push(handle),
                        ..self
                    }
                } else {
                    Desktop { sound: false, ..self }
                }
            },
            NativeCall::Sleep { millis } => {
                Desktop { slept_millis: self.slept_millis + millis as nat, ..self }
            },
            NativeCall::MapVirtualKey { .. } => self,
            NativeCall::SendKeyboardInput { input } => {
                if returned == 1 {
                    Desktop { strokes: self.strokes.push(input.stroke()), ..self }
                } else {
                    self
                }
            },
        }
    }

    /// The system after the host has made `call` and seen `returned`.
    pub open spec fn apply(self, call: NativeCall, returned: u32) -> Desktop {
        let after = self.effect(call, returned);
        Desktop { calls: self.calls.push(call), ..after }
    }
}

} // verus!
