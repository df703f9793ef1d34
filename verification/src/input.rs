//! Input state kept by the consuming side: per-key and per-button hold
//! counters, updated once per simulation frame from drained input deltas.
//!
//! A counter of `0` means the key is up; `1` means it was pressed this
//! frame; larger values count the frames it has been held; the sentinel
//! `RELEASE_SIGNAL` marks a key released this frame, and is cleared back to
//! `0` on the next frame update.

use vstd::prelude::*;

verus! {

use crate::stream::DeltaPacket;

pub const KEYBOARD_ENTRIES: usize = 512;

pub const MOUSE_ENTRIES: usize = 24;

pub const RELEASE_SIGNAL: u16 = 0xFFFF;

pub const MAX_HOLD_FRAMES: u16 = 0xFFFF - 1;

/// Default packet slots per section of the input stream.
pub const SLOT_COUNT: u8 = 12;

/// Default section count of the input stream.
pub const SECTION_COUNT: u8 = 6;

/// A keyboard key, as a bounded index into the key table.
#[derive(Clone, Copy, Debug, Default, PartialEq, Eq, Structural, PartialOrd, Ord, Hash)]
pub struct KeyboardKeyCode(pub u16);

/// A mouse button, as a bounded index into the button table.
#[derive(Clone, Copy, Debug, Default, PartialEq, Eq, Structural, PartialOrd, Ord, Hash)]
pub struct MouseButtonIndex(pub u16);

/// How one hold counter moves forward by one frame: a release sentinel is
/// cleared, a held key counts one more frame (saturating just below the
/// sentinel), and an idle key stays idle.
pub open spec fn hold_step(state: u16) -> u16 {
    if state == RELEASE_SIGNAL {
        0
    } else if 1 <= state && state < MAX_HOLD_FRAMES {
        (state + 1) as u16
    } else {
        state
    }
}

/// A packet is in range when its code indexes into the table it is for.
pub open spec fn packet_in_range(packet: DeltaPacket) -> bool {
    match packet {
        DeltaPacket::Keyboard { code, down } => code.0 < KEYBOARD_ENTRIES as u16,
        DeltaPacket::Mouse { button, down } => button.0 < MOUSE_ENTRIES as u16,
    }
}

/// How one hold counter reacts to a press or release transition.
pub open spec fn press_step(state: u16, down: bool) -> u16 {
    if down {
        if state == 0 {
            1
        } else {
            state
        }
    } else {
        if state > 0 && state != RELEASE_SIGNAL {
            RELEASE_SIGNAL
        } else {
            state
        }
    }
}

/// How [`Keys::press_change`] relates the tables after applying one delta
/// to the tables before: the counter the delta addresses moves by
/// [`press_step`], every other counter keeps its value.
pub open spec fn press_applied(pre: Keys, post: Keys, delta: DeltaPacket) -> bool {
    match delta {
        DeltaPacket::Keyboard { code, down } => {
            &&& post.keyboard_states() == pre.keyboard_states().update(
                code.0 as int,
                press_step(pre.keyboard_states()[code.0 as int], down),
            )
            &&& post.mouse_states() == pre.mouse_states()
        },
        DeltaPacket::Mouse { button, down } => {
            &&& post.mouse_states() == pre.mouse_states().update(
                button.0 as int,
                press_step(pre.mouse_states()[button.0 as int], down),
            )
            &&& post.keyboard_states() == pre.keyboard_states()
        },
    }
}

/// Press/release/hold counter tables for the keyboard and the mouse.
#[derive(Clone, Debug)]
pub struct Keys {
    keyboard: Vec<u16>,
    mouse: Vec<u16>,
}

impl Keys {
    pub closed spec fn keyboard_states(&self) -> Seq<u16> {
        self.keyboard@
    }

    pub closed spec fn mouse_states(&self) -> Seq<u16> {
        self.mouse@
    }

    pub open spec fn wf(&self) -> bool {
        &&& self.keyboard_states().len() == KEYBOARD_ENTRIES
        &&& self.mouse_states().len() == MOUSE_ENTRIES
    }

    pub fn new() -> (r: Self)
        ensures
            r.wf(),
            forall|i: int| 0 <= i < KEYBOARD_ENTRIES ==> r.keyboard_states()[i] == 0,
            forall|i: int| 0 <= i < MOUSE_ENTRIES ==> r.mouse_states()[i] == 0,
    {
        Keys { keyboard: vec![0u16; KEYBOARD_ENTRIES], mouse: vec![0u16; MOUSE_ENTRIES] }
    }
}

impl Default for Keys {
    fn default() -> (r: Self)
        ensures
            r.wf(),
            forall|i: int| 0 <= i < KEYBOARD_ENTRIES ==> r.keyboard_states()[i] == 0,
            forall|i: int| 0 <= i < MOUSE_ENTRIES ==> r.mouse_states()[i] == 0,
    {
        Keys::new()
    }
}

impl Keys {

    /// Moves every counter forward by one frame: clears release sentinels
    /// and counts one more held frame for every key that is down.
    pub fn update(&mut self)
        requires
            old(self).wf(),
        ensures
            final(self).wf(),
            forall|i: int|
                0 <= i < KEYBOARD_ENTRIES ==> final(self).keyboard_states()[i] == hold_step(
                    old(self).keyboard_states()[i],
                ),
            forall|i: int|
                0 <= i < MOUSE_ENTRIES ==> final(self).mouse_states()[i] == hold_step(
                    old(self).mouse_states()[i],
                ),
    {
        let mut i: usize = 0;
        while i < KEYBOARD_ENTRIES
            invariant
                self.wf(),
                i <= KEYBOARD_ENTRIES,
                self.mouse_states() == old(self).mouse_states(),
                forall|j: int|
                    0 <= j < i ==> self.keyboard_states()[j] == hold_step(
                        old(self).keyboard_states()[j],
                    ),
                forall|j: int|
                    i <= j < KEYBOARD_ENTRIES ==> self.keyboard_states()[j] == old(
                        self,
                    ).keyboard_states()[j],
            decreases KEYBOARD_ENTRIES - i,
        {
            let state = self.keyboard[i];
            if state == RELEASE_SIGNAL {
                self.keyboard[i] = 0;
            } else if 1 <= state && state < MAX_HOLD_FRAMES {
                self.keyboard[i] = state + 1;
            }
            i = i + 1;
        }
        let mut i: usize = 0;
        while i < MOUSE_ENTRIES
            invariant
                self.wf(),
                i <= MOUSE_ENTRIES,
                forall|j: int|
                    0 <= j < KEYBOARD_ENTRIES ==> self.keyboard_states()[j] == hold_step(
                        old(self).keyboard_states()[j],
                    ),
                forall|j: int|
                    0 <= j < i ==> self.mouse_states()[j] == hold_step(old(self).mouse_states()[j]),
                forall|j: int|
                    i <= j < MOUSE_ENTRIES ==> self.mouse_states()[j] == old(self).mouse_states()[j],
            decreases MOUSE_ENTRIES - i,
        {
            let state = self.mouse[i];
            if state == RELEASE_SIGNAL {
                self.mouse[i] = 0;
            } else if 1 <= state && state < MAX_HOLD_FRAMES {
                self.mouse[i] = state + 1;
            }
            i = i + 1;
        }
    }

    /// Applies one input delta to the counter tables: a press arms an idle
    /// counter, a release of a held key leaves the release sentinel.
    pub fn press_change(&mut self, delta: DeltaPacket)
        requires
            old(self).wf(),
            packet_in_range(delta),
        ensures
            final(self).wf(),
            press_applied(*old(self), *final(self), delta),
    {
        match delta {
            DeltaPacket::Keyboard { code, down } => {
                let i = code.0 as usize;
                let state = self.keyboard[i];
                if down {
                    if state == 0 {
                        self.keyboard[i] = 1;
                    } else {
                        self.keyboard[i] = state;
                    }
                } else {
                    if state > 0 && state != RELEASE_SIGNAL {
                        self.keyboard[i] = RELEASE_SIGNAL;
                    } else {
                        self.keyboard[i] = state;
                    }
                }
            },
            DeltaPacket::Mouse { button, down } => {
                let i = button.0 as usize;
                let state = self.mouse[i];
                if down {
                    if state == 0 {
                        self.mouse[i] = 1;
                    } else {
                        self.mouse[i] = state;
                    }
                } else {
                    if state > 0 && state != RELEASE_SIGNAL {
                        self.mouse[i] = RELEASE_SIGNAL;
                    } else {
                        self.mouse[i] = state;
                    }
                }
            },
        }
    }

    pub fn key_frames(&self, code: KeyboardKeyCode) -> (r: u16)
        requires
            self.wf(),
            code.0 < KEYBOARD_ENTRIES as u16,
        ensures
            r == self.keyboard_states()[code.0 as int],
    {
        self.keyboard[code.0 as usize]
    }

    /// True while the key is down (pressed or held), false once released.
    pub fn key_down(&self, code: KeyboardKeyCode) -> (r: bool)
        requires
            self.wf(),
            code.0 < KEYBOARD_ENTRIES as u16,
        ensures
            r == (self.keyboard_states()[code.0 as int] != 0
                && self.keyboard_states()[code.0 as int] != RELEASE_SIGNAL),
    {
        let frames = self.key_frames(code);
        frames != 0 && frames != RELEASE_SIGNAL
    }

    /// True exactly on the frame the key went down.
    pub fn key_pressed(&self, code: KeyboardKeyCode) -> (r: bool)
        requires
            self.wf(),
            code.0 < KEYBOARD_ENTRIES as u16,
        ensures
            r == (self.keyboard_states()[code.0 as int] == 1),
    {
        self.key_frames(code) == 1
    }

    /// True exactly on the frame the key went up.
    pub fn key_released(&self, code: KeyboardKeyCode) -> (r: bool)
        requires
            self.wf(),
            code.0 < KEYBOARD_ENTRIES as u16,
        ensures
            r == (self.keyboard_states()[code.0 as int] == RELEASE_SIGNAL),
    {
        self.key_frames(code) == RELEASE_SIGNAL
    }

    /// True once the key has been down for more than one frame.
    pub fn key_held(&self, code: KeyboardKeyCode) -> (r: bool)
        requires
            self.wf(),
            code.0 < KEYBOARD_ENTRIES as u16,
        ensures
            r == (self.keyboard_states()[code.0 as int] > 1),
    {
        self.key_frames(code) > 1
    }

    fn mouse_code(&self, code: MouseButtonIndex) -> (r: u16)
        ensures
            r == code.0,
    {
        code.0
    }

    fn mouse_frames(&self, code: MouseButtonIndex) -> (r: u16)
        requires
            self.wf(),
            code.0 < MOUSE_ENTRIES as u16,
        ensures
            r == self.mouse_states()[code.0 as int],
    {
        let i = self.mouse_code(code);
        self.mouse[i as usize]
    }

    /// How many frames the button has been held; zero also on the release
    /// frame.
    pub fn mouse_frames_held(&self, code: MouseButtonIndex) -> (r: u16)
        requires
            self.wf(),
            code.0 < MOUSE_ENTRIES as u16,
        ensures
            r == (if self.mouse_states()[code.0 as int] == RELEASE_SIGNAL {
                0u16
            } else {
                self.mouse_states()[code.0 as int]
            }),
    {
        let frames = self.mouse_frames(code);
        if frames == RELEASE_SIGNAL {
            return 0;
        }
        frames
    }

    /// True while the button is down (pressed or held), false once released.
    pub fn mouse_down(&self, code: MouseButtonIndex) -> (r: bool)
        requires
            self.wf(),
            code.0 < MOUSE_ENTRIES as u16,
        ensures
            r == (self.mouse_states()[code.0 as int] != 0 && self.mouse_states()[code.0 as int]
                != RELEASE_SIGNAL),
    {
        let frames = self.mouse_frames(code);
        frames != 0 && frames != RELEASE_SIGNAL
    }

    /// True exactly on the frame the button went down.
    pub fn mouse_pressed(&self, code: MouseButtonIndex) -> (r: bool)
        requires
            self.wf(),
            code.0 < MOUSE_ENTRIES as u16,
        ensures
            r == (self.mouse_states()[code.0 as int] == 1),
    {
        self.mouse_frames(code) == 1
    }

    /// True exactly on the frame the button went up.
    pub fn mouse_released(&self, code: MouseButtonIndex) -> (r: bool)
        requires
            self.wf(),
            code.0 < MOUSE_ENTRIES as u16,
        ensures
            r == (self.mouse_states()[code.0 as int] == RELEASE_SIGNAL),
    {
        self.mouse_frames(code) == RELEASE_SIGNAL
    }

    /// True once the button has been held for more than `frame_delay`
    /// frames.
    pub fn mouse_held(&self, code: MouseButtonIndex, frame_delay: u16) -> (r: bool)
        requires
            self.wf(),
            code.0 < MOUSE_ENTRIES as u16,
        ensures
            r == ((if self.mouse_states()[code.0 as int] == RELEASE_SIGNAL {
                0u16
            } else {
                self.mouse_states()[code.0 as int]
            }) > frame_delay),
    {
        self.mouse_frames_held(code) > frame_delay
    }
}

} // verus!
