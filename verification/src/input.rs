//! From physical input to NES buttons: keyboard bindings (with
//! rebinding), the gamepad layout, and the display scaling modes the
//! settings panel offers.
//!
//! Keys are raylib key codes; the frontend reads the devices and hands
//! plain values in.

use vstd::prelude::*;
use crate::controller::{
    Buttons, BUTTON_A, BUTTON_B, BUTTON_DOWN, BUTTON_LEFT, BUTTON_RIGHT, BUTTON_SELECT, BUTTON_START,
    BUTTON_UP,
};

verus! {

/// Key code: no key.
pub const KEY_NULL: i32 = 0;
/// Key code: X.
pub const KEY_X: i32 = 88;
/// Key code: Z.
pub const KEY_Z: i32 = 90;
/// Key code: Escape.
pub const KEY_ESCAPE: i32 = 256;
/// Key code: Enter.
pub const KEY_ENTER: i32 = 257;
/// Key code: Backspace.
pub const KEY_BACKSPACE: i32 = 259;
/// Key code: cursor right.
pub const KEY_RIGHT: i32 = 262;
/// Key code: cursor left.
pub const KEY_LEFT: i32 = 263;
/// Key code: cursor down.
pub const KEY_DOWN: i32 = 264;
/// Key code: cursor up.
pub const KEY_UP: i32 = 265;
/// Key code: F1.
pub const KEY_F1: i32 = 290;

/// The button bit of binding slot `i`, in display order: A, B, Select,
/// Start, Up, Down, Left, Right.
pub open spec fn slot_flag(i: int) -> u8 {
    if i == 0 {
        BUTTON_A
    } else if i == 1 {
        BUTTON_B
    } else if i == 2 {
        BUTTON_SELECT
    } else if i == 3 {
        BUTTON_START
    } else if i == 4 {
        BUTTON_UP
    } else if i == 5 {
        BUTTON_DOWN
    } else if i == 6 {
        BUTTON_LEFT
    } else {
        BUTTON_RIGHT
    }
}

/// The buttons of the first `n` slots whose key is down.
pub open spec fn held_bits(down: Seq<bool>, n: int) -> u8
    decreases n,
{
    if n <= 0 {
        0
    } else if down[n - 1] {
        held_bits(down, n - 1) | slot_flag(n - 1)
    } else {
        held_bits(down, n - 1)
    }
}

/// The button bit of binding slot `i`.
pub fn button_flag(i: usize) -> (f: u8)
    requires
        i < 8,
    ensures
        f == slot_flag(i as int),
{
    if i == 0 {
        BUTTON_A
    } else if i == 1 {
        BUTTON_B
    } else if i == 2 {
        BUTTON_SELECT
    } else if i == 3 {
        BUTTON_START
    } else if i == 4 {
        BUTTON_UP
    } else if i == 5 {
        BUTTON_DOWN
    } else if i == 6 {
        BUTTON_LEFT
    } else {
        BUTTON_RIGHT
    }
}

/// Keyboard-to-controller mapping with configurable bindings.
pub struct Keyboard {
    /// Key code bound to each NES button, in slot order.
    pub keys: [i32; 8],
    /// If `Some(i)`, slot `i` waits for a new key press.
    pub listening: Option<usize>,
    /// Whether the keyboard is muted (its panel is open).
    pub visible: bool,
}

/// The default bindings: Z, X, Backspace, Enter and the cursor keys.
pub open spec fn default_keys() -> Seq<i32> {
    seq![KEY_Z, KEY_X, KEY_BACKSPACE, KEY_ENTER, KEY_UP, KEY_DOWN, KEY_LEFT, KEY_RIGHT]
}

impl Keyboard {
    /// The default bindings, not listening.
    pub fn new() -> (k: Keyboard)
        ensures
            k.keys@ == default_keys(),
            k.listening is None,
            !k.visible,
    {
        let k = Keyboard {
            keys: [KEY_Z, KEY_X, KEY_BACKSPACE, KEY_ENTER, KEY_UP, KEY_DOWN, KEY_LEFT, KEY_RIGHT],
            listening: None,
            visible: false,
        };
        assert(k.keys@ =~= default_keys());
        k
    }

    /// Stops waiting for a key.
    pub fn close(&mut self)
        ensures
            *final(self) == (Keyboard { listening: None, ..*old(self) }),
    {
        self.listening = None;
    }

    /// Starts waiting for a new key for slot `i`.
    pub fn listen(&mut self, i: usize)
        ensures
            *final(self) == (Keyboard { listening: Some(i), ..*old(self) }),
    {
        self.listening = Some(i);
    }

    /// Handles a key press while rebinding: when a slot waits and a key
    /// was pressed, the key is bound to the slot unless it is Escape or
    /// F1 (which cancel), and the slot stops waiting.
    pub fn capture(&mut self, pressed: Option<i32>)
        ensures
            match (old(self).listening, pressed) {
                (Some(idx), Some(key)) => final(self).listening is None && final(self).visible
                    == old(self).visible && final(self).keys@ == if key != KEY_ESCAPE && key
                    != KEY_F1 && idx < 8 {
                    old(self).keys@.update(idx as int, key)
                } else {
                    old(self).keys@
                },
                _ => *final(self) == *old(self),
            },
    {
        match (self.listening, pressed) {
            (Some(idx), Some(key)) => {
                if key != KEY_ESCAPE && key != KEY_F1 && idx < 8 {
                    self.keys[idx] = key;
                }
                self.listening = None;
            },
            _ => {},
        }
    }

    /// The NES buttons held, given for each slot whether its key is
    /// down; nothing while the keyboard is muted.
    pub fn poll(&self, down: [bool; 8]) -> (b: Buttons)
        ensures
            b.bits == if self.visible {
                0
            } else {
                held_bits(down@, 8)
            },
    {
        if self.visible {
            return Buttons::empty();
        }
        let mut buttons = Buttons::empty();
        let mut i: usize = 0;
        while i < 8
            invariant
                i <= 8,
                buttons.bits == held_bits(down@, i as int),
            decreases 8 - i,
        {
            if down[i] {
                buttons = buttons.union(Buttons::from_bits(button_flag(i)));
            }
            i = i + 1;
        }
        buttons
    }
}

/// Which gamepad controls are held: face buttons, the middle buttons,
/// the D-pad, and the left stick pushed past its dead zone.
#[derive(Debug, Clone, Copy, PartialEq, Eq, Structural)]
pub struct GamepadState {
    /// A (Xbox) / Cross (PS).
    pub face_down: bool,
    /// B (Xbox) / Circle (PS).
    pub face_right: bool,
    /// Start / Options.
    pub start: bool,
    /// Back / Share.
    pub back: bool,
    /// D-pad up.
    pub dpad_up: bool,
    /// D-pad down.
    pub dpad_down: bool,
    /// D-pad left.
    pub dpad_left: bool,
    /// D-pad right.
    pub dpad_right: bool,
    /// Left stick pushed left.
    pub stick_left: bool,
    /// Left stick pushed right.
    pub stick_right: bool,
    /// Left stick pushed up.
    pub stick_up: bool,
    /// Left stick pushed down.
    pub stick_down: bool,
}

/// `bits` with `flag` added when `on`.
pub open spec fn with_if(bits: u8, on: bool, flag: u8) -> u8 {
    if on {
        bits | flag
    } else {
        bits
    }
}

/// The NES buttons of a gamepad state: A/Cross is B, B/Circle is A,
/// Start is Start, Back is Select, and the D-pad or the stick are the
/// directions.
pub open spec fn gamepad_bits(g: GamepadState) -> u8 {
    let b0 = with_if(0, g.face_down, BUTTON_B);
    let b1 = with_if(b0, g.face_right, BUTTON_A);
    let b2 = with_if(b1, g.start, BUTTON_START);
    let b3 = with_if(b2, g.back, BUTTON_SELECT);
    let b4 = with_if(b3, g.dpad_up, BUTTON_UP);
    let b5 = with_if(b4, g.dpad_down, BUTTON_DOWN);
    let b6 = with_if(b5, g.dpad_left, BUTTON_LEFT);
    let b7 = with_if(b6, g.dpad_right, BUTTON_RIGHT);
    let b8 = with_if(b7, g.stick_left, BUTTON_LEFT);
    let b9 = with_if(b8, g.stick_right, BUTTON_RIGHT);
    let b10 = with_if(b9, g.stick_up, BUTTON_UP);
    with_if(b10, g.stick_down, BUTTON_DOWN)
}

/// `b` with `flag` added when `on`.
fn add_if(b: Buttons, on: bool, flag: u8) -> (r: Buttons)
    ensures
        r.bits == with_if(b.bits, on, flag),
{
    if on {
        b.union(Buttons::from_bits(flag))
    } else {
        b
    }
}

/// The NES buttons held on a gamepad; nothing when none is connected.
pub fn gamepad_buttons(available: bool, g: GamepadState) -> (b: Buttons)
    ensures
        b.bits == if available {
            gamepad_bits(g)
        } else {
            0
        },
{
    if !available {
        return Buttons::empty();
    }
    let b = Buttons::empty();
    let b = add_if(b, g.face_down, BUTTON_B);
    let b = add_if(b, g.face_right, BUTTON_A);
    let b = add_if(b, g.start, BUTTON_START);
    let b = add_if(b, g.back, BUTTON_SELECT);
    let b = add_if(b, g.dpad_up, BUTTON_UP);
    let b = add_if(b, g.dpad_down, BUTTON_DOWN);
    let b = add_if(b, g.dpad_left, BUTTON_LEFT);
    let b = add_if(b, g.dpad_right, BUTTON_RIGHT);
    let b = add_if(b, g.stick_left, BUTTON_LEFT);
    let b = add_if(b, g.stick_right, BUTTON_RIGHT);
    let b = add_if(b, g.stick_up, BUTTON_UP);
    add_if(b, g.stick_down, BUTTON_DOWN)
}

/// The buttons sent to the console: keyboard and gamepad together, or
/// nothing while the settings panel is open.
pub fn panel_buttons(panel_visible: bool, keyboard: Buttons, gamepad: Buttons) -> (b: Buttons)
    ensures
        b.bits == if panel_visible {
            0
        } else {
            keyboard.bits | gamepad.bits
        },
{
    if panel_visible {
        Buttons::empty()
    } else {
        keyboard.union(gamepad)
    }
}

/// How the NES frame is scaled to fill the window.
#[derive(Debug, Clone, Copy, PartialEq, Eq, Structural)]
pub enum ScaleMode {
    /// Native resolution centered in the window, no scaling.
    Centered,
    /// Uniform scaling that preserves the 256:240 aspect ratio.
    AspectFit,
    /// Stretches to fill the entire window.
    Stretch,
}

/// Number of scaling modes (for the settings toggle group).
pub const SCALE_MODE_COUNT: i32 = 3;

/// The mode at index `i` of the toggle group (out-of-range indices
/// pick the last).
pub open spec fn mode_at(i: i32) -> ScaleMode {
    if i == 0 {
        ScaleMode::Centered
    } else if i == 1 {
        ScaleMode::AspectFit
    } else {
        ScaleMode::Stretch
    }
}

/// The toggle-group index of `m`.
pub open spec fn mode_index(m: ScaleMode) -> i32 {
    match m {
        ScaleMode::Centered => 0,
        ScaleMode::AspectFit => 1,
        ScaleMode::Stretch => 2,
    }
}

impl ScaleMode {
    /// Converts a toggle group index to a mode.
    pub fn from_index(i: i32) -> (m: ScaleMode)
        ensures
            m == mode_at(i),
    {
        match i {
            0 => ScaleMode::Centered,
            1 => ScaleMode::AspectFit,
            _ => ScaleMode::Stretch,
        }
    }

    /// Converts this mode to a toggle group index.
    pub fn to_index(self) -> (i: i32)
        ensures
            i == mode_index(self),
    {
        match self {
            ScaleMode::Centered => 0,
            ScaleMode::AspectFit => 1,
            ScaleMode::Stretch => 2,
        }
    }
}

/// A mode survives the trip through its index, and every index in
/// range names the mode it came from.
pub proof fn lemma_scale_mode_round_trip(m: ScaleMode, i: i32)
    ensures
        mode_at(mode_index(m)) == m,
        0 <= mode_index(m) < SCALE_MODE_COUNT,
        0 <= i < SCALE_MODE_COUNT ==> mode_index(mode_at(i)) == i,
{
}

} // verus!
