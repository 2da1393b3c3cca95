//! Keyboard-to-joypad input state: which libretro buttons are held on each
//! port, which were just pressed, and the edge tracking for F1/F2/F4.
//!
//! Key events come from evdev (embedded) or from polling the minifb window
//! (desktop); the reading itself happens outside this module, which decides
//! what each event or poll does to the state.
use vstd::prelude::*;

verus! {

/// Maximum number of player ports (controllers).
pub const MAX_PORTS: u32 = 4;

/// Total state slots: 16 buttons per port.
pub const TOTAL_SLOTS: usize = 64;

// SNES button mappings (libretro RETRO_DEVICE_ID_JOYPAD values)
pub const JOYPAD_B: i32 = 0;
pub const JOYPAD_Y: i32 = 1;
pub const JOYPAD_SELECT: i32 = 2;
pub const JOYPAD_START: i32 = 3;
pub const JOYPAD_UP: i32 = 4;
pub const JOYPAD_DOWN: i32 = 5;
pub const JOYPAD_LEFT: i32 = 6;
pub const JOYPAD_RIGHT: i32 = 7;
pub const JOYPAD_A: i32 = 8;
pub const JOYPAD_X: i32 = 9;
pub const JOYPAD_L: i32 = 10;
pub const JOYPAD_R: i32 = 11;

/// Keys of the desktop keyboard layout (the keys the window is polled for).
#[derive(PartialEq, Eq, Structural, Clone, Copy, Debug)]
pub enum KeyboardKey {
    Up,
    Down,
    Left,
    Right,
    NumPad0,
    NumPad4,
    NumPadEnter,
    Enter,
    Space,
    Semicolon,
    Comma,
    A,
    D,
    H,
    I,
    J,
    K,
    L,
    M,
    N,
    O,
    Q,
    S,
    U,
    W,
    F1,
    F2,
    F4,
}

/// Player 1 evdev keycode layout (arrows/WASD-like codes plus letter buttons).
pub open spec fn p1_keycode_button(keycode: u16) -> Option<i32> {
    if keycode == 103 || keycode == 17 {
        Some(JOYPAD_UP)
    } else if keycode == 108 || keycode == 31 {
        Some(JOYPAD_DOWN)
    } else if keycode == 105 || keycode == 30 {
        Some(JOYPAD_LEFT)
    } else if keycode == 106 || keycode == 32 {
        Some(JOYPAD_RIGHT)
    } else if keycode == 40 {
        Some(JOYPAD_B)
    } else if keycode == 38 {
        Some(JOYPAD_A)
    } else if keycode == 46 {
        Some(JOYPAD_Y)
    } else if keycode == 22 {
        Some(JOYPAD_X)
    } else if keycode == 28 {
        Some(JOYPAD_START)
    } else if keycode == 42 || keycode == 54 {
        Some(JOYPAD_SELECT)
    } else {
        None
    }
}

/// Player 2 evdev keycode layout (numpad directions plus letter buttons).
pub open spec fn p2_keycode_button(keycode: u16) -> Option<i32> {
    if keycode == 89 {
        Some(JOYPAD_UP)
    } else if keycode == 83 {
        Some(JOYPAD_DOWN)
    } else if keycode == 79 {
        Some(JOYPAD_LEFT)
    } else if keycode == 81 {
        Some(JOYPAD_RIGHT)
    } else if keycode == 24 || keycode == 35 {
        Some(JOYPAD_A)
    } else if keycode == 25 || keycode == 36 {
        Some(JOYPAD_B)
    } else if keycode == 17 || keycode == 38 {
        Some(JOYPAD_X)
    } else if keycode == 23 || keycode == 40 {
        Some(JOYPAD_Y)
    } else if keycode == 45 {
        Some(JOYPAD_L)
    } else if keycode == 56 {
        Some(JOYPAD_R)
    } else if keycode == 96 {
        Some(JOYPAD_START)
    } else if keycode == 70 || keycode == 71 {
        Some(JOYPAD_SELECT)
    } else {
        None
    }
}

/// Key mappings for Player 1 (standard layout).
pub fn player1_keycodes_to_joypad(keycode: u16) -> (r: Option<i32>)
    ensures
        r == p1_keycode_button(keycode),
{
    match keycode {
        103 | 17 => Some(JOYPAD_UP),
        108 | 31 => Some(JOYPAD_DOWN),
        105 | 30 => Some(JOYPAD_LEFT),
        106 | 32 => Some(JOYPAD_RIGHT),
        40 => Some(JOYPAD_B),
        38 => Some(JOYPAD_A),
        46 => Some(JOYPAD_Y),
        22 => Some(JOYPAD_X),
        28 => Some(JOYPAD_START),
        42 | 54 => Some(JOYPAD_SELECT),
        _ => None,
    }
}

/// Key mappings for Player 2 (Numpad + letters layout).
pub fn player2_keycodes_to_joypad(keycode: u16) -> (r: Option<i32>)
    ensures
        r == p2_keycode_button(keycode),
{
    match keycode {
        89 => Some(JOYPAD_UP),
        83 => Some(JOYPAD_DOWN),
        79 => Some(JOYPAD_LEFT),
        81 => Some(JOYPAD_RIGHT),
        24 | 35 => Some(JOYPAD_A),
        25 | 36 => Some(JOYPAD_B),
        17 | 38 => Some(JOYPAD_X),
        23 | 40 => Some(JOYPAD_Y),
        45 => Some(JOYPAD_L),
        56 => Some(JOYPAD_R),
        96 => Some(JOYPAD_START),
        70 | 71 => Some(JOYPAD_SELECT),
        _ => None,
    }
}

/// Desktop Player 1 layout.
pub open spec fn p1_key_button(key: KeyboardKey) -> Option<i32> {
    match key {
        KeyboardKey::Up => Some(JOYPAD_UP),
        KeyboardKey::Down => Some(JOYPAD_DOWN),
        KeyboardKey::Left => Some(JOYPAD_LEFT),
        KeyboardKey::Right => Some(JOYPAD_RIGHT),
        KeyboardKey::NumPad0 | KeyboardKey::K => Some(JOYPAD_B),
        KeyboardKey::L | KeyboardKey::J => Some(JOYPAD_A),
        KeyboardKey::I => Some(JOYPAD_Y),
        KeyboardKey::U => Some(JOYPAD_X),
        KeyboardKey::Q => Some(JOYPAD_L),
        KeyboardKey::O => Some(JOYPAD_R),
        KeyboardKey::Enter | KeyboardKey::NumPadEnter => Some(JOYPAD_START),
        KeyboardKey::Space => Some(JOYPAD_SELECT),
        _ => None,
    }
}

/// Desktop Player 2 layout.
pub open spec fn p2_key_button(key: KeyboardKey) -> Option<i32> {
    match key {
        KeyboardKey::W => Some(JOYPAD_UP),
        KeyboardKey::S => Some(JOYPAD_DOWN),
        KeyboardKey::A => Some(JOYPAD_LEFT),
        KeyboardKey::D => Some(JOYPAD_RIGHT),
        KeyboardKey::NumPad0 | KeyboardKey::J => Some(JOYPAD_B),
        KeyboardKey::K | KeyboardKey::U => Some(JOYPAD_A),
        KeyboardKey::L | KeyboardKey::I => Some(JOYPAD_Y),
        KeyboardKey::NumPad4 | KeyboardKey::H => Some(JOYPAD_X),
        KeyboardKey::N => Some(JOYPAD_L),
        KeyboardKey::M => Some(JOYPAD_R),
        KeyboardKey::Semicolon => Some(JOYPAD_START),
        KeyboardKey::Comma => Some(JOYPAD_SELECT),
        _ => None,
    }
}

/// Map desktop keys to joypad IDs for Player 1.
pub fn minifb_key_to_joypad_p1(key: KeyboardKey) -> (r: Option<i32>)
    ensures
        r == p1_key_button(key),
{
    match key {
        KeyboardKey::Up => Some(JOYPAD_UP),
        KeyboardKey::Down => Some(JOYPAD_DOWN),
        KeyboardKey::Left => Some(JOYPAD_LEFT),
        KeyboardKey::Right => Some(JOYPAD_RIGHT),
        KeyboardKey::NumPad0 | KeyboardKey::K => Some(JOYPAD_B),
        KeyboardKey::L | KeyboardKey::J => Some(JOYPAD_A),
        KeyboardKey::I => Some(JOYPAD_Y),
        KeyboardKey::U => Some(JOYPAD_X),
        KeyboardKey::Q => Some(JOYPAD_L),
        KeyboardKey::O => Some(JOYPAD_R),
        KeyboardKey::Enter | KeyboardKey::NumPadEnter => Some(JOYPAD_START),
        KeyboardKey::Space => Some(JOYPAD_SELECT),
        _ => None,
    }
}

/// Map desktop keys to joypad IDs for Player 2.
pub fn minifb_key_to_joypad_p2(key: KeyboardKey) -> (r: Option<i32>)
    ensures
        r == p2_key_button(key),
{
    match key {
        KeyboardKey::W => Some(JOYPAD_UP),
        KeyboardKey::S => Some(JOYPAD_DOWN),
        KeyboardKey::A => Some(JOYPAD_LEFT),
        KeyboardKey::D => Some(JOYPAD_RIGHT),
        KeyboardKey::NumPad0 | KeyboardKey::J => Some(JOYPAD_B),
        KeyboardKey::K | KeyboardKey::U => Some(JOYPAD_A),
        KeyboardKey::L | KeyboardKey::I => Some(JOYPAD_Y),
        KeyboardKey::NumPad4 | KeyboardKey::H => Some(JOYPAD_X),
        KeyboardKey::N => Some(JOYPAD_L),
        KeyboardKey::M => Some(JOYPAD_R),
        KeyboardKey::Semicolon => Some(JOYPAD_START),
        KeyboardKey::Comma => Some(JOYPAD_SELECT),
        _ => None,
    }
}

/// The keys polled for Player 1, in polling order.
pub open spec fn p1_poll_keys() -> Seq<KeyboardKey> {
    seq![
        KeyboardKey::Up, KeyboardKey::Down, KeyboardKey::Left, KeyboardKey::Right,
        KeyboardKey::NumPad0, KeyboardKey::K, KeyboardKey::L, KeyboardKey::J, KeyboardKey::I,
        KeyboardKey::U, KeyboardKey::Q, KeyboardKey::O, KeyboardKey::Enter,
        KeyboardKey::NumPadEnter, KeyboardKey::Space,
    ]
}

/// The keys polled for Player 2, in polling order.
pub open spec fn p2_poll_keys() -> Seq<KeyboardKey> {
    seq![
        KeyboardKey::W, KeyboardKey::S, KeyboardKey::A, KeyboardKey::D,
        KeyboardKey::NumPad0, KeyboardKey::J, KeyboardKey::K, KeyboardKey::U, KeyboardKey::L,
        KeyboardKey::I, KeyboardKey::N, KeyboardKey::M, KeyboardKey::Semicolon,
        KeyboardKey::Comma, KeyboardKey::H,
    ]
}

/// Whether some key of `polled` is down and maps (through `map`) to `button`.
pub open spec fn some_down_maps_to(
    polled: Seq<KeyboardKey>,
    down: Seq<KeyboardKey>,
    map: spec_fn(KeyboardKey) -> Option<i32>,
    button: int,
) -> bool {
    exists|k: int| 0 <= k < polled.len() && down.contains(polled[k]) && #[trigger] map(polled[k])
        == Some(button as i32)
}

/// The held flag of slot `i` after a poll where the keys in `down` are held.
pub open spec fn polled_held(down: Seq<KeyboardKey>, i: int) -> bool {
    ||| 0 <= i < 16 && some_down_maps_to(p1_poll_keys(), down, |k| p1_key_button(k), i)
    ||| 16 <= i < 32 && some_down_maps_to(p2_poll_keys(), down, |k| p2_key_button(k), i - 16)
}

/// Whether `key` is among the keys held.
pub fn key_is_down(keys_down: &[KeyboardKey], key: KeyboardKey) -> (b: bool)
    ensures
        b == keys_down@.contains(key),
{
    let mut i: usize = 0;
    while i < keys_down.len()
        invariant
            0 <= i <= keys_down@.len(),
            forall|j: int| 0 <= j < i ==> keys_down@[j] != key,
        decreases keys_down@.len() - i,
    {
        if keys_down[i] == key {
            return true;
        }
        i = i + 1;
    }
    false
}

/// The input state as values.
pub struct InputView {
    /// Held state of each of the 64 slots (port * 16 + button).
    pub state: Seq<i32>,
    /// Just-pressed flag of each slot.
    pub just_pressed: Seq<bool>,
    /// Held state at the previous window poll (for edge detection).
    pub prev_state: Seq<i32>,
    /// Just-pressed flags of F1, F2, F4.
    pub f1_just_pressed: bool,
    pub f2_just_pressed: bool,
    pub f4_just_pressed: bool,
    /// Whether F1, F2, F4 were held at the previous window poll.
    pub f1_held: bool,
    pub f2_held: bool,
    pub f4_held: bool,
}

/// Button and edge state shared by the input reader and the emulation loop.
pub struct InputState {
    state: Vec<i32>,
    just_pressed: Vec<bool>,
    prev_state: Vec<i32>,
    f1_just_pressed: bool,
    f2_just_pressed: bool,
    f4_just_pressed: bool,
    f1_held: bool,
    f2_held: bool,
    f4_held: bool,
}

impl View for InputState {
    type V = InputView;

    closed spec fn view(&self) -> InputView {
        InputView {
            state: self.state@,
            just_pressed: self.just_pressed@,
            prev_state: self.prev_state@,
            f1_just_pressed: self.f1_just_pressed,
            f2_just_pressed: self.f2_just_pressed,
            f4_just_pressed: self.f4_just_pressed,
            f1_held: self.f1_held,
            f2_held: self.f2_held,
            f4_held: self.f4_held,
        }
    }
}

impl InputView {
    /// All three slot tables have `TOTAL_SLOTS` entries.
    pub open spec fn wf(self) -> bool {
        &&& self.state.len() == TOTAL_SLOTS
        &&& self.just_pressed.len() == TOTAL_SLOTS
        &&& self.prev_state.len() == TOTAL_SLOTS
    }
}

/// Whether Player 1's button for `code` is held.
pub open spec fn code_held(v: InputView, code: u16) -> bool {
    match p1_keycode_button(code) {
        Some(b) => v.state[b as int] == 1,
        None => false,
    }
}

/// Whether Player 1's button for some keycode in `codes` is held.
pub open spec fn any_code_held(v: InputView, codes: Seq<u16>) -> bool {
    exists|k: int| 0 <= k < codes.len() && #[trigger] code_held(v, codes[k])
}

/// The keycodes whose Player 1 buttons stand for a Linux key in menu
/// navigation (`None` for keys that are not tracked).
pub open spec fn navigation_codes(keycode: u16) -> Option<Seq<u16>> {
    if keycode == 12 {
        Some(seq![105u16, 30, 14])
    } else if keycode == 14 {
        Some(seq![103u16, 25, 17])
    } else if keycode == 15 {
        Some(seq![106u16, 32])
    } else if keycode == 17 {
        Some(seq![108u16, 16, 31])
    } else if keycode == 28 || keycode == 42 || keycode == 54 || keycode == 57 || keycode == 59 {
        Some(seq![keycode])
    } else {
        None
    }
}

/// Whether a Linux keycode counts as pressed: ESC (1) always does; the
/// navigation keys do when one of their Player 1 buttons is held.
#[verifier::opaque]
pub open spec fn key_pressed(v: InputView, keycode: u16) -> bool {
    if keycode == 1 {
        true
    } else {
        match navigation_codes(keycode) {
            Some(codes) => any_code_held(v, codes),
            None => false,
        }
    }
}

/// Reading and clearing the just-pressed flag of a Linux keycode: ESC (1)
/// its edge slot (62), F2 (60) and F4 (62) their F-key flags, other keys
/// the flag of their Player 1 button. Returns the flag's value and the state
/// after (unchanged, and no press, for keycodes with no flag).
pub open spec fn take_key_flag(v: InputView, keycode: u16) -> (bool, InputView) {
    if keycode == 1 {
        let idx = TOTAL_SLOTS - 2;
        (v.just_pressed[idx], InputView { just_pressed: v.just_pressed.update(idx, false), ..v })
    } else if keycode == 60 {
        take_f_flag(v, 2)
    } else if keycode == 62 {
        take_f_flag(v, 4)
    } else {
        match p1_keycode_button(keycode) {
            Some(j) => (
                v.just_pressed[j as int],
                InputView { just_pressed: v.just_pressed.update(j as int, false), ..v },
            ),
            None => (false, v),
        }
    }
}

/// Reading and clearing the just-pressed flag of F1, F2 or F4 (no press
/// for other numbers).
pub open spec fn take_f_flag(v: InputView, f_num: u8) -> (bool, InputView) {
    if f_num == 1 {
        (v.f1_just_pressed, InputView { f1_just_pressed: false, ..v })
    } else if f_num == 2 {
        (v.f2_just_pressed, InputView { f2_just_pressed: false, ..v })
    } else if f_num == 4 {
        (v.f4_just_pressed, InputView { f4_just_pressed: false, ..v })
    } else {
        (false, v)
    }
}

/// The held and just-pressed tables after one key event: ESC and F1 set
/// the flag of their slot (62, 63) only on a rising edge; another key sets
/// the held state and the flag of the Player 1 button it maps to, or else
/// of the Player 2 button; other keys change nothing.
pub open spec fn key_event_tables(v: InputView, keycode: u16, value: i32) -> (Seq<i32>, Seq<bool>) {
    let pressed = value == 1;
    let held: i32 = if pressed { 1 } else { 0 };
    if keycode == 1 || keycode == 59 {
        let idx: int = if keycode == 1 { TOTAL_SLOTS - 2 } else { TOTAL_SLOTS - 1 };
        (
            v.state.update(idx, held),
            if pressed && v.state[idx] == 0 { v.just_pressed.update(idx, true) } else { v.just_pressed },
        )
    } else {
        match p1_keycode_button(keycode) {
            Some(b) => (v.state.update(b as int, held), v.just_pressed.update(b as int, pressed)),
            None => match p2_keycode_button(keycode) {
                Some(b) => (v.state.update(16 + b, held), v.just_pressed.update(16 + b, pressed)),
                None => (v.state, v.just_pressed),
            },
        }
    }
}

/// The input state after one key event (`value` 1 = press): F2 (60) and
/// F4 (62) set their held state, and their just-pressed flag on a press
/// while not held; other keys change the slot tables.
pub open spec fn input_after_key_event(v: InputView, keycode: u16, value: i32) -> InputView {
    let pressed = value == 1;
    if keycode == 60 {
        InputView { f2_held: pressed, f2_just_pressed: v.f2_just_pressed || (pressed && !v.f2_held), ..v }
    } else if keycode == 62 {
        InputView { f4_held: pressed, f4_just_pressed: v.f4_just_pressed || (pressed && !v.f4_held), ..v }
    } else {
        let (state, just_pressed) = key_event_tables(v, keycode, value);
        InputView { state, just_pressed, ..v }
    }
}

impl InputState {
    /// No button held, no flag set.
    pub fn new() -> (s: Self)
        ensures
            s@.wf(),
            forall|i: int| 0 <= i < TOTAL_SLOTS ==> s@.state[i] == 0 && !s@.just_pressed[i]
                && s@.prev_state[i] == 0,
            !s@.f1_just_pressed && !s@.f2_just_pressed && !s@.f4_just_pressed,
            !s@.f1_held && !s@.f2_held && !s@.f4_held,
    {
        InputState {
            state: vec![0i32; TOTAL_SLOTS],
            just_pressed: vec![false; TOTAL_SLOTS],
            prev_state: vec![0i32; TOTAL_SLOTS],
            f1_just_pressed: false,
            f2_just_pressed: false,
            f4_just_pressed: false,
            f1_held: false,
            f2_held: false,
            f4_held: false,
        }
    }

    /// Whether the three slot tables have `TOTAL_SLOTS` entries (always
    /// true of a state made by `new` and changed by these methods).
    pub fn well_formed(&self) -> (b: bool)
        ensures
            b == self@.wf(),
    {
        self.state.len() == TOTAL_SLOTS && self.just_pressed.len() == TOTAL_SLOTS && self.prev_state.len()
            == TOTAL_SLOTS
    }

    /// Apply one evdev key event (`value` 1 = press). F2 and F4 set their
    /// just-pressed flags on a rising edge; ESC and F1 are tracked in slots
    /// 62 and 63 with rising-edge detection; other keys set the
    /// held and just-pressed flags of the Player 1 button they map to, or
    /// else of the Player 2 button (port 1).
    pub fn apply_key_event(&mut self, keycode: u16, value: i32)
        requires
            old(self)@.wf(),
        ensures
            final(self)@.wf(),
            final(self)@ == input_after_key_event(old(self)@, keycode, value),
    {
        let pressed = value == 1;
        // F2 (save) and F4 (load): rising-edge flags
        if keycode == 60 {
            if pressed && !self.f2_held {
                self.f2_just_pressed = true;
            }
            self.f2_held = pressed;
            return;
        }
        if keycode == 62 {
            if pressed && !self.f4_held {
                self.f4_just_pressed = true;
            }
            self.f4_held = pressed;
            return;
        }
        // Track ESC/F1 edge transitions for menu toggle in the last two slots
        if keycode == 1 || keycode == 59 {
            let idx: usize = if keycode == 1 { TOTAL_SLOTS - 2 } else { TOTAL_SLOTS - 1 };
            if pressed {
                if self.state[idx] == 0 {
                    // Rising edge detected - set a flag
                    self.just_pressed.set(idx, true);
                }
                self.state.set(idx, 1);
            } else {
                self.state.set(idx, 0);
            }
            return;
        }
        if let Some(joypad_id) = player1_keycodes_to_joypad(keycode) {
            let idx: usize = joypad_id as usize;
            self.state.set(idx, if pressed { 1 } else { 0 });
            self.just_pressed.set(idx, pressed);
        } else if let Some(joypad_id) = player2_keycodes_to_joypad(keycode) {
            let idx: usize = 16 + joypad_id as usize;
            self.state.set(idx, if pressed { 1 } else { 0 });
            self.just_pressed.set(idx, pressed);
        }
    }

    /// Input state for a libretro query: -1 outside the 4 ports and 16
    /// buttons, else the held state of that slot.
    pub fn get_state(&self, port: u32, _device: u32, _index: u32, id: u32) -> (r: i16)
        requires
            self@.wf(),
        ensures
            r == if port >= MAX_PORTS || id >= 16 {
                -1i16
            } else {
                self@.state[port * 16 + id] as i16
            },
    {
        // Only support up to MAX_PORTS players
        if port >= MAX_PORTS || id >= 16 {
            return -1;
        }
        let base: usize = (port as usize) * 16;
        let idx: usize = base + id as usize;
        self.state[idx] as i16
    }

    /// Whether the Player 1 button of some keycode in `codes` is held.
    fn check_keycodes(&self, codes: &[u16]) -> (b: bool)
        requires
            self@.wf(),
        ensures
            b == any_code_held(self@, codes@),
    {
        let mut i: usize = 0;
        while i < codes.len()
            invariant
                self@.wf(),
                0 <= i <= codes@.len(),
                forall|k: int| 0 <= k < i ==> !(#[trigger] code_held(self@, codes@[k])),
            decreases codes@.len() - i,
        {
            if let Some(joypad_id) = player1_keycodes_to_joypad(codes[i]) {
                // Check port 0 (Player 1)
                if self.state[joypad_id as usize] == 1 {
                    assert(code_held(self@, codes@[i as int]));
                    return true;
                }
            }
            i = i + 1;
        }
        false
    }

    /// Check if a specific Linux input keycode is currently pressed.
    pub fn is_key_pressed(&self, keycode: u16) -> (b: bool)
        requires
            self@.wf(),
        ensures
            b == key_pressed(self@, keycode),
    {
        reveal(key_pressed);
        match keycode {
            1 => true,  // ESC - not mapped to joypad
            12 => {  // Left arrow
                let c: [u16; 3] = [105, 30, 14];
                assert(c@ =~= seq![105u16, 30, 14]);
                self.check_keycodes(&c)
            },
            14 => {  // Up arrow
                let c: [u16; 3] = [103, 25, 17];
                assert(c@ =~= seq![103u16, 25, 17]);
                self.check_keycodes(&c)
            },
            15 => {  // Right arrow
                let c: [u16; 2] = [106, 32];
                assert(c@ =~= seq![106u16, 32]);
                self.check_keycodes(&c)
            },
            17 => {  // Down arrow
                let c: [u16; 3] = [108, 16, 31];
                assert(c@ =~= seq![108u16, 16, 31]);
                self.check_keycodes(&c)
            },
            28 | 42 | 54 | 57 | 59 => {  // Enter, Left/Right Shift, Space, F1
                let c: [u16; 1] = [keycode];
                assert(c@ =~= seq![keycode]);
                self.check_keycodes(&c)
            },
            _ => false,
        }
    }

    /// Check if Shift key is pressed (left or right).
    pub fn is_shift_pressed(&self) -> (b: bool)
        requires
            self@.wf(),
        ensures
            b == any_code_held(self@, seq![42u16, 54]),
    {
        let c: [u16; 2] = [42, 54];
        assert(c@ =~= seq![42u16, 54]);
        self.check_keycodes(&c)
    }

    /// Check if Tab key is pressed.
    pub fn is_tab_pressed(&self) -> (b: bool)
        requires
            self@.wf(),
        ensures
            b == any_code_held(self@, seq![15u16]),
    {
        let c: [u16; 1] = [15];
        assert(c@ =~= seq![15u16]);
        self.check_keycodes(&c)
    }

    /// Check if a key was just pressed (edge detection, clears after check).
    pub fn was_key_just_pressed(&mut self, keycode: u16) -> (b: bool)
        requires
            old(self)@.wf(),
        ensures
            final(self)@.wf(),
            (b, final(self)@) == take_key_flag(old(self)@, keycode),
    {
        if keycode == 1 {
            // ESC's edge is kept in slot 62
            let idx: usize = TOTAL_SLOTS - 2;
            let was_pressed = self.just_pressed[idx];
            self.just_pressed.set(idx, false);
            return was_pressed;
        }
        if keycode == 60 {
            return self.was_f_key_just_pressed(2);
        }
        if keycode == 62 {
            return self.was_f_key_just_pressed(4);
        }
        if let Some(joypad_id) = player1_keycodes_to_joypad(keycode) {
            let was_pressed = self.just_pressed[joypad_id as usize];
            if was_pressed {
                self.just_pressed.set(joypad_id as usize, false);
            }
            proof {
                assert(self@.just_pressed =~= old(self)@.just_pressed.update(joypad_id as int, false));
            }
            return was_pressed;
        }
        false
    }

    /// Clear the held state of every slot.
    fn clear_held(&mut self)
        requires
            old(self)@.wf(),
        ensures
            final(self)@ == (InputView { state: Seq::new(TOTAL_SLOTS as nat, |i: int| 0i32), ..old(self)@ }),
    {
        let mut i: usize = 0;
        while i < TOTAL_SLOTS
            invariant
                self.state@.len() == TOTAL_SLOTS,
                self.just_pressed@ == old(self)@.just_pressed,
                self.prev_state@ == old(self)@.prev_state,
                self.f1_just_pressed == old(self)@.f1_just_pressed,
                self.f2_just_pressed == old(self)@.f2_just_pressed,
                self.f4_just_pressed == old(self)@.f4_just_pressed,
                self.f1_held == old(self)@.f1_held,
                self.f2_held == old(self)@.f2_held,
                self.f4_held == old(self)@.f4_held,
                0 <= i <= TOTAL_SLOTS,
                forall|j: int| 0 <= j < i ==> self.state@[j] == 0,
            decreases TOTAL_SLOTS - i,
        {
            self.state.set(i, 0);
            i = i + 1;
        }
        assert(self.state@ =~= Seq::new(TOTAL_SLOTS as nat, |i: int| 0i32));
    }

    /// Mark the buttons of the held keys of `polled` (mapped by `map`,
    /// shifted by `base`) as held; a button becomes just pressed when it is
    /// held and either `edge` is off or it was not held at the last poll.
    fn mark_held_keys(
        &mut self,
        keys_down: &[KeyboardKey],
        polled: &[KeyboardKey; 15],
        second_player: bool,
        edge: bool,
    )
        requires
            old(self)@.wf(),
            polled@ == if second_player { p2_poll_keys() } else { p1_poll_keys() },
        ensures
            final(self)@.wf(),
            final(self)@ == (InputView {
                state: final(self)@.state,
                just_pressed: final(self)@.just_pressed,
                ..old(self)@
            }),
            forall|i: int|
                #![trigger final(self)@.state[i]]
                #![trigger final(self)@.just_pressed[i]]
                0 <= i < TOTAL_SLOTS ==> {
                    let base = if second_player { 16int } else { 0int };
                    let hit = base <= i < base + 16 && (if second_player {
                        some_down_maps_to(p2_poll_keys(), keys_down@, |k| p2_key_button(k), i - base)
                    } else {
                        some_down_maps_to(p1_poll_keys(), keys_down@, |k| p1_key_button(k), i - base)
                    });
                    &&& final(self)@.state[i] == if hit { 1i32 } else { old(self)@.state[i] }
                    &&& final(self)@.just_pressed[i] == (old(self)@.just_pressed[i] || (hit && (!edge
                        || old(self)@.prev_state[i] == 0)))
                },
    {
        let ghost map: spec_fn(KeyboardKey) -> Option<i32> = if second_player {
            |k| p2_key_button(k)
        } else {
            |k| p1_key_button(k)
        };
        let ghost base: int = if second_player { 16 } else { 0 };
        let mut t: usize = 0;
        while t < 15
            invariant
                polled@ == if second_player { p2_poll_keys() } else { p1_poll_keys() },
                base == if second_player { 16int } else { 0int },
                map == if second_player {
                    |k| p2_key_button(k)
                } else {
                    |k| p1_key_button(k)
                },
                self@.wf(),
                self@ == (InputView {
                    state: self@.state,
                    just_pressed: self@.just_pressed,
                    ..old(self)@
                }),
                0 <= t <= 15,
                forall|i: int|
                    #![trigger self@.state[i]]
                    #![trigger self@.just_pressed[i]]
                    0 <= i < TOTAL_SLOTS ==> {
                        let hit = base <= i < base + 16 && some_down_maps_to(
                            polled@.subrange(0, t as int),
                            keys_down@,
                            map,
                            i - base,
                        );
                        &&& self@.state[i] == if hit { 1i32 } else { old(self)@.state[i] }
                        &&& self@.just_pressed[i] == (old(self)@.just_pressed[i] || (hit && (!edge
                            || old(self)@.prev_state[i] == 0)))
                    },
            decreases 15 - t,
        {
            let key = polled[t];
            let down = key_is_down(keys_down, key);
            let mapped = if second_player {
                minifb_key_to_joypad_p2(key)
            } else {
                minifb_key_to_joypad_p1(key)
            };
            let ghost old_state = self@.state;
            let ghost old_jp = self@.just_pressed;
            if down {
                if let Some(joypad_id) = mapped {
                    let idx: usize = if second_player {
                        16 + joypad_id as usize
                    } else {
                        joypad_id as usize
                    };
                    self.state.set(idx, 1);
                    // Only set just_pressed on rising edge
                    if !edge || self.prev_state[idx] == 0 {
                        self.just_pressed.set(idx, true);
                    }
                }
            }
            proof {
                assert forall|i: int| 0 <= i < TOTAL_SLOTS implies #[trigger] some_down_maps_to(
                    polled@.subrange(0, t + 1),
                    keys_down@,
                    map,
                    i - base,
                ) == (some_down_maps_to(polled@.subrange(0, t as int), keys_down@, map, i - base)
                    || (down && map(key) == Some((i - base) as i32))) by {
                    let a = polled@.subrange(0, t + 1);
                    let b = polled@.subrange(0, t as int);
                    if some_down_maps_to(a, keys_down@, map, i - base) {
                        let k = choose|k: int|
                            0 <= k < a.len() && keys_down@.contains(a[k]) && #[trigger] map(a[k])
                                == Some((i - base) as i32);
                        if k < t {
                            assert(b[k] == a[k]);
                        }
                    }
                    if some_down_maps_to(b, keys_down@, map, i - base) {
                        let k = choose|k: int|
                            0 <= k < b.len() && keys_down@.contains(b[k]) && #[trigger] map(b[k])
                                == Some((i - base) as i32);
                        assert(a[k] == b[k]);
                    }
                    if down && map(key) == Some((i - base) as i32) {
                        assert(a[t as int] == key);
                    }
                }
            }
            t = t + 1;
        }
        assert(polled@.subrange(0, 15) =~= polled@);
    }

    /// Poll the keyboard state from the keys held in the window, detecting
    /// rising edges against the previous poll (desktop mode): all held
    /// states are recomputed, a button becomes just pressed when it is held
    /// now and was not at the last poll, and F1/F2/F4 presses are tracked.
    pub fn poll_with_video(&mut self, keys_down: &[KeyboardKey])
        requires
            old(self)@.wf(),
        ensures
            final(self)@.wf(),
            forall|i: int|
                #![trigger final(self)@.state[i]]
                0 <= i < TOTAL_SLOTS ==> final(self)@.state[i] == if polled_held(keys_down@, i) {
                    1i32
                } else {
                    0i32
                },
            forall|i: int|
                #![trigger final(self)@.just_pressed[i]]
                0 <= i < TOTAL_SLOTS ==> final(self)@.just_pressed[i] == (old(self)@.just_pressed[i]
                    || (polled_held(keys_down@, i) && old(self)@.prev_state[i] == 0)),
            final(self)@.prev_state == final(self)@.state,
            final(self)@.f1_just_pressed == (old(self)@.f1_just_pressed || (keys_down@.contains(
                KeyboardKey::F1,
            ) && !old(self)@.f1_held)),
            final(self)@.f2_just_pressed == (old(self)@.f2_just_pressed || (keys_down@.contains(
                KeyboardKey::F2,
            ) && !old(self)@.f2_held)),
            final(self)@.f4_just_pressed == (old(self)@.f4_just_pressed || (keys_down@.contains(
                KeyboardKey::F4,
            ) && !old(self)@.f4_held)),
            final(self)@.f1_held == keys_down@.contains(KeyboardKey::F1),
            final(self)@.f2_held == keys_down@.contains(KeyboardKey::F2),
            final(self)@.f4_held == keys_down@.contains(KeyboardKey::F4),
    {
        self.clear_held();
        let p1_keys: [KeyboardKey; 15] = [
            KeyboardKey::Up, KeyboardKey::Down, KeyboardKey::Left, KeyboardKey::Right,
            KeyboardKey::NumPad0, KeyboardKey::K, KeyboardKey::L, KeyboardKey::J, KeyboardKey::I,
            KeyboardKey::U, KeyboardKey::Q, KeyboardKey::O, KeyboardKey::Enter,
            KeyboardKey::NumPadEnter, KeyboardKey::Space,
        ];
        assert(p1_keys@ =~= p1_poll_keys());
        self.mark_held_keys(keys_down, &p1_keys, false, true);
        let p2_keys: [KeyboardKey; 15] = [
            KeyboardKey::W, KeyboardKey::S, KeyboardKey::A, KeyboardKey::D,
            KeyboardKey::NumPad0, KeyboardKey::J, KeyboardKey::K, KeyboardKey::U, KeyboardKey::L,
            KeyboardKey::I, KeyboardKey::N, KeyboardKey::M, KeyboardKey::Semicolon,
            KeyboardKey::Comma, KeyboardKey::H,
        ];
        assert(p2_keys@ =~= p2_poll_keys());
        self.mark_held_keys(keys_down, &p2_keys, true, true);
        // Save current state for next frame's edge detection
        let ghost mid = self@;
        proof {
            assert forall|i: int| 0 <= i < TOTAL_SLOTS implies #[trigger] mid.state[i] == (if polled_held(
                keys_down@,
                i,
            ) {
                1i32
            } else {
                0i32
            }) && mid.just_pressed[i] == (old(self)@.just_pressed[i] || (polled_held(keys_down@, i)
                && old(self)@.prev_state[i] == 0)) by {}
        }
        let mut i: usize = 0;
        while i < TOTAL_SLOTS
            invariant
                self@.wf(),
                self@ == (InputView { prev_state: self@.prev_state, ..mid }),
                0 <= i <= TOTAL_SLOTS,
                forall|j: int| 0 <= j < i ==> self.prev_state@[j] == self.state@[j],
            decreases TOTAL_SLOTS - i,
        {
            let v = self.state[i];
            self.prev_state.set(i, v);
            i = i + 1;
        }
        assert(self.prev_state@ =~= self.state@);
        // Track F1/F2/F4 edge transitions (not mapped to joypad buttons)
        let f1_down = key_is_down(keys_down, KeyboardKey::F1);
        if f1_down && !self.f1_held {
            self.f1_just_pressed = true;
        }
        self.f1_held = f1_down;
        let f2_down = key_is_down(keys_down, KeyboardKey::F2);
        if f2_down && !self.f2_held {
            self.f2_just_pressed = true;
        }
        self.f2_held = f2_down;
        let f4_down = key_is_down(keys_down, KeyboardKey::F4);
        if f4_down && !self.f4_held {
            self.f4_just_pressed = true;
        }
        self.f4_held = f4_down;
    }

    /// Poll the keyboard state through a key-state function (desktop mode
    /// without edge tracking): all held states are recomputed and every
    /// held button is flagged just pressed.
    pub fn poll(&mut self, keys_down: &[KeyboardKey])
        requires
            old(self)@.wf(),
        ensures
            final(self)@.wf(),
            forall|i: int|
                #![trigger final(self)@.state[i]]
                0 <= i < TOTAL_SLOTS ==> final(self)@.state[i] == if polled_held(keys_down@, i) {
                    1i32
                } else {
                    0i32
                },
            forall|i: int|
                #![trigger final(self)@.just_pressed[i]]
                0 <= i < TOTAL_SLOTS ==> final(self)@.just_pressed[i] == (old(self)@.just_pressed[i]
                    || polled_held(keys_down@, i)),
            final(self)@ == (InputView {
                state: final(self)@.state,
                just_pressed: final(self)@.just_pressed,
                ..old(self)@
            }),
    {
        self.clear_held();
        let p1_keys: [KeyboardKey; 15] = [
            KeyboardKey::Up, KeyboardKey::Down, KeyboardKey::Left, KeyboardKey::Right,
            KeyboardKey::NumPad0, KeyboardKey::K, KeyboardKey::L, KeyboardKey::J, KeyboardKey::I,
            KeyboardKey::U, KeyboardKey::Q, KeyboardKey::O, KeyboardKey::Enter,
            KeyboardKey::NumPadEnter, KeyboardKey::Space,
        ];
        assert(p1_keys@ =~= p1_poll_keys());
        self.mark_held_keys(keys_down, &p1_keys, false, false);
        let p2_keys: [KeyboardKey; 15] = [
            KeyboardKey::W, KeyboardKey::S, KeyboardKey::A, KeyboardKey::D,
            KeyboardKey::NumPad0, KeyboardKey::J, KeyboardKey::K, KeyboardKey::U, KeyboardKey::L,
            KeyboardKey::I, KeyboardKey::N, KeyboardKey::M, KeyboardKey::Semicolon,
            KeyboardKey::Comma, KeyboardKey::H,
        ];
        assert(p2_keys@ =~= p2_poll_keys());
        self.mark_held_keys(keys_down, &p2_keys, true, false);
    }

    /// Check if an F-key (F1, F2, F4) was just pressed, clearing the flag
    /// so it only fires once per press cycle.
    pub fn was_f_key_just_pressed(&mut self, f_num: u8) -> (b: bool)
        ensures
            (b, final(self)@) == take_f_flag(old(self)@, f_num),
    {
        if f_num == 1 {
            let was_pressed = self.f1_just_pressed;
            self.f1_just_pressed = false;
            was_pressed
        } else if f_num == 2 {
            let was_pressed = self.f2_just_pressed;
            self.f2_just_pressed = false;
            was_pressed
        } else if f_num == 4 {
            let was_pressed = self.f4_just_pressed;
            self.f4_just_pressed = false;
            was_pressed
        } else {
            false
        }
    }
}

/// A pressed Player 1 key holds its button (the core reads 1 for it on
/// port 0) and is reported as just pressed exactly once: after the flag is
/// read, reading it again gives false. Releasing the key lets go of the
/// button.
pub proof fn press_is_held_and_seen_once(v: InputView, keycode: u16)
    requires
        v.wf(),
        p1_keycode_button(keycode) is Some,
    ensures
        ({
            let b = p1_keycode_button(keycode)->Some_0 as int;
            let pressed = input_after_key_event(v, keycode, 1);
            let (first, taken) = take_key_flag(pressed, keycode);
            &&& pressed.state[b] == 1
            &&& first
            &&& !take_key_flag(taken, keycode).0
            &&& input_after_key_event(pressed, keycode, 0).state[b] == 0
        }),
{
}

/// An F-key press is reported once: reading the flag clears it.
pub proof fn f_key_seen_once(v: InputView, f_num: u8)
    ensures
        !take_f_flag(take_f_flag(v, f_num).1, f_num).0,
{
}

/// ESC, F2 and F4 pressed on the console keyboard are each reported once:
/// after a press of a key that was up, reading its flag gives true, and
/// reading it again gives false.
pub proof fn console_key_seen_once(v: InputView, keycode: u16)
    requires
        v.wf(),
        keycode == 1 || keycode == 60 || keycode == 62,
        keycode == 1 ==> v.state[TOTAL_SLOTS - 2] == 0,
        keycode == 60 ==> !v.f2_held,
        keycode == 62 ==> !v.f4_held,
    ensures
        ({
            let pressed = input_after_key_event(v, keycode, 1);
            let (first, taken) = take_key_flag(pressed, keycode);
            &&& first
            &&& !take_key_flag(taken, keycode).0
        }),
{
}

/// The player-1 console layout, button by button, over every key code:
/// up is 103 or 17, down 108 or 31, left 105 or 30, right 106 or 32, B is
/// 40, A is 38, Y is 46, X is 22, START is 28, SELECT is 42 or 54, and no
/// other key is mapped. So every one of these buttons can be pressed, and
/// each key holds one button only.
pub proof fn player1_layout(keycode: u16)
    ensures
        p1_keycode_button(keycode) == Some(JOYPAD_UP) <==> (keycode == 103 || keycode == 17),
        p1_keycode_button(keycode) == Some(JOYPAD_DOWN) <==> (keycode == 108 || keycode == 31),
        p1_keycode_button(keycode) == Some(JOYPAD_LEFT) <==> (keycode == 105 || keycode == 30),
        p1_keycode_button(keycode) == Some(JOYPAD_RIGHT) <==> (keycode == 106 || keycode == 32),
        p1_keycode_button(keycode) == Some(JOYPAD_B) <==> keycode == 40,
        p1_keycode_button(keycode) == Some(JOYPAD_A) <==> keycode == 38,
        p1_keycode_button(keycode) == Some(JOYPAD_Y) <==> keycode == 46,
        p1_keycode_button(keycode) == Some(JOYPAD_X) <==> keycode == 22,
        p1_keycode_button(keycode) == Some(JOYPAD_START) <==> keycode == 28,
        p1_keycode_button(keycode) == Some(JOYPAD_SELECT) <==> (keycode == 42 || keycode == 54),
        p1_keycode_button(keycode) is None <==> !(keycode == 103 || keycode == 17 || keycode == 108 || keycode == 31
            || keycode == 105 || keycode == 30 || keycode == 106 || keycode == 32 || keycode == 40 || keycode == 38
            || keycode == 46 || keycode == 22 || keycode == 28 || keycode == 42 || keycode == 54),
{
}

/// The player-2 console layout, button by button, over every key code:
/// up is 89, down 83, left 79, right 81 (the numpad), A is 24 or 35, B is
/// 25 or 36, X is 17 or 38, Y is 23 or 40, L is 45, R is 56, START is 96,
/// SELECT is 70 or 71, and no other key is mapped.
pub proof fn player2_layout(keycode: u16)
    ensures
        p2_keycode_button(keycode) == Some(JOYPAD_UP) <==> keycode == 89,
        p2_keycode_button(keycode) == Some(JOYPAD_DOWN) <==> keycode == 83,
        p2_keycode_button(keycode) == Some(JOYPAD_LEFT) <==> keycode == 79,
        p2_keycode_button(keycode) == Some(JOYPAD_RIGHT) <==> keycode == 81,
        p2_keycode_button(keycode) == Some(JOYPAD_A) <==> (keycode == 24 || keycode == 35),
        p2_keycode_button(keycode) == Some(JOYPAD_B) <==> (keycode == 25 || keycode == 36),
        p2_keycode_button(keycode) == Some(JOYPAD_X) <==> (keycode == 17 || keycode == 38),
        p2_keycode_button(keycode) == Some(JOYPAD_Y) <==> (keycode == 23 || keycode == 40),
        p2_keycode_button(keycode) == Some(JOYPAD_L) <==> keycode == 45,
        p2_keycode_button(keycode) == Some(JOYPAD_R) <==> keycode == 56,
        p2_keycode_button(keycode) == Some(JOYPAD_START) <==> keycode == 96,
        p2_keycode_button(keycode) == Some(JOYPAD_SELECT) <==> (keycode == 70 || keycode == 71),
        p2_keycode_button(keycode) is None <==> !(keycode == 89 || keycode == 83 || keycode == 79 || keycode == 81
            || keycode == 24 || keycode == 35 || keycode == 25 || keycode == 36 || keycode == 17 || keycode == 38
            || keycode == 23 || keycode == 40 || keycode == 45 || keycode == 56 || keycode == 96 || keycode == 70
            || keycode == 71),
{
}

} // verus!
