use vstd::prelude::*;

verus! {

/// The number of keys a key map tracks.
pub const NUM_KEYS: usize = 79;

/// A key of the keyboard as reported by the window system. Every key that the
/// key map does not track is reported as `Other`.
#[derive(Clone, Copy, PartialEq, Eq, Structural, Debug)]
pub enum Key {
    A,
    B,
    C,
    D,
    E,
    F,
    G,
    H,
    I,
    J,
    K,
    L,
    M,
    N,
    O,
    P,
    Q,
    R,
    S,
    T,
    U,
    V,
    W,
    X,
    Y,
    Z,
    Key1,
    Key2,
    Key3,
    Key4,
    Key5,
    Key6,
    Key7,
    Key8,
    Key9,
    Key0,
    Numpad0,
    Numpad1,
    Numpad2,
    Numpad3,
    Numpad4,
    Numpad5,
    Numpad6,
    Numpad7,
    Numpad8,
    Numpad9,
    F1,
    F2,
    F3,
    F4,
    F5,
    F6,
    F7,
    F8,
    F9,
    F10,
    F11,
    F12,
    F13,
    F14,
    F15,
    LControl,
    RControl,
    LAlt,
    RAlt,
    LWin,
    RWin,
    Capital,
    LShift,
    RShift,
    Tab,
    Space,
    Return,
    NumpadEnter,
    Escape,
    Up,
    Down,
    Left,
    Right,
    Other,
}

/// The slot of a tracked key in a key map; `Other` has none.
pub open spec fn key_slot(key: Key) -> Option<int> {
    match key {
        Key::A => Some(0),
        Key::B => Some(1),
        Key::C => Some(2),
        Key::D => Some(3),
        Key::E => Some(4),
        Key::F => Some(5),
        Key::G => Some(6),
        Key::H => Some(7),
        Key::I => Some(8),
        Key::J => Some(9),
        Key::K => Some(10),
        Key::L => Some(11),
        Key::M => Some(12),
        Key::N => Some(13),
        Key::O => Some(14),
        Key::P => Some(15),
        Key::Q => Some(16),
        Key::R => Some(17),
        Key::S => Some(18),
        Key::T => Some(19),
        Key::U => Some(20),
        Key::V => Some(21),
        Key::W => Some(22),
        Key::X => Some(23),
        Key::Y => Some(24),
        Key::Z => Some(25),
        Key::Key1 => Some(26),
        Key::Key2 => Some(27),
        Key::Key3 => Some(28),
        Key::Key4 => Some(29),
        Key::Key5 => Some(30),
        Key::Key6 => Some(31),
        Key::Key7 => Some(32),
        Key::Key8 => Some(33),
        Key::Key9 => Some(34),
        Key::Key0 => Some(35),
        Key::Numpad0 => Some(36),
        Key::Numpad1 => Some(37),
        Key::Numpad2 => Some(38),
        Key::Numpad3 => Some(39),
        Key::Numpad4 => Some(40),
        Key::Numpad5 => Some(41),
        Key::Numpad6 => Some(42),
        Key::Numpad7 => Some(43),
        Key::Numpad8 => Some(44),
        Key::Numpad9 => Some(45),
        Key::F1 => Some(46),
        Key::F2 => Some(47),
        Key::F3 => Some(48),
        Key::F4 => Some(49),
        Key::F5 => Some(50),
        Key::F6 => Some(51),
        Key::F7 => Some(52),
        Key::F8 => Some(53),
        Key::F9 => Some(54),
        Key::F10 => Some(55),
        Key::F11 => Some(56),
        Key::F12 => Some(57),
        Key::F13 => Some(58),
        Key::F14 => Some(59),
        Key::F15 => Some(60),
        Key::LControl => Some(61),
        Key::RControl => Some(62),
        Key::LAlt => Some(63),
        Key::RAlt => Some(64),
        Key::LWin => Some(65),
        Key::RWin => Some(66),
        Key::Capital => Some(67),
        Key::LShift => Some(68),
        Key::RShift => Some(69),
        Key::Tab => Some(70),
        Key::Space => Some(71),
        Key::Return => Some(72),
        Key::NumpadEnter => Some(73),
        Key::Escape => Some(74),
        Key::Up => Some(75),
        Key::Down => Some(76),
        Key::Left => Some(77),
        Key::Right => Some(78),
        Key::Other => None,
    }
}

/// The key stored in slot `i`.
pub open spec fn key_at(i: int) -> Key {
    if i == 0 {
        Key::A
    }
    else if i == 1 {
        Key::B
    }
    else if i == 2 {
        Key::C
    }
    else if i == 3 {
        Key::D
    }
    else if i == 4 {
        Key::E
    }
    else if i == 5 {
        Key::F
    }
    else if i == 6 {
        Key::G
    }
    else if i == 7 {
        Key::H
    }
    else if i == 8 {
        Key::I
    }
    else if i == 9 {
        Key::J
    }
    else if i == 10 {
        Key::K
    }
    else if i == 11 {
        Key::L
    }
    else if i == 12 {
        Key::M
    }
    else if i == 13 {
        Key::N
    }
    else if i == 14 {
        Key::O
    }
    else if i == 15 {
        Key::P
    }
    else if i == 16 {
        Key::Q
    }
    else if i == 17 {
        Key::R
    }
    else if i == 18 {
        Key::S
    }
    else if i == 19 {
        Key::T
    }
    else if i == 20 {
        Key::U
    }
    else if i == 21 {
        Key::V
    }
    else if i == 22 {
        Key::W
    }
    else if i == 23 {
        Key::X
    }
    else if i == 24 {
        Key::Y
    }
    else if i == 25 {
        Key::Z
    }
    else if i == 26 {
        Key::Key1
    }
    else if i == 27 {
        Key::Key2
    }
    else if i == 28 {
        Key::Key3
    }
    else if i == 29 {
        Key::Key4
    }
    else if i == 30 {
        Key::Key5
    }
    else if i == 31 {
        Key::Key6
    }
    else if i == 32 {
        Key::Key7
    }
    else if i == 33 {
        Key::Key8
    }
    else if i == 34 {
        Key::Key9
    }
    else if i == 35 {
        Key::Key0
    }
    else if i == 36 {
        Key::Numpad0
    }
    else if i == 37 {
        Key::Numpad1
    }
    else if i == 38 {
        Key::Numpad2
    }
    else if i == 39 {
        Key::Numpad3
    }
    else if i == 40 {
        Key::Numpad4
    }
    else if i == 41 {
        Key::Numpad5
    }
    else if i == 42 {
        Key::Numpad6
    }
    else if i == 43 {
        Key::Numpad7
    }
    else if i == 44 {
        Key::Numpad8
    }
    else if i == 45 {
        Key::Numpad9
    }
    else if i == 46 {
        Key::F1
    }
    else if i == 47 {
        Key::F2
    }
    else if i == 48 {
        Key::F3
    }
    else if i == 49 {
        Key::F4
    }
    else if i == 50 {
        Key::F5
    }
    else if i == 51 {
        Key::F6
    }
    else if i == 52 {
        Key::F7
    }
    else if i == 53 {
        Key::F8
    }
    else if i == 54 {
        Key::F9
    }
    else if i == 55 {
        Key::F10
    }
    else if i == 56 {
        Key::F11
    }
    else if i == 57 {
        Key::F12
    }
    else if i == 58 {
        Key::F13
    }
    else if i == 59 {
        Key::F14
    }
    else if i == 60 {
        Key::F15
    }
    else if i == 61 {
        Key::LControl
    }
    else if i == 62 {
        Key::RControl
    }
    else if i == 63 {
        Key::LAlt
    }
    else if i == 64 {
        Key::RAlt
    }
    else if i == 65 {
        Key::LWin
    }
    else if i == 66 {
        Key::RWin
    }
    else if i == 67 {
        Key::Capital
    }
    else if i == 68 {
        Key::LShift
    }
    else if i == 69 {
        Key::RShift
    }
    else if i == 70 {
        Key::Tab
    }
    else if i == 71 {
        Key::Space
    }
    else if i == 72 {
        Key::Return
    }
    else if i == 73 {
        Key::NumpadEnter
    }
    else if i == 74 {
        Key::Escape
    }
    else if i == 75 {
        Key::Up
    }
    else if i == 76 {
        Key::Down
    }
    else if i == 77 {
        Key::Left
    }
    else if i == 78 {
        Key::Right
    }
    else {
        Key::Other
    }
}

/// Keyboard events change only these keys; the function keys are tracked but no
/// event sets them.
pub open spec fn is_event_key(key: Key) -> bool {
    match key {
        Key::F1 => false,
        Key::F2 => false,
        Key::F3 => false,
        Key::F4 => false,
        Key::F5 => false,
        Key::F6 => false,
        Key::F7 => false,
        Key::F8 => false,
        Key::F9 => false,
        Key::F10 => false,
        Key::F11 => false,
        Key::F12 => false,
        Key::F13 => false,
        Key::F14 => false,
        Key::F15 => false,
        Key::Other => false,
        _ => true,
    }
}

proof fn lemma_key_slot(key: Key)
    ensures
        key_slot(key) matches Some(i) ==> 0 <= i < NUM_KEYS && key_at(i) == key,
        key_slot(key) is None <==> key == Key::Other,
{
}

/// Two different tracked keys occupy different slots.
proof fn lemma_slots_differ(a: Key, b: Key)
    requires
        a != b,
        key_slot(a) is Some,
        key_slot(b) is Some,
    ensures
        key_slot(a) != key_slot(b),
{
    lemma_key_slot(a);
    lemma_key_slot(b);
}

/// The slot of `key` in a key map.
pub fn slot_of(key: Key) -> (slot: Option<usize>)
    ensures
        match slot {
            Some(s) => key_slot(key) == Some(s as int),
            None => key_slot(key) is None,
        },
{
    match key {
        Key::A => Some(0),
        Key::B => Some(1),
        Key::C => Some(2),
        Key::D => Some(3),
        Key::E => Some(4),
        Key::F => Some(5),
        Key::G => Some(6),
        Key::H => Some(7),
        Key::I => Some(8),
        Key::J => Some(9),
        Key::K => Some(10),
        Key::L => Some(11),
        Key::M => Some(12),
        Key::N => Some(13),
        Key::O => Some(14),
        Key::P => Some(15),
        Key::Q => Some(16),
        Key::R => Some(17),
        Key::S => Some(18),
        Key::T => Some(19),
        Key::U => Some(20),
        Key::V => Some(21),
        Key::W => Some(22),
        Key::X => Some(23),
        Key::Y => Some(24),
        Key::Z => Some(25),
        Key::Key1 => Some(26),
        Key::Key2 => Some(27),
        Key::Key3 => Some(28),
        Key::Key4 => Some(29),
        Key::Key5 => Some(30),
        Key::Key6 => Some(31),
        Key::Key7 => Some(32),
        Key::Key8 => Some(33),
        Key::Key9 => Some(34),
        Key::Key0 => Some(35),
        Key::Numpad0 => Some(36),
        Key::Numpad1 => Some(37),
        Key::Numpad2 => Some(38),
        Key::Numpad3 => Some(39),
        Key::Numpad4 => Some(40),
        Key::Numpad5 => Some(41),
        Key::Numpad6 => Some(42),
        Key::Numpad7 => Some(43),
        Key::Numpad8 => Some(44),
        Key::Numpad9 => Some(45),
        Key::F1 => Some(46),
        Key::F2 => Some(47),
        Key::F3 => Some(48),
        Key::F4 => Some(49),
        Key::F5 => Some(50),
        Key::F6 => Some(51),
        Key::F7 => Some(52),
        Key::F8 => Some(53),
        Key::F9 => Some(54),
        Key::F10 => Some(55),
        Key::F11 => Some(56),
        Key::F12 => Some(57),
        Key::F13 => Some(58),
        Key::F14 => Some(59),
        Key::F15 => Some(60),
        Key::LControl => Some(61),
        Key::RControl => Some(62),
        Key::LAlt => Some(63),
        Key::RAlt => Some(64),
        Key::LWin => Some(65),
        Key::RWin => Some(66),
        Key::Capital => Some(67),
        Key::LShift => Some(68),
        Key::RShift => Some(69),
        Key::Tab => Some(70),
        Key::Space => Some(71),
        Key::Return => Some(72),
        Key::NumpadEnter => Some(73),
        Key::Escape => Some(74),
        Key::Up => Some(75),
        Key::Down => Some(76),
        Key::Left => Some(77),
        Key::Right => Some(78),
        Key::Other => None,
    }
}

/// Whether a key went down or up.
#[derive(Clone, Copy, PartialEq, Eq, Structural, Debug)]
pub enum ElementState {
    Pressed,
    Released,
}

/// One event of the window system, reduced to what the key map reads.
/// A floating point motion value is carried as the bit pattern of its `f64`.
#[derive(Clone, Copy, PartialEq, Eq, Structural, Debug)]
pub enum InputEvent {
    /// The window was resized to the given width and height.
    Resized(u32, u32),
    /// The window was closed.
    Closed,
    /// A key changed its state; `virtual_keycode` is `None` for keys without a code.
    KeyboardInput { state: ElementState, virtual_keycode: Option<Key> },
    /// Raw device motion along `axis` (0 is mouse x, 1 is mouse y).
    Motion { axis: u32, value_bits: u64 },
    /// Any other event; it leaves the key map as it is.
    Other,
}

/// The state a keyboard event gives to `key`, if the event concerns it.
pub open spec fn key_event(ev: InputEvent, key: Key) -> Option<bool> {
    match ev {
        InputEvent::KeyboardInput { state, virtual_keycode: Some(code) } => {
            if code == key && is_event_key(key) {
                Some(state == ElementState::Pressed)
            } else {
                None
            }
        },
        _ => None,
    }
}

/// The motion value an event reports on `axis`, if any.
pub open spec fn motion_value(ev: InputEvent, axis: u32) -> Option<u64> {
    match ev {
        InputEvent::Motion { axis: a, value_bits } => {
            if a == axis {
                Some(value_bits)
            } else {
                None
            }
        },
        _ => None,
    }
}

/// The state that the last event on `key` in `events` gives to it, if any event does.
pub open spec fn last_key_event(events: Seq<InputEvent>, key: Key) -> Option<bool>
    decreases events.len(),
{
    if events.len() == 0 {
        None
    } else {
        match key_event(events.last(), key) {
            Some(v) => Some(v),
            None => last_key_event(events.drop_last(), key),
        }
    }
}

/// The value of the last motion on `axis` in `events`, if there is one.
pub open spec fn last_motion(events: Seq<InputEvent>, axis: u32) -> Option<u64>
    decreases events.len(),
{
    if events.len() == 0 {
        None
    } else {
        match motion_value(events.last(), axis) {
            Some(v) => Some(v),
            None => last_motion(events.drop_last(), axis),
        }
    }
}

/// Whether `key` is down after `events`, when it was `down` before them.
pub open spec fn key_after(down: bool, events: Seq<InputEvent>, key: Key) -> bool {
    match last_key_event(events, key) {
        Some(v) => v,
        None => down,
    }
}

/// `events` holds a close event.
pub open spec fn has_close(events: Seq<InputEvent>) -> bool {
    exists|i: int| 0 <= i < events.len() && events[i] is Closed
}

/// Stores which keys are currently pressed, together with the window and mouse state.
#[derive(Clone, Copy, Debug)]
pub struct KeyMap {
    /// Window info (usually not needed, recreation is handled by the renderer).
    pub window_dimensions: [u32; 2],
    /// True once the window was closed.
    pub closed: bool,
    /// The current location of the mouse.
    pub mouse_location: [i32; 2],
    /// Bit pattern of the `f64` mouse movement along x since the last update.
    pub mouse_delta_x_bits: u64,
    /// Bit pattern of the `f64` mouse movement along y since the last update.
    pub mouse_delta_y_bits: u64,
    /// The state of each tracked key, by slot (see `key_slot`).
    pub keys: [bool; NUM_KEYS],
}

impl KeyMap {
    /// Whether `key` is held down in this map. `Key::Other` is never down.
    pub open spec fn key_down(self, key: Key) -> bool {
        match key_slot(key) {
            Some(i) => self.keys@[i],
            None => false,
        }
    }

    /// A map in which no key is pressed, the window is `100 x 100` and open, and the
    /// mouse rests at the origin.
    pub fn new() -> (km: Self)
        ensures
            forall|k: Key| !km.key_down(k),
            km.window_dimensions == [100u32, 100u32],
            !km.closed,
            km.mouse_location == [0i32, 0i32],
            km.mouse_delta_x_bits == 0,
            km.mouse_delta_y_bits == 0,
    {
        let km = KeyMap {
            window_dimensions: [100, 100],
            closed: false,
            mouse_location: [0; 2],
            mouse_delta_x_bits: 0,
            mouse_delta_y_bits: 0,
            keys: [false; NUM_KEYS],
        };
        assert forall|k: Key| !km.key_down(k) by {
            lemma_key_slot(k);
        }
        km
    }

    /// Whether `key` is currently pressed.
    pub fn is_pressed(&self, key: Key) -> (down: bool)
        ensures
            down == self.key_down(key),
    {
        match slot_of(key) {
            Some(i) => {
                proof {
                    lemma_key_slot(key);
                }
                self.keys[i]
            },
            None => false,
        }
    }

    /// Resets the data that only lives for one update: the mouse location and the
    /// mouse movement.
    pub fn reset_data(&mut self)
        ensures
            final(self).mouse_location == [0i32, 0i32],
            final(self).mouse_delta_x_bits == 0,
            final(self).mouse_delta_y_bits == 0,
            final(self).closed == old(self).closed,
            final(self).window_dimensions == old(self).window_dimensions,
            forall|k: Key| #[trigger] final(self).key_down(k) == old(self).key_down(k),
    {
        self.mouse_location = [0; 2];
        self.mouse_delta_x_bits = 0;
        self.mouse_delta_y_bits = 0;
    }

    /// Marks `key` as pressed (`down`) or released. `Key::Other` changes nothing.
    pub fn set_key(&mut self, key: Key, down: bool)
        ensures
            forall|k: Key|
                #[trigger] final(self).key_down(k) == if k == key && k != Key::Other {
                    down
                } else {
                    old(self).key_down(k)
                },
            final(self).closed == old(self).closed,
            final(self).mouse_location == old(self).mouse_location,
            final(self).mouse_delta_x_bits == old(self).mouse_delta_x_bits,
            final(self).mouse_delta_y_bits == old(self).mouse_delta_y_bits,
            final(self).window_dimensions == old(self).window_dimensions,
    {
        let ghost before = *self;
        match slot_of(key) {
            Some(i) => {
                proof {
                    lemma_key_slot(key);
                }
                self.keys[i] = down;
                assert forall|k: Key|
                    #[trigger] self.key_down(k) == if k == key && k != Key::Other {
                        down
                    } else {
                        before.key_down(k)
                    } by {
                    lemma_key_slot(k);
                    if k != key && k != Key::Other {
                        lemma_slots_differ(k, key);
                    }
                }
            },
            None => {},
        }
    }

    /// Applies one window event to the map.
    pub fn apply_event(&mut self, ev: &InputEvent)
        ensures
            forall|k: Key|
                #[trigger] final(self).key_down(k) == match key_event(*ev, k) {
                    Some(v) => v,
                    None => old(self).key_down(k),
                },
            final(self).closed == (old(self).closed || *ev is Closed),
            final(self).mouse_delta_x_bits == match motion_value(*ev, 0) {
                Some(v) => v,
                None => old(self).mouse_delta_x_bits,
            },
            final(self).mouse_delta_y_bits == match motion_value(*ev, 1) {
                Some(v) => v,
                None => old(self).mouse_delta_y_bits,
            },
            final(self).mouse_location == old(self).mouse_location,
            final(self).window_dimensions == old(self).window_dimensions,
    {
        match ev {
            InputEvent::Resized(_, _) => {},
            InputEvent::Closed => {
                self.closed = true;
            },
            InputEvent::KeyboardInput { state, virtual_keycode } => {
                match virtual_keycode {
                    Some(code) => {
                        if is_event_code(*code) {
                            let down = match state {
                                ElementState::Pressed => true,
                                ElementState::Released => false,
                            };
                            self.set_key(*code, down);
                        }
                    },
                    None => {},
                }
            },
            InputEvent::Motion { axis, value_bits } => {
                if *axis == 0 {
                    self.mouse_delta_x_bits = *value_bits;
                } else if *axis == 1 {
                    self.mouse_delta_y_bits = *value_bits;
                }
            },
            InputEvent::Other => {},
        }
    }

    /// Reads the events of one polling round: the one-update data is reset first, then
    /// every event is applied in order. A key ends in the state of the last event on
    /// it; keys without an event keep their state.
    pub fn update_keys(&mut self, events: &Vec<InputEvent>)
        ensures
            forall|k: Key|
                #[trigger] final(self).key_down(k) == key_after(old(self).key_down(k), events@, k),
            final(self).closed == (old(self).closed || has_close(events@)),
            final(self).mouse_delta_x_bits == match last_motion(events@, 0) {
                Some(v) => v,
                None => 0,
            },
            final(self).mouse_delta_y_bits == match last_motion(events@, 1) {
                Some(v) => v,
                None => 0,
            },
            final(self).mouse_location == [0i32, 0i32],
            final(self).window_dimensions == old(self).window_dimensions,
    {
        let ghost start = *self;
        self.reset_data();
        let n = events.len();
        for i in 0..n
            invariant
                n == events@.len(),
                forall|k: Key|
                    #[trigger] self.key_down(k) == match last_key_event(events@.take(i as int), k) {
                        Some(v) => v,
                        None => start.key_down(k),
                    },
                self.closed == (start.closed || has_close(events@.take(i as int))),
                self.mouse_delta_x_bits == match last_motion(events@.take(i as int), 0) {
                    Some(v) => v,
                    None => 0,
                },
                self.mouse_delta_y_bits == match last_motion(events@.take(i as int), 1) {
                    Some(v) => v,
                    None => 0,
                },
                self.mouse_location == [0i32, 0i32],
                self.window_dimensions == start.window_dimensions,
        {
            let ghost before = events@.take(i as int);
            let ghost after = events@.take(i + 1);
            assert(after.drop_last() =~= before);
            assert(after.last() == events@[i as int]);
            assert(has_close(after) == (has_close(before) || events@[i as int] is Closed)) by {
                if events@[i as int] is Closed {
                    assert(after[i as int] is Closed);
                }
                if has_close(before) {
                    let j = choose|j: int| 0 <= j < before.len() && before[j] is Closed;
                    assert(after[j] is Closed);
                }
                if has_close(after) {
                    let j = choose|j: int| 0 <= j < after.len() && after[j] is Closed;
                    if j < i {
                        assert(before[j] is Closed);
                    }
                }
            }
            self.apply_event(&events[i]);
        }
        assert(events@.take(n as int) =~= events@);
    }
}

/// Whether keyboard events on `key` change the key map.
pub fn is_event_code(key: Key) -> (r: bool)
    ensures
        r == is_event_key(key),
{
    match key {
        Key::F1 => false,
        Key::F2 => false,
        Key::F3 => false,
        Key::F4 => false,
        Key::F5 => false,
        Key::F6 => false,
        Key::F7 => false,
        Key::F8 => false,
        Key::F9 => false,
        Key::F10 => false,
        Key::F11 => false,
        Key::F12 => false,
        Key::F13 => false,
        Key::F14 => false,
        Key::F15 => false,
        Key::Other => false,
        _ => true,
    }
}


/// The last event on `key` in `first + second` is the last one in `second`, or, if
/// `second` has none, the last one in `first`.
pub proof fn lemma_last_key_event_concat(first: Seq<InputEvent>, second: Seq<InputEvent>, key: Key)
    ensures
        last_key_event(first + second, key) == match last_key_event(second, key) {
            Some(v) => Some(v),
            None => last_key_event(first, key),
        },
    decreases second.len(),
{
    if second.len() == 0 {
        assert(first + second =~= first);
    } else {
        let all = first + second;
        assert(all.last() == second.last());
        assert(all.drop_last() =~= first + second.drop_last());
        lemma_last_key_event_concat(first, second.drop_last(), key);
    }
}

/// Reading two batches of events one after the other leaves every key and the
/// window in the state that reading them as one batch does.
pub proof fn law_updates_compose(
    down: bool,
    closed: bool,
    first: Seq<InputEvent>,
    second: Seq<InputEvent>,
    key: Key,
)
    ensures
        key_after(key_after(down, first, key), second, key) == key_after(down, first + second, key),
        ((closed || has_close(first)) || has_close(second)) == (closed || has_close(first + second)),
{
    lemma_last_key_event_concat(first, second, key);
    let all = first + second;
    if has_close(first) {
        let i = choose|i: int| 0 <= i < first.len() && first[i] is Closed;
        assert(all[i] is Closed);
    }
    if has_close(second) {
        let i = choose|i: int| 0 <= i < second.len() && second[i] is Closed;
        assert(all[first.len() + i] is Closed);
    }
    if has_close(all) {
        let i = choose|i: int| 0 <= i < all.len() && all[i] is Closed;
        if i < first.len() {
            assert(first[i] is Closed);
        } else {
            assert(second[i - first.len()] is Closed);
        }
    }
}

/// Every tracked key except the function keys follows the keyboard: after a round
/// whose last event on it is a press it is down, after a release it is up, whatever
/// its state was before. The function keys and `Other` never change.
pub proof fn law_keyboard_events_set_keys(key: Key, down: bool, before: Seq<InputEvent>)
    ensures
        key != Key::Other && key != Key::F1 && key != Key::F2 && key != Key::F3 && key != Key::F4 && key != Key::F5 && key != Key::F6 && key != Key::F7 && key != Key::F8 && key != Key::F9 && key != Key::F10 && key != Key::F11 && key != Key::F12 && key != Key::F13 && key != Key::F14 && key != Key::F15 ==> {
            &&& key_after(
                down,
                before.push(InputEvent::KeyboardInput {
                    state: ElementState::Pressed,
                    virtual_keycode: Some(key),
                }),
                key,
            )
            &&& !key_after(
                down,
                before.push(InputEvent::KeyboardInput {
                    state: ElementState::Released,
                    virtual_keycode: Some(key),
                }),
                key,
            )
        },
        !(key != Key::Other && key != Key::F1 && key != Key::F2 && key != Key::F3 && key != Key::F4 && key != Key::F5 && key != Key::F6 && key != Key::F7 && key != Key::F8 && key != Key::F9 && key != Key::F10 && key != Key::F11 && key != Key::F12 && key != Key::F13 && key != Key::F14 && key != Key::F15) ==> forall|ev: InputEvent|
            key_after(down, before.push(ev), key) == key_after(down, before, key),
{
    let press = before.push(InputEvent::KeyboardInput { state: ElementState::Pressed, virtual_keycode: Some(key) });
    let release = before.push(InputEvent::KeyboardInput { state: ElementState::Released, virtual_keycode: Some(key) });
    assert(press.drop_last() =~= before);
    assert(release.drop_last() =~= before);
    assert forall|ev: InputEvent| !(key != Key::Other && key != Key::F1 && key != Key::F2 && key != Key::F3 && key != Key::F4 && key != Key::F5 && key != Key::F6 && key != Key::F7 && key != Key::F8 && key != Key::F9 && key != Key::F10 && key != Key::F11 && key != Key::F12 && key != Key::F13 && key != Key::F14 && key != Key::F15) implies key_after(down, before.push(ev), key) == key_after(down, before, key) by {
        assert(before.push(ev).drop_last() =~= before);
    }
}

} // verus!
