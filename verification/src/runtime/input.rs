//! The state of the keyboard and the mouse, frame by frame.

use vstd::prelude::*;
use std::collections::HashMap;
use vstd::hash_map::StringHashMap;
use crate::math::vector::Vec2;
use crate::runtime::events::{KeyModifiers, MouseButton, SystemEvent};

verus! {

/// The state of a key or of a button.
#[derive(Clone, Copy, Debug, PartialEq, Eq, Structural)]
pub enum KeyState {
    Released,
    Pressed,
    JustPressed,
    JustReleased,
}

impl KeyState {
    /// Held down, since this frame or longer.
    pub open spec fn down(self) -> bool {
        self == KeyState::Pressed || self == KeyState::JustPressed
    }

    pub fn is_down(&self) -> (r: bool)
        ensures
            r == self.down(),
    {
        match self {
            KeyState::Pressed => true,
            KeyState::JustPressed => true,
            _ => false,
        }
    }
}

/// The names of a list of keys.
pub open spec fn names(keys: Seq<String>) -> Seq<Seq<char>> {
    keys.map_values(|k: String| k@)
}

/// The codes of a list of buttons.
pub open spec fn codes(buttons: Seq<MouseButton>) -> Seq<u32> {
    buttons.map_values(|b: MouseButton| b.code())
}

/// `states` with every entry that is named in `which` and stands at `from`
/// moved to `to`.
pub open spec fn promoted<K>(states: Map<K, KeyState>, which: Seq<K>, from: KeyState, to: KeyState)
    -> Map<K, KeyState> {
    Map::new(
        |k: K| states.contains_key(k),
        |k: K|
            if states[k] == from && which.contains(k) {
                to
            } else {
                states[k]
            },
    )
}

/// What the input system holds.
pub struct InputState {
    pub keys: Map<Seq<char>, KeyState>,
    pub key_modifiers: KeyModifiers,
    pub mouse_buttons: Map<u32, KeyState>,
    pub mouse_position: Vec2,
    pub last_mouse_position: Vec2,
    pub mouse_delta: Vec2,
    pub mouse_wheel_delta: Vec2,
    pub just_pressed_keys: Seq<Seq<char>>,
    pub just_released_keys: Seq<Seq<char>>,
    pub just_pressed_mouse_buttons: Seq<u32>,
    pub just_released_mouse_buttons: Seq<u32>,
}

impl InputState {
    /// Nothing pressed, the mouse at rest at the origin.
    pub open spec fn idle() -> InputState {
        InputState {
            keys: Map::empty(),
            key_modifiers: KeyModifiers::none(),
            mouse_buttons: Map::empty(),
            mouse_position: Vec2::origin(),
            last_mouse_position: Vec2::origin(),
            mouse_delta: Vec2::origin(),
            mouse_wheel_delta: Vec2::origin(),
            just_pressed_keys: Seq::empty(),
            just_released_keys: Seq::empty(),
            just_pressed_mouse_buttons: Seq::empty(),
            just_released_mouse_buttons: Seq::empty(),
        }
    }

    /// The state at the start of the next frame: what was just pressed is
    /// pressed, what was just released is released, the lists of what
    /// changed are empty and the wheel is at rest.
    pub open spec fn settled(self) -> InputState {
        InputState {
            keys: promoted(
                promoted(
                    self.keys,
                    self.just_pressed_keys,
                    KeyState::JustPressed,
                    KeyState::Pressed,
                ),
                self.just_released_keys,
                KeyState::JustReleased,
                KeyState::Released,
            ),
            mouse_buttons: promoted(
                promoted(
                    self.mouse_buttons,
                    self.just_pressed_mouse_buttons,
                    KeyState::JustPressed,
                    KeyState::Pressed,
                ),
                self.just_released_mouse_buttons,
                KeyState::JustReleased,
                KeyState::Released,
            ),
            mouse_wheel_delta: Vec2::origin(),
            just_pressed_keys: Seq::empty(),
            just_released_keys: Seq::empty(),
            just_pressed_mouse_buttons: Seq::empty(),
            just_released_mouse_buttons: Seq::empty(),
            ..self
        }
    }

    /// The state after `event`.
    pub open spec fn after(self, event: SystemEvent) -> InputState {
        match event {
            SystemEvent::KeyPressed { key, modifiers } => InputState {
                key_modifiers: modifiers,
                keys: self.keys.insert(key@, KeyState::JustPressed),
                just_pressed_keys: self.just_pressed_keys.push(key@),
                ..self
            },
            SystemEvent::KeyReleased { key, modifiers } => InputState {
                key_modifiers: modifiers,
                keys: self.keys.insert(key@, KeyState::JustReleased),
                just_released_keys: self.just_released_keys.push(key@),
                ..self
            },
            SystemEvent::MousePressed { button, x, y } => InputState {
                mouse_position: Vec2 { x, y },
                mouse_buttons: self.mouse_buttons.insert(button.code(), KeyState::JustPressed),
                just_pressed_mouse_buttons: self.just_pressed_mouse_buttons.push(button.code()),
                ..self
            },
            SystemEvent::MouseReleased { button, x, y } => InputState {
                mouse_position: Vec2 { x, y },
                mouse_buttons: self.mouse_buttons.insert(button.code(), KeyState::JustReleased),
                just_released_mouse_buttons: self.just_released_mouse_buttons.push(button.code()),
                ..self
            },
            SystemEvent::MouseMoved { x, y, delta_x, delta_y } => InputState {
                last_mouse_position: self.mouse_position,
                mouse_position: Vec2 { x, y },
                mouse_delta: Vec2 { x: delta_x, y: delta_y },
                ..self
            },
            SystemEvent::MouseWheelScrolled { delta_x, delta_y } => InputState {
                mouse_wheel_delta: Vec2 { x: delta_x, y: delta_y },
                ..self
            },
            _ => self,
        }
    }

    /// Whether the key is held down.
    pub open spec fn key_down(self, key: Seq<char>) -> bool {
        self.keys.contains_key(key) && self.keys[key].down()
    }

    /// Whether the key is in the given state.
    pub open spec fn key_is(self, key: Seq<char>, state: KeyState) -> bool {
        self.keys.contains_key(key) && self.keys[key] == state
    }

    /// Whether the button is held down.
    pub open spec fn button_down(self, button: MouseButton) -> bool {
        self.mouse_buttons.contains_key(button.code()) && self.mouse_buttons[button.code()].down()
    }

    /// Whether the button is in the given state.
    pub open spec fn button_is(self, button: MouseButton, state: KeyState) -> bool {
        self.mouse_buttons.contains_key(button.code()) && self.mouse_buttons[button.code()]
            == state
    }
}

/// Keyboard and mouse.
pub struct Input {
    keys: StringHashMap<KeyState>,
    key_modifiers: KeyModifiers,
    mouse_buttons: HashMap<u32, KeyState>,
    mouse_position: Vec2,
    last_mouse_position: Vec2,
    mouse_delta: Vec2,
    mouse_wheel_delta: Vec2,
    just_pressed_keys: Vec<String>,
    just_released_keys: Vec<String>,
    just_pressed_mouse_buttons: Vec<MouseButton>,
    just_released_mouse_buttons: Vec<MouseButton>,
}

impl View for Input {
    type V = InputState;

    closed spec fn view(&self) -> InputState {
        InputState {
            keys: self.keys@,
            key_modifiers: self.key_modifiers,
            mouse_buttons: self.mouse_buttons@,
            mouse_position: self.mouse_position,
            last_mouse_position: self.last_mouse_position,
            mouse_delta: self.mouse_delta,
            mouse_wheel_delta: self.mouse_wheel_delta,
            just_pressed_keys: names(self.just_pressed_keys@),
            just_released_keys: names(self.just_released_keys@),
            just_pressed_mouse_buttons: codes(self.just_pressed_mouse_buttons@),
            just_released_mouse_buttons: codes(self.just_released_mouse_buttons@),
        }
    }
}

fn settle_keys(keys: &mut StringHashMap<KeyState>, which: &Vec<String>, from: KeyState, to: KeyState)
    requires
        from != to,
    ensures
        final(keys)@ == promoted(old(keys)@, names(which@), from, to),
{
    let mut i: usize = 0;
    assert(keys@ =~= promoted(old(keys)@, names(which@).take(0), from, to));
    while i < which.len()
        invariant
            i <= which@.len(),
            from != to,
            keys@ == promoted(old(keys)@, names(which@).take(i as int), from, to),
        decreases which@.len() - i,
    {
        let key = &which[i];
        let ghost name = key@;
        let ghost before = names(which@).take(i as int);
        let ghost grown = names(which@).take(i + 1);
        proof {
            assert(grown =~= before.push(name));
            assert forall|k: Seq<char>| grown.contains(k) <==> (before.contains(k) || k == name) by {
                if before.contains(k) {
                    let j = choose|j: int| 0 <= j < before.len() && before[j] == k;
                    assert(grown[j] == k);
                }
                if k == name {
                    assert(grown[i as int] == k);
                }
                if grown.contains(k) {
                    let j = choose|j: int| 0 <= j < grown.len() && grown[j] == k;
                    if j < i {
                        assert(before[j] == k);
                    }
                }
            }
        }
        let state = keys.get(key.as_str());
        let moves = match state {
            Some(s) => *s == from,
            None => false,
        };
        if moves {
            keys.insert(key.clone(), to);
        }
        assert(keys@ =~= promoted(old(keys)@, grown, from, to));
        i = i + 1;
    }
    assert(names(which@).take(which@.len() as int) =~= names(which@));
}

fn settle_buttons(
    buttons: &mut HashMap<u32, KeyState>,
    which: &Vec<MouseButton>,
    from: KeyState,
    to: KeyState,
)
    requires
        from != to,
    ensures
        final(buttons)@ == promoted(old(buttons)@, codes(which@), from, to),
{
    let mut i: usize = 0;
    assert(buttons@ =~= promoted(old(buttons)@, codes(which@).take(0), from, to));
    while i < which.len()
        invariant
            i <= which@.len(),
            from != to,
            buttons@ == promoted(old(buttons)@, codes(which@).take(i as int), from, to),
        decreases which@.len() - i,
    {
        let code: u32 = which[i].to_code();
        let ghost before = codes(which@).take(i as int);
        let ghost grown = codes(which@).take(i + 1);
        proof {
            assert(grown =~= before.push(code));
            assert forall|k: u32| grown.contains(k) <==> (before.contains(k) || k == code) by {
                if before.contains(k) {
                    let j = choose|j: int| 0 <= j < before.len() && before[j] == k;
                    assert(grown[j] == k);
                }
                if k == code {
                    assert(grown[i as int] == k);
                }
                if grown.contains(k) {
                    let j = choose|j: int| 0 <= j < grown.len() && grown[j] == k;
                    if j < i {
                        assert(before[j] == k);
                    }
                }
            }
        }
        let state = buttons.get(&code);
        let moves = match state {
            Some(s) => *s == from,
            None => false,
        };
        if moves {
            buttons.insert(code, to);
        }
        assert(buttons@ =~= promoted(old(buttons)@, grown, from, to));
        i = i + 1;
    }
    assert(codes(which@).take(which@.len() as int) =~= codes(which@));
}

impl Input {
    pub fn new() -> (input: Input)
        ensures
            input@ == InputState::idle(),
    {
        let input = Input {
            keys: StringHashMap::new(),
            key_modifiers: KeyModifiers::default(),
            mouse_buttons: HashMap::new(),
            mouse_position: Vec2::zero(),
            last_mouse_position: Vec2::zero(),
            mouse_delta: Vec2::zero(),
            mouse_wheel_delta: Vec2::zero(),
            just_pressed_keys: Vec::new(),
            just_released_keys: Vec::new(),
            just_pressed_mouse_buttons: Vec::new(),
            just_released_mouse_buttons: Vec::new(),
        };
        proof {
            assert(names(input.just_pressed_keys@) =~= Seq::<Seq<char>>::empty());
            assert(names(input.just_released_keys@) =~= Seq::<Seq<char>>::empty());
            assert(codes(input.just_pressed_mouse_buttons@) =~= Seq::<u32>::empty());
            assert(codes(input.just_released_mouse_buttons@) =~= Seq::<u32>::empty());
        }
        input
    }

    /// Moves on to the next frame. Call once each frame.
    pub fn update(&mut self)
        ensures
            final(self)@ == old(self)@.settled(),
    {
        settle_keys(&mut self.keys, &self.just_pressed_keys, KeyState::JustPressed, KeyState::Pressed);
        settle_keys(
            &mut self.keys,
            &self.just_released_keys,
            KeyState::JustReleased,
            KeyState::Released,
        );
        settle_buttons(
            &mut self.mouse_buttons,
            &self.just_pressed_mouse_buttons,
            KeyState::JustPressed,
            KeyState::Pressed,
        );
        settle_buttons(
            &mut self.mouse_buttons,
            &self.just_released_mouse_buttons,
            KeyState::JustReleased,
            KeyState::Released,
        );
        self.just_pressed_keys.clear();
        self.just_released_keys.clear();
        self.just_pressed_mouse_buttons.clear();
        self.just_released_mouse_buttons.clear();
        self.mouse_wheel_delta = Vec2::zero();
        proof {
            assert(names(self.just_pressed_keys@) =~= Seq::<Seq<char>>::empty());
            assert(names(self.just_released_keys@) =~= Seq::<Seq<char>>::empty());
            assert(codes(self.just_pressed_mouse_buttons@) =~= Seq::<u32>::empty());
            assert(codes(self.just_released_mouse_buttons@) =~= Seq::<u32>::empty());
        }
    }

    /// Takes in an event of the keyboard or the mouse; any other event
    /// changes nothing.
    pub fn handle_event(&mut self, event: &SystemEvent)
        ensures
            final(self)@ == old(self)@.after(*event),
    {
        match event {
            SystemEvent::KeyPressed { key, modifiers } => {
                self.key_modifiers = *modifiers;
                self.keys.insert(key.clone(), KeyState::JustPressed);
                self.just_pressed_keys.push(key.clone());
                assert(names(self.just_pressed_keys@) =~= names(old(self).just_pressed_keys@).push(
                    key@,
                ));
            },
            SystemEvent::KeyReleased { key, modifiers } => {
                self.key_modifiers = *modifiers;
                self.keys.insert(key.clone(), KeyState::JustReleased);
                self.just_released_keys.push(key.clone());
                assert(names(self.just_released_keys@) =~= names(
                    old(self).just_released_keys@,
                ).push(key@));
            },
            SystemEvent::MousePressed { button, x, y } => {
                self.mouse_position = Vec2::new(*x, *y);
                self.mouse_buttons.insert(button.to_code(), KeyState::JustPressed);
                self.just_pressed_mouse_buttons.push(*button);
                assert(codes(self.just_pressed_mouse_buttons@) =~= codes(
                    old(self).just_pressed_mouse_buttons@,
                ).push(button.code()));
            },
            SystemEvent::MouseReleased { button, x, y } => {
                self.mouse_position = Vec2::new(*x, *y);
                self.mouse_buttons.insert(button.to_code(), KeyState::JustReleased);
                self.just_released_mouse_buttons.push(*button);
                assert(codes(self.just_released_mouse_buttons@) =~= codes(
                    old(self).just_released_mouse_buttons@,
                ).push(button.code()));
            },
            SystemEvent::MouseMoved { x, y, delta_x, delta_y } => {
                self.last_mouse_position = self.mouse_position;
                self.mouse_position = Vec2::new(*x, *y);
                self.mouse_delta = Vec2::new(*delta_x, *delta_y);
            },
            SystemEvent::MouseWheelScrolled { delta_x, delta_y } => {
                self.mouse_wheel_delta = Vec2::new(*delta_x, *delta_y);
            },
            _ => {},
        }
    }

    /// Whether the key is held down.
    pub fn is_key_pressed(&self, key: &str) -> (r: bool)
        ensures
            r == self@.key_down(key@),
    {
        match self.keys.get(key) {
            Some(state) => state.is_down(),
            None => false,
        }
    }

    /// Whether the key went down in this frame.
    pub fn is_key_just_pressed(&self, key: &str) -> (r: bool)
        ensures
            r == self@.key_is(key@, KeyState::JustPressed),
    {
        match self.keys.get(key) {
            Some(state) => *state == KeyState::JustPressed,
            None => false,
        }
    }

    /// Whether the key came up in this frame.
    pub fn is_key_just_released(&self, key: &str) -> (r: bool)
        ensures
            r == self@.key_is(key@, KeyState::JustReleased),
    {
        match self.keys.get(key) {
            Some(state) => *state == KeyState::JustReleased,
            None => false,
        }
    }

    pub fn key_modifiers(&self) -> (m: &KeyModifiers)
        ensures
            *m == self@.key_modifiers,
    {
        &self.key_modifiers
    }

    /// Whether the button is held down.
    pub fn is_mouse_button_pressed(&self, button: &MouseButton) -> (r: bool)
        ensures
            r == self@.button_down(*button),
    {
        let code: u32 = button.to_code();
        match self.mouse_buttons.get(&code) {
            Some(state) => state.is_down(),
            None => false,
        }
    }

    /// Whether the button went down in this frame.
    pub fn is_mouse_button_just_pressed(&self, button: &MouseButton) -> (r: bool)
        ensures
            r == self@.button_is(*button, KeyState::JustPressed),
    {
        let code: u32 = button.to_code();
        match self.mouse_buttons.get(&code) {
            Some(state) => *state == KeyState::JustPressed,
            None => false,
        }
    }

    /// Whether the button came up in this frame.
    pub fn is_mouse_button_just_released(&self, button: &MouseButton) -> (r: bool)
        ensures
            r == self@.button_is(*button, KeyState::JustReleased),
    {
        let code: u32 = button.to_code();
        match self.mouse_buttons.get(&code) {
            Some(state) => *state == KeyState::JustReleased,
            None => false,
        }
    }

    pub fn mouse_position(&self) -> (p: Vec2)
        ensures
            p == self@.mouse_position,
    {
        self.mouse_position
    }

    /// How far the mouse moved with its last movement.
    pub fn mouse_delta(&self) -> (d: Vec2)
        ensures
            d == self@.mouse_delta,
    {
        self.mouse_delta
    }

    /// How far the wheel turned in this frame.
    pub fn mouse_wheel_delta(&self) -> (d: Vec2)
        ensures
            d == self@.mouse_wheel_delta,
    {
        self.mouse_wheel_delta
    }

    /// Where the mouse was before its last movement.
    pub fn last_mouse_position(&self) -> (p: Vec2)
        ensures
            p == self@.last_mouse_position,
    {
        self.last_mouse_position
    }

    pub fn is_left_mouse_pressed(&self) -> (r: bool)
        ensures
            r == self@.button_down(MouseButton::Left),
    {
        self.is_mouse_button_pressed(&MouseButton::Left)
    }

    pub fn is_right_mouse_pressed(&self) -> (r: bool)
        ensures
            r == self@.button_down(MouseButton::Right),
    {
        self.is_mouse_button_pressed(&MouseButton::Right)
    }

    pub fn is_middle_mouse_pressed(&self) -> (r: bool)
        ensures
            r == self@.button_down(MouseButton::Middle),
    {
        self.is_mouse_button_pressed(&MouseButton::Middle)
    }

    pub fn is_shift_held(&self) -> (r: bool)
        ensures
            r == self@.key_modifiers.shift,
    {
        self.key_modifiers.shift
    }

    pub fn is_ctrl_held(&self) -> (r: bool)
        ensures
            r == self@.key_modifiers.ctrl,
    {
        self.key_modifiers.ctrl
    }

    pub fn is_alt_held(&self) -> (r: bool)
        ensures
            r == self@.key_modifiers.alt,
    {
        self.key_modifiers.alt
    }

    /// Forgets everything.
    pub fn reset(&mut self)
        ensures
            final(self)@ == InputState::idle(),
    {
        self.keys.clear();
        self.mouse_buttons.clear();
        self.key_modifiers = KeyModifiers::default();
        self.mouse_position = Vec2::zero();
        self.last_mouse_position = Vec2::zero();
        self.mouse_delta = Vec2::zero();
        self.mouse_wheel_delta = Vec2::zero();
        self.just_pressed_keys.clear();
        self.just_released_keys.clear();
        self.just_pressed_mouse_buttons.clear();
        self.just_released_mouse_buttons.clear();
        proof {
            assert(names(self.just_pressed_keys@) =~= Seq::<Seq<char>>::empty());
            assert(names(self.just_released_keys@) =~= Seq::<Seq<char>>::empty());
            assert(codes(self.just_pressed_mouse_buttons@) =~= Seq::<u32>::empty());
            assert(codes(self.just_released_mouse_buttons@) =~= Seq::<u32>::empty());
        }
    }
}

impl Default for Input {
    fn default() -> (input: Input)
        ensures
            input@ == InputState::idle(),
    {
        Input::new()
    }
}

/// A key that goes down and is not touched again is just pressed until
/// the next frame and pressed from then on.
pub proof fn lemma_press_then_settle(state: InputState, key: String, modifiers: KeyModifiers)
    ensures
        state.after(SystemEvent::KeyPressed { key, modifiers }).key_is(key@, KeyState::JustPressed),
        state.after(SystemEvent::KeyPressed { key, modifiers }).settled().key_is(
            key@,
            KeyState::Pressed,
        ),
        state.after(SystemEvent::KeyPressed { key, modifiers }).settled().key_down(key@),
{
    let pressed = state.after(SystemEvent::KeyPressed { key, modifiers });
    assert(pressed.just_pressed_keys[state.just_pressed_keys.len() as int] == key@);
    assert(pressed.just_pressed_keys.contains(key@));
}

/// Moving on twice without an event between is moving on once.
pub proof fn lemma_settling_is_idempotent(state: InputState)
    ensures
        state.settled().settled() == state.settled(),
{
    let once = state.settled();
    let twice = once.settled();
    assert(twice.keys =~= once.keys);
    assert(twice.mouse_buttons =~= once.mouse_buttons);
}

} // verus!
