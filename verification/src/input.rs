//! Input state: which keys and gamepad buttons are held and for how many
//! frames, where the gamepad's axes stand, and which mouse buttons went
//! down or up in a frame.
//!
//! Events come in as plain values. Key codes are numbers, axis positions and
//! button pressures are per mille, mouse positions and movements are pixels.

use vstd::prelude::*;
use vstd::array::ArrayAdditionalExecFns;
use crate::counters::bumped;

verus! {

/// The number of gamepad buttons.
pub const BUTTON_COUNT: usize = 17;

/// The number of gamepad axes.
pub const AXIS_COUNT: usize = 6;

/// The position, in per mille, under which an axis counts as at rest, and
/// above which a trigger counts as pressed.
pub const DEADZONE: i32 = 100;

/// A button of a gamepad.
#[derive(Debug, Clone, Copy, PartialEq, Eq, Hash, Structural)]
pub enum GamepadButton {
    A,
    B,
    X,
    Y,
    LeftBumper,
    RightBumper,
    Back,
    Start,
    Guide,
    LeftStick,
    RightStick,
    DPadUp,
    DPadDown,
    DPadLeft,
    DPadRight,
    LeftTrigger,
    RightTrigger,
}

/// An axis of a gamepad.
#[derive(Debug, Clone, Copy, PartialEq, Eq, Hash, Structural)]
pub enum GamepadAxis {
    LeftStickX,
    LeftStickY,
    RightStickX,
    RightStickY,
    LeftTrigger,
    RightTrigger,
}

/// A button as the gamepad driver names it.
#[derive(Debug, Clone, Copy, PartialEq, Eq, Structural)]
pub enum RawButton {
    South,
    East,
    North,
    West,
    C,
    Z,
    LeftTrigger,
    LeftTrigger2,
    RightTrigger,
    RightTrigger2,
    Select,
    Start,
    Mode,
    LeftThumb,
    RightThumb,
    DPadUp,
    DPadDown,
    DPadLeft,
    DPadRight,
    Unknown,
}

/// An axis as the gamepad driver names it.
#[derive(Debug, Clone, Copy, PartialEq, Eq, Structural)]
pub enum RawAxis {
    LeftStickX,
    LeftStickY,
    LeftZ,
    RightStickX,
    RightStickY,
    RightZ,
    DPadX,
    DPadY,
    Unknown,
}

/// The button that a driver's button stands for, if any.
pub open spec fn button_of(button: RawButton) -> Option<GamepadButton> {
    match button {
        RawButton::South => Some(GamepadButton::A),
        RawButton::East => Some(GamepadButton::B),
        RawButton::West => Some(GamepadButton::X),
        RawButton::North => Some(GamepadButton::Y),
        RawButton::LeftTrigger => Some(GamepadButton::LeftBumper),
        RawButton::RightTrigger => Some(GamepadButton::RightBumper),
        RawButton::Select => Some(GamepadButton::Back),
        RawButton::Start => Some(GamepadButton::Start),
        RawButton::Mode => Some(GamepadButton::Guide),
        RawButton::LeftThumb => Some(GamepadButton::LeftStick),
        RawButton::RightThumb => Some(GamepadButton::RightStick),
        RawButton::DPadUp => Some(GamepadButton::DPadUp),
        RawButton::DPadDown => Some(GamepadButton::DPadDown),
        RawButton::DPadLeft => Some(GamepadButton::DPadLeft),
        RawButton::DPadRight => Some(GamepadButton::DPadRight),
        _ => None,
    }
}

/// The axis that a driver's axis stands for, if any.
pub open spec fn axis_of(axis: RawAxis) -> Option<GamepadAxis> {
    match axis {
        RawAxis::LeftStickX => Some(GamepadAxis::LeftStickX),
        RawAxis::LeftStickY => Some(GamepadAxis::LeftStickY),
        RawAxis::RightStickX => Some(GamepadAxis::RightStickX),
        RawAxis::RightStickY => Some(GamepadAxis::RightStickY),
        RawAxis::LeftZ => Some(GamepadAxis::LeftTrigger),
        RawAxis::RightZ => Some(GamepadAxis::RightTrigger),
        _ => None,
    }
}

impl GamepadButton {
    /// The place of the button in the order of the buttons.
    pub open spec fn slot(self) -> int {
        match self {
            GamepadButton::A => 0,
            GamepadButton::B => 1,
            GamepadButton::X => 2,
            GamepadButton::Y => 3,
            GamepadButton::LeftBumper => 4,
            GamepadButton::RightBumper => 5,
            GamepadButton::Back => 6,
            GamepadButton::Start => 7,
            GamepadButton::Guide => 8,
            GamepadButton::LeftStick => 9,
            GamepadButton::RightStick => 10,
            GamepadButton::DPadUp => 11,
            GamepadButton::DPadDown => 12,
            GamepadButton::DPadLeft => 13,
            GamepadButton::DPadRight => 14,
            GamepadButton::LeftTrigger => 15,
            GamepadButton::RightTrigger => 16,
        }
    }

    /// The place of the button in the order of the buttons.
    pub fn index(self) -> (r: usize)
        ensures
            r == self.slot(),
            r < BUTTON_COUNT,
    {
        match self {
            GamepadButton::A => 0,
            GamepadButton::B => 1,
            GamepadButton::X => 2,
            GamepadButton::Y => 3,
            GamepadButton::LeftBumper => 4,
            GamepadButton::RightBumper => 5,
            GamepadButton::Back => 6,
            GamepadButton::Start => 7,
            GamepadButton::Guide => 8,
            GamepadButton::LeftStick => 9,
            GamepadButton::RightStick => 10,
            GamepadButton::DPadUp => 11,
            GamepadButton::DPadDown => 12,
            GamepadButton::DPadLeft => 13,
            GamepadButton::DPadRight => 14,
            GamepadButton::LeftTrigger => 15,
            GamepadButton::RightTrigger => 16,
        }
    }

    /// The button that a driver's button stands for, if any.
    pub fn from_gilrs(button: RawButton) -> (r: Option<GamepadButton>)
        ensures
            r == button_of(button),
    {
        match button {
            RawButton::South => Some(GamepadButton::A),
            RawButton::East => Some(GamepadButton::B),
            RawButton::West => Some(GamepadButton::X),
            RawButton::North => Some(GamepadButton::Y),
            RawButton::LeftTrigger => Some(GamepadButton::LeftBumper),
            RawButton::RightTrigger => Some(GamepadButton::RightBumper),
            RawButton::Select => Some(GamepadButton::Back),
            RawButton::Start => Some(GamepadButton::Start),
            RawButton::Mode => Some(GamepadButton::Guide),
            RawButton::LeftThumb => Some(GamepadButton::LeftStick),
            RawButton::RightThumb => Some(GamepadButton::RightStick),
            RawButton::DPadUp => Some(GamepadButton::DPadUp),
            RawButton::DPadDown => Some(GamepadButton::DPadDown),
            RawButton::DPadLeft => Some(GamepadButton::DPadLeft),
            RawButton::DPadRight => Some(GamepadButton::DPadRight),
            _ => None,
        }
    }
}

impl GamepadAxis {
    /// The place of the axis in the order of the axes.
    pub open spec fn slot(self) -> int {
        match self {
            GamepadAxis::LeftStickX => 0,
            GamepadAxis::LeftStickY => 1,
            GamepadAxis::RightStickX => 2,
            GamepadAxis::RightStickY => 3,
            GamepadAxis::LeftTrigger => 4,
            GamepadAxis::RightTrigger => 5,
        }
    }

    /// The place of the axis in the order of the axes.
    pub fn index(self) -> (r: usize)
        ensures
            r == self.slot(),
            r < AXIS_COUNT,
    {
        match self {
            GamepadAxis::LeftStickX => 0,
            GamepadAxis::LeftStickY => 1,
            GamepadAxis::RightStickX => 2,
            GamepadAxis::RightStickY => 3,
            GamepadAxis::LeftTrigger => 4,
            GamepadAxis::RightTrigger => 5,
        }
    }

    /// The axis that a driver's axis stands for, if any.
    pub fn from_gilrs(axis: RawAxis) -> (r: Option<GamepadAxis>)
        ensures
            r == axis_of(axis),
    {
        match axis {
            RawAxis::LeftStickX => Some(GamepadAxis::LeftStickX),
            RawAxis::LeftStickY => Some(GamepadAxis::LeftStickY),
            RawAxis::RightStickX => Some(GamepadAxis::RightStickX),
            RawAxis::RightStickY => Some(GamepadAxis::RightStickY),
            RawAxis::LeftZ => Some(GamepadAxis::LeftTrigger),
            RawAxis::RightZ => Some(GamepadAxis::RightTrigger),
            _ => None,
        }
    }
}

/// For how many frames a button has been held, and how hard it is pressed.
#[derive(Debug, Clone, Copy, PartialEq, Eq, Structural)]
pub struct GamepadButtonState {
    pub ticks: u32,
    /// The pressure in per mille.
    pub value: i32,
}

/// What the gamepad driver reports.
#[derive(Debug, Clone, Copy, PartialEq, Eq, Structural)]
pub enum PadEvent {
    ButtonPressed(RawButton),
    ButtonReleased(RawButton),
    /// An axis moved to the given position, in per mille.
    AxisChanged(RawAxis, i32),
    Other,
}

/// The position that is kept for an axis: zero within the dead zone.
pub open spec fn settled(value: i32) -> i32 {
    if -DEADZONE < value < DEADZONE {
        0
    } else {
        value
    }
}

/// The state of a gamepad.
pub struct GamepadView {
    pub buttons: Seq<Option<GamepadButtonState>>,
    pub axes: Seq<Option<i32>>,
    pub connected: bool,
}

impl GamepadView {
    /// The state of a button, if it is held.
    pub open spec fn button(self, button: GamepadButton) -> Option<GamepadButtonState> {
        self.buttons[button.slot()]
    }

    /// The position of an axis; zero where none was reported.
    pub open spec fn axis(self, axis: GamepadAxis) -> i32 {
        match self.axes[axis.slot()] {
            Some(value) => value,
            None => 0,
        }
    }

    /// Nothing is held and no axis was reported.
    pub open spec fn at_rest(self) -> bool {
        &&& self.buttons == Seq::new(BUTTON_COUNT as nat, |i: int| None::<GamepadButtonState>)
        &&& self.axes == Seq::new(AXIS_COUNT as nat, |i: int| None::<i32>)
    }

    /// The gamepad after a button was pressed with the given pressure, or
    /// released. A button that is held already keeps its count of frames.
    pub open spec fn set_button(self, button: GamepadButton, pressed: bool, value: i32) -> GamepadView {
        let state = if pressed {
            Some(
                GamepadButtonState {
                    ticks: match self.button(button) {
                        Some(held) => held.ticks,
                        None => 0,
                    },
                    value,
                },
            )
        } else {
            None
        };
        GamepadView { buttons: self.buttons.update(button.slot(), state), ..self }
    }

    /// The gamepad after an axis moved.
    pub open spec fn set_axis(self, axis: GamepadAxis, value: i32) -> GamepadView {
        GamepadView { axes: self.axes.update(axis.slot(), Some(settled(value))), ..self }
    }

    /// The gamepad after a frame: every held button counts one more.
    pub open spec fn update_ticks(self) -> GamepadView {
        GamepadView {
            buttons: Seq::new(
                self.buttons.len(),
                |i: int|
                    match self.buttons[i] {
                        Some(state) => Some(
                            GamepadButtonState { ticks: bumped(state.ticks), ..state },
                        ),
                        None => None,
                    },
            ),
            ..self
        }
    }

    /// The gamepad after an event of the driver.
    pub open spec fn apply(self, event: PadEvent) -> GamepadView {
        match event {
            PadEvent::ButtonPressed(raw) => match button_of(raw) {
                Some(button) => self.set_button(button, true, 1000),
                None => self,
            },
            PadEvent::ButtonReleased(raw) => match button_of(raw) {
                Some(button) => self.set_button(button, false, 0),
                None => self,
            },
            PadEvent::AxisChanged(raw, value) => match axis_of(raw) {
                Some(axis) => self.set_axis(axis, value),
                None => self,
            },
            PadEvent::Other => self,
        }
    }

    /// The gamepad after the events, in order.
    pub open spec fn apply_all(self, events: Seq<PadEvent>) -> GamepadView
        decreases events.len(),
    {
        if events.len() == 0 {
            self
        } else {
            self.apply_all(events.drop_last()).apply(events.last())
        }
    }

    /// The gamepad with a trigger button set from the trigger's axis: held,
    /// with the axis' position as pressure, when the position is above the
    /// dead zone.
    pub open spec fn with_trigger(self, button: GamepadButton, axis: GamepadAxis) -> GamepadView {
        if self.axis(axis) > DEADZONE {
            self.set_button(button, true, self.axis(axis))
        } else {
            self.set_button(button, false, 0)
        }
    }
}

/// Events of the driver do not change whether the gamepad is connected.
pub proof fn lemma_events_keep_connection(gamepad: GamepadView, events: Seq<PadEvent>)
    ensures
        gamepad.apply_all(events).connected == gamepad.connected,
    decreases events.len(),
{
    if events.len() > 0 {
        lemma_events_keep_connection(gamepad, events.drop_last());
    }
}

/// The state of a gamepad.
#[derive(Debug, Clone, Copy)]
pub struct GamepadState {
    buttons_down: [Option<GamepadButtonState>; 17],
    axes: [Option<i32>; 6],
    pub connected: bool,
}

impl View for GamepadState {
    type V = GamepadView;

    closed spec fn view(&self) -> GamepadView {
        GamepadView { buttons: self.buttons_down@, axes: self.axes@, connected: self.connected }
    }
}

impl GamepadState {
    /// A gamepad that is not connected, with nothing held.
    pub fn new() -> (r: GamepadState)
        ensures
            r@.at_rest(),
            !r@.connected,
    {
        let r = GamepadState { buttons_down: [None; 17], axes: [None; 6], connected: false };
        assert(r@.buttons =~= Seq::new(BUTTON_COUNT as nat, |i: int| None::<GamepadButtonState>));
        assert(r@.axes =~= Seq::new(AXIS_COUNT as nat, |i: int| None::<i32>));
        r
    }

    /// Whether a button is held.
    pub fn is_button_down(&self, button: GamepadButton) -> (r: bool)
        ensures
            r == self@.button(button) is Some,
    {
        self.get_button_down(button).is_some()
    }

    /// Whether a button went down in this frame.
    pub fn was_button_just_pressed(&self, button: GamepadButton) -> (r: bool)
        ensures
            r == (self@.button(button) matches Some(state) && state.ticks == 1),
    {
        match self.get_button_down(button) {
            Some(state) => state.ticks == 1,
            None => false,
        }
    }

    /// The state of a button, if it is held.
    pub fn get_button_down(&self, button: GamepadButton) -> (r: Option<GamepadButtonState>)
        ensures
            r == self@.button(button),
    {
        self.buttons_down[button.index()]
    }

    /// The pressure on a button, in per mille; zero where it is not held.
    pub fn get_button_value(&self, button: GamepadButton) -> (r: i32)
        ensures
            r == match self@.button(button) {
                Some(state) => state.value,
                None => 0,
            },
    {
        match self.get_button_down(button) {
            Some(state) => state.value,
            None => 0,
        }
    }

    /// The position of an axis, in per mille.
    pub fn get_axis(&self, axis: GamepadAxis) -> (r: i32)
        ensures
            r == self@.axis(axis),
    {
        match self.axes[axis.index()] {
            Some(value) => value,
            None => 0,
        }
    }

    /// Notes that a button is pressed with the given pressure, or released.
    pub fn set_button(&mut self, button: GamepadButton, pressed: bool, value: i32)
        ensures
            final(self)@ == old(self)@.set_button(button, pressed, value),
    {
        let slot = button.index();
        if pressed {
            let ticks = match self.buttons_down[slot] {
                Some(held) => held.ticks,
                None => 0,
            };
            self.buttons_down.set(slot, Some(GamepadButtonState { ticks, value }));
        } else {
            self.buttons_down.set(slot, None);
        }
    }

    /// Notes the position of an axis. A position within the dead zone
    /// counts as zero.
    pub fn set_axis(&mut self, axis: GamepadAxis, value: i32)
        ensures
            final(self)@ == old(self)@.set_axis(axis, value),
    {
        let final_value = if -DEADZONE < value && value < DEADZONE {
            0
        } else {
            value
        };
        self.axes.set(axis.index(), Some(final_value));
    }

    /// Counts one more frame for every held button.
    pub fn update_ticks(&mut self)
        ensures
            final(self)@ == old(self)@.update_ticks(),
    {
        let mut i: usize = 0;
        while i < BUTTON_COUNT
            invariant
                i <= BUTTON_COUNT,
                self@.axes == old(self)@.axes,
                self@.connected == old(self)@.connected,
                self@.buttons.len() == BUTTON_COUNT,
                forall|k: int| 0 <= k < i ==> self@.buttons[k] == old(self)@.update_ticks().buttons[k],
                forall|k: int| i <= k < BUTTON_COUNT ==> self@.buttons[k] == old(self)@.buttons[k],
            decreases BUTTON_COUNT - i,
        {
            match self.buttons_down[i] {
                Some(state) => {
                    self.buttons_down.set(
                        i,
                        Some(
                            GamepadButtonState {
                                ticks: state.ticks.saturating_add(1),
                                value: state.value,
                            },
                        ),
                    );
                },
                None => {},
            }
            i += 1;
        }
        assert(self@.buttons =~= old(self)@.update_ticks().buttons);
    }

    /// Takes in what the driver reports for a frame. Without a connected
    /// gamepad everything comes to rest. Else the events are applied in
    /// order, and the two trigger buttons follow their axes.
    pub fn update_from_gilrs(&mut self, connected: bool, events: &Vec<PadEvent>)
        ensures
            final(self)@.connected == connected,
            !connected ==> final(self)@.at_rest(),
            connected ==> final(self)@ == (GamepadView { connected: true, ..old(self)@ }).apply_all(
                events@,
            ).with_trigger(GamepadButton::LeftTrigger, GamepadAxis::LeftTrigger).with_trigger(
                GamepadButton::RightTrigger,
                GamepadAxis::RightTrigger,
            ),
    {
        self.connected = connected;
        if !connected {
            self.buttons_down = [None; 17];
            self.axes = [None; 6];
            assert(self@.buttons =~= Seq::new(
                BUTTON_COUNT as nat,
                |i: int| None::<GamepadButtonState>,
            ));
            assert(self@.axes =~= Seq::new(AXIS_COUNT as nat, |i: int| None::<i32>));
            return ;
        }
        let ghost start = self@;
        let mut i: usize = 0;
        assert(events@.subrange(0, 0) =~= Seq::empty());
        while i < events.len()
            invariant
                i <= events.len(),
                self@ == start.apply_all(events@.subrange(0, i as int)),
            decreases events.len() - i,
        {
            proof {
                let next = events@.subrange(0, i + 1);
                assert(next.drop_last() =~= events@.subrange(0, i as int));
                assert(next.last() == events@[i as int]);
            }
            match events[i] {
                PadEvent::ButtonPressed(raw) => {
                    if let Some(button) = GamepadButton::from_gilrs(raw) {
                        self.set_button(button, true, 1000);
                    }
                },
                PadEvent::ButtonReleased(raw) => {
                    if let Some(button) = GamepadButton::from_gilrs(raw) {
                        self.set_button(button, false, 0);
                    }
                },
                PadEvent::AxisChanged(raw, value) => {
                    if let Some(axis) = GamepadAxis::from_gilrs(raw) {
                        self.set_axis(axis, value);
                    }
                },
                PadEvent::Other => {},
            }
            i += 1;
        }
        assert(events@.subrange(0, i as int) =~= events@);
        proof {
            lemma_events_keep_connection(start, events@);
        }
        let left_trigger = self.get_axis(GamepadAxis::LeftTrigger);
        if left_trigger > DEADZONE {
            self.set_button(GamepadButton::LeftTrigger, true, left_trigger);
        } else {
            self.set_button(GamepadButton::LeftTrigger, false, 0);
        }
        let right_trigger = self.get_axis(GamepadAxis::RightTrigger);
        if right_trigger > DEADZONE {
            self.set_button(GamepadButton::RightTrigger, true, right_trigger);
        } else {
            self.set_button(GamepadButton::RightTrigger, false, 0);
        }
    }
}

/// For how many frames a key has been held.
#[derive(Debug, Clone, Copy, PartialEq, Eq, Structural)]
pub struct KeyState {
    pub ticks: u32,
}

/// A key went down or up.
#[derive(Debug, Clone, Copy, PartialEq, Eq, Structural)]
pub struct KeyEvent {
    pub key: u32,
    pub pressed: bool,
}

/// A held key: its code and its state.
#[derive(Debug, Clone, Copy, PartialEq, Eq, Structural)]
pub struct HeldKey {
    pub key: u32,
    pub state: KeyState,
}

/// The position of a key among the held keys, or `-1` where it is not
/// held. Where it stands several times, the last counts.
pub open spec fn held_index(keys: Seq<HeldKey>, key: u32) -> int
    decreases keys.len(),
{
    if keys.len() == 0 {
        -1
    } else if keys.last().key == key {
        keys.len() - 1
    } else {
        held_index(keys.drop_last(), key)
    }
}

/// The held keys after a key went down or up: a key that goes down joins
/// them with a count of zero, unless it is held already; a key that goes up
/// leaves them.
pub open spec fn after_key_event(keys: Seq<HeldKey>, event: KeyEvent) -> Seq<HeldKey> {
    let at = held_index(keys, event.key);
    if event.pressed {
        if at >= 0 {
            keys
        } else {
            keys.push(HeldKey { key: event.key, state: KeyState { ticks: 0 } })
        }
    } else {
        if at >= 0 {
            keys.remove(at)
        } else {
            keys
        }
    }
}

/// The held keys after the events, in order.
pub open spec fn after_key_events(keys: Seq<HeldKey>, events: Seq<KeyEvent>) -> Seq<HeldKey>
    decreases events.len(),
{
    if events.len() == 0 {
        keys
    } else {
        after_key_event(after_key_events(keys, events.drop_last()), events.last())
    }
}

/// The held keys after a frame: each counts one more.
pub open spec fn ticked(keys: Seq<HeldKey>) -> Seq<HeldKey> {
    Seq::new(
        keys.len(),
        |i: int| HeldKey { key: keys[i].key, state: KeyState { ticks: bumped(keys[i].state.ticks) } },
    )
}

/// Extending a prefix by one key moves [`held_index`] to the new key
/// exactly when it has the code.
proof fn lemma_held_index_step(keys: Seq<HeldKey>, n: int, key: u32)
    requires
        0 <= n < keys.len(),
    ensures
        held_index(keys.subrange(0, n + 1), key) == if keys[n].key == key {
            n
        } else {
            held_index(keys.subrange(0, n), key)
        },
{
    let prefix = keys.subrange(0, n + 1);
    assert(prefix.last() == keys[n]);
    assert(prefix.drop_last() =~= keys.subrange(0, n));
}

/// The keys that are held.
#[derive(Debug, Clone)]
pub struct KeyboardState {
    keys_down: Vec<HeldKey>,
}

impl View for KeyboardState {
    type V = Seq<HeldKey>;

    closed spec fn view(&self) -> Seq<HeldKey> {
        self.keys_down@
    }
}

impl KeyboardState {
    /// A keyboard with no key held.
    pub fn new() -> (r: KeyboardState)
        ensures
            r@ == Seq::<HeldKey>::empty(),
    {
        KeyboardState { keys_down: Vec::new() }
    }

    /// The position of a key among the held keys.
    fn find_key(&self, key: u32) -> (r: Option<usize>)
        ensures
            match r {
                Some(at) => at == held_index(self@, key) && at < self@.len(),
                None => held_index(self@, key) == -1,
            },
    {
        let mut found: Option<usize> = None;
        let mut i: usize = 0;
        while i < self.keys_down.len()
            invariant
                i <= self.keys_down.len(),
                match found {
                    Some(at) => at == held_index(self@.subrange(0, i as int), key) && at < i,
                    None => held_index(self@.subrange(0, i as int), key) == -1,
                },
            decreases self.keys_down.len() - i,
        {
            proof {
                lemma_held_index_step(self@, i as int, key);
            }
            if self.keys_down[i].key == key {
                found = Some(i);
            }
            i += 1;
        }
        assert(self@.subrange(0, i as int) =~= self@);
        found
    }

    /// Whether a key is held.
    pub fn is_down(&self, key: u32) -> (r: bool)
        ensures
            r == (held_index(self@, key) >= 0),
    {
        self.get_down(key).is_some()
    }

    /// Whether a key went down in this frame.
    pub fn was_just_pressed(&self, key: u32) -> (r: bool)
        ensures
            r == (held_index(self@, key) >= 0 && self@[held_index(self@, key)].state.ticks == 1),
    {
        match self.get_down(key) {
            Some(state) => state.ticks == 1,
            None => false,
        }
    }

    /// The state of a key, if it is held.
    pub fn get_down(&self, key: u32) -> (r: Option<KeyState>)
        ensures
            match r {
                Some(state) => held_index(self@, key) >= 0 && state == self@[held_index(
                    self@,
                    key,
                )].state,
                None => held_index(self@, key) == -1,
            },
    {
        match self.find_key(key) {
            Some(at) => Some(self.keys_down[at].state),
            None => None,
        }
    }

    /// Takes in the key events of a frame, in order, and then counts one
    /// more frame for every held key.
    pub fn update(&mut self, events: &Vec<KeyEvent>)
        ensures
            final(self)@ == ticked(after_key_events(old(self)@, events@)),
    {
        let mut i: usize = 0;
        assert(events@.subrange(0, 0) =~= Seq::empty());
        while i < events.len()
            invariant
                i <= events.len(),
                self@ == after_key_events(old(self)@, events@.subrange(0, i as int)),
            decreases events.len() - i,
        {
            proof {
                let next = events@.subrange(0, i + 1);
                assert(next.drop_last() =~= events@.subrange(0, i as int));
                assert(next.last() == events@[i as int]);
            }
            let event = events[i];
            let found = self.find_key(event.key);
            if event.pressed {
                if found.is_none() {
                    self.keys_down.push(HeldKey { key: event.key, state: KeyState { ticks: 0 } });
                }
            } else {
                if let Some(at) = found {
                    self.keys_down.remove(at);
                }
            }
            i += 1;
        }
        assert(events@.subrange(0, i as int) =~= events@);
        let ghost pressed = self@;
        let mut k: usize = 0;
        while k < self.keys_down.len()
            invariant
                k <= self.keys_down.len(),
                self@.len() == pressed.len(),
                forall|j: int| 0 <= j < k ==> self@[j] == ticked(pressed)[j],
                forall|j: int| k <= j < pressed.len() ==> self@[j] == pressed[j],
            decreases self.keys_down.len() - k,
        {
            let held = self.keys_down[k];
            self.keys_down[k] = HeldKey {
                key: held.key,
                state: KeyState { ticks: held.state.ticks.saturating_add(1) },
            };
            k += 1;
        }
        assert(self@ =~= ticked(pressed));
    }
}

/// What the window reports of the mouse.
#[derive(Debug, Clone, Copy, PartialEq, Eq, Structural)]
pub enum MouseEvent {
    /// The cursor is at the given position.
    CursorMoved(i32, i32),
    /// A button went down or up: 0 is the left, 1 the middle, 2 the right one.
    Button { button: u8, pressed: bool },
    /// The mouse moved by the given amounts.
    Motion(i32, i32),
    Other,
}

/// The state of the mouse.
#[derive(Debug, Clone, Copy, PartialEq, Eq)]
pub struct MouseState {
    pub physical_position: (i32, i32),
    pub delta: (i64, i64),
    /// The buttons that are held, one bit each.
    pub buttons_held: u32,
    /// The buttons that went down in this frame, one bit each.
    pub buttons_pressed: u32,
    /// The buttons that went up in this frame, one bit each.
    pub buttons_released: u32,
}

/// The bit of a mouse button: the left button for every number above two.
pub open spec fn button_bit(button: u8) -> u32 {
    if button == 1 {
        2
    } else if button == 2 {
        4
    } else {
        1
    }
}

/// The sum of two movements, limited to the range of `i64`.
pub open spec fn moved(a: i64, b: i32) -> i64 {
    if a + b > i64::MAX {
        i64::MAX
    } else if a + b < i64::MIN {
        i64::MIN
    } else {
        (a + b) as i64
    }
}

impl MouseState {
    /// The state at the start of a frame: nothing went down or up yet, and
    /// the mouse has not moved.
    pub open spec fn begin_frame(self) -> MouseState {
        MouseState { buttons_pressed: 0, buttons_released: 0, delta: (0, 0), ..self }
    }

    /// The state after an event.
    pub open spec fn apply(self, event: MouseEvent) -> MouseState {
        match event {
            MouseEvent::CursorMoved(x, y) => MouseState { physical_position: (x, y), ..self },
            MouseEvent::Button { button, pressed } => if pressed {
                MouseState {
                    buttons_held: self.buttons_held | button_bit(button),
                    buttons_pressed: self.buttons_pressed | button_bit(button),
                    ..self
                }
            } else {
                MouseState {
                    buttons_held: self.buttons_held & !button_bit(button),
                    buttons_released: self.buttons_released | button_bit(button),
                    ..self
                }
            },
            MouseEvent::Motion(dx, dy) => MouseState {
                delta: (moved(self.delta.0, dx), moved(self.delta.1, dy)),
                ..self
            },
            MouseEvent::Other => self,
        }
    }

    /// The state after the events, in order.
    pub open spec fn apply_all(self, events: Seq<MouseEvent>) -> MouseState
        decreases events.len(),
    {
        if events.len() == 0 {
            self
        } else {
            self.apply_all(events.drop_last()).apply(events.last())
        }
    }

    /// The bit of a mouse button.
    fn bit_of(button: u8) -> (r: u32)
        ensures
            r == button_bit(button),
    {
        if button == 1 {
            2
        } else if button == 2 {
            4
        } else {
            1
        }
    }

    /// The sum of two movements, limited to the range of `i64`.
    fn add_motion(a: i64, b: i32) -> (r: i64)
        ensures
            r == moved(a, b),
    {
        let sum: i128 = (a as i128) + (b as i128);
        if sum > i64::MAX as i128 {
            i64::MAX
        } else if sum < i64::MIN as i128 {
            i64::MIN
        } else {
            sum as i64
        }
    }

    /// Takes in the mouse events of a frame, in order.
    pub fn update(&mut self, events: &Vec<MouseEvent>)
        ensures
            *final(self) == old(self).begin_frame().apply_all(events@),
    {
        self.buttons_pressed = 0;
        self.buttons_released = 0;
        self.delta = (0, 0);
        let mut i: usize = 0;
        assert(events@.subrange(0, 0) =~= Seq::empty());
        while i < events.len()
            invariant
                i <= events.len(),
                *self == old(self).begin_frame().apply_all(events@.subrange(0, i as int)),
            decreases events.len() - i,
        {
            proof {
                let next = events@.subrange(0, i + 1);
                assert(next.drop_last() =~= events@.subrange(0, i as int));
                assert(next.last() == events@[i as int]);
            }
            match events[i] {
                MouseEvent::CursorMoved(x, y) => {
                    self.physical_position = (x, y);
                },
                MouseEvent::Button { button, pressed } => {
                    let bit = Self::bit_of(button);
                    if pressed {
                        self.buttons_held = self.buttons_held | bit;
                        self.buttons_pressed = self.buttons_pressed | bit;
                    } else {
                        self.buttons_held = self.buttons_held & !bit;
                        self.buttons_released = self.buttons_released | bit;
                    }
                },
                MouseEvent::Motion(dx, dy) => {
                    self.delta = (Self::add_motion(self.delta.0, dx), Self::add_motion(
                        self.delta.1,
                        dy,
                    ));
                },
                MouseEvent::Other => {},
            }
            i += 1;
        }
        assert(events@.subrange(0, i as int) =~= events@);
    }
}

impl Default for MouseState {
    fn default() -> (r: MouseState)
        ensures
            r.physical_position == (0i32, 0i32),
            r.delta == (0i64, 0i64),
            r.buttons_held == 0,
            r.buttons_pressed == 0,
            r.buttons_released == 0,
    {
        MouseState {
            physical_position: (0, 0),
            delta: (0, 0),
            buttons_held: 0,
            buttons_pressed: 0,
            buttons_released: 0,
        }
    }
}

} // verus!
