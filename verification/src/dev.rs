//! The keypad itself: what a touch means.
//!
//! The touchpad reports where the finger is, whether it is on the pad, and a
//! timestamp with every report. From these the keypad tells a tap from a hold
//! from a drag, and a drag that starts on the toggle key from any other. It has
//! no timer: time is looked at when a timestamp arrives, and nowhere else.
//!
//! The keypad touches no device. [`NumberPad::handle_touchpad_event`] takes one
//! event and the time at which it is handled, and answers with the
//! [`Action`]s that the caller is to carry out, in their order.

use vstd::prelude::*;
use crate::keys::Key;
use crate::layout::{default_numpad_layout, numpad_bands, resolve, Band, Layout};
use crate::numpad_light::MAX_BRIGHTNESS;

verus! {

/// How far the finger must be from where it came down for the touch to count
/// as a drag, in units of the pad.
pub const MIN_DRAG_DISTANCE: usize = 30;

/// How long the finger must rest on a key for the key to count as held, in
/// nanoseconds. The touch must last longer than this.
pub const HOLD_DURATION: u64 = 250_000_000;

/// What the touchpad reports.
#[derive(Clone, Copy, Debug, PartialEq, Eq, Structural)]
pub enum TouchEvent {
    /// The finger is at this `x`.
    PositionX(usize),
    /// The finger is at this `y`.
    PositionY(usize),
    /// Whether a finger is on the pad: zero where it left, anything else where
    /// it came down.
    Finger(i32),
    /// The timestamp that comes with every report of the pad.
    Timestamp,
    /// Any other event. It changes nothing.
    Other,
}

/// What the keypad asks its caller to do.
#[derive(Clone, Copy, Debug, PartialEq, Eq, Structural)]
pub enum Action {
    /// Take the touchpad for the keypad alone, so that it moves no pointer.
    Grab,
    /// Give the touchpad back.
    Ungrab,
    /// Press the key and keep it down.
    KeysDown(Key),
    /// Let go of the key.
    KeysUp(Key),
    /// Press the key and let go of it.
    KeysPress(Key),
    /// Switch the backlight on.
    LightOn,
    /// Switch the backlight off.
    LightOff,
    /// Set the backlight to this level.
    SetBrightness(u8),
}

/// The state of the keypad.
pub struct TouchState {
    /// Where the finger is.
    pub pos_x: int,
    pub pos_y: int,
    /// Where the finger was when it last came down,
    pub touch_x: int,
    pub touch_y: int,
    /// when that was,
    pub touch_time: int,
    /// and the key it came down on.
    pub touch_key: Option<Key>,
    /// The keypad is switched on: taps and holds type.
    pub is_active: bool,
    /// The touch has turned out to be a drag.
    pub is_dragging: bool,
    /// No finger is on the pad.
    pub is_lifted: bool,
    /// The key that is being held down.
    pub holding_key: Option<Key>,
    /// The level of the backlight.
    pub brightness: int,
    /// The layout of the keys.
    pub bands: Seq<Band<Key>>,
}

/// The keypad before any event: switched off, no finger on it, the light at
/// its highest level.
pub open spec fn initial_state() -> TouchState {
    TouchState {
        pos_x: 0,
        pos_y: 0,
        touch_x: 0,
        touch_y: 0,
        touch_time: 0,
        touch_key: None,
        is_active: false,
        is_dragging: false,
        is_lifted: true,
        holding_key: None,
        brightness: MAX_BRIGHTNESS as int,
        bands: numpad_bands(),
    }
}

/// The square of the distance between the finger and where it came down.
pub open spec fn distance_squared(s: TouchState) -> int {
    (s.pos_x - s.touch_x) * (s.pos_x - s.touch_x) + (s.pos_y - s.touch_y) * (s.pos_y - s.touch_y)
}

/// The finger is at least [`MIN_DRAG_DISTANCE`] away from where it came down.
pub open spec fn moved_far(s: TouchState) -> bool {
    distance_squared(s) >= MIN_DRAG_DISTANCE * MIN_DRAG_DISTANCE
}

/// The time since the finger came down; none where the clock shows an earlier
/// time than it did then.
pub open spec fn elapsed(s: TouchState, now: int) -> int {
    if now >= s.touch_time {
        now - s.touch_time
    } else {
        0
    }
}

/// The touch is a drag that began on the toggle key: it sets the level of the
/// backlight, whether the keypad is on or off.
pub open spec fn brightness_drag(s: TouchState) -> bool {
    s.is_dragging && s.touch_key == Some(Key::NumLock)
}

/// The finger comes down. During a drag this changes nothing. Otherwise the
/// keypad notes where and when, and on which key; where it is on and there is
/// a key, it takes the touchpad.
pub open spec fn touch_down(s: TouchState, now: int) -> (TouchState, Seq<Action>) {
    if s.is_dragging {
        (s, Seq::empty())
    } else {
        let key = resolve(s.bands, s.pos_x, s.pos_y);
        (
            TouchState {
                touch_x: s.pos_x,
                touch_y: s.pos_y,
                touch_time: now,
                touch_key: key,
                is_lifted: false,
                ..s
            },
            if s.is_active && key is Some {
                seq![Action::Grab]
            } else {
                Seq::empty()
            },
        )
    }
}

/// A drag begins. The touchpad is given back, unless the finger came down on
/// the toggle key. A hold is called off: the keypad holds no key from here
/// on, and sends nothing for the one it held.
pub open spec fn drag_begins(s: TouchState) -> (TouchState, Seq<Action>) {
    (
        TouchState { is_dragging: true, holding_key: None, ..s },
        if s.touch_key == Some(Key::NumLock) {
            Seq::empty()
        } else {
            seq![Action::Ungrab]
        },
    )
}

/// The level one above `level`, and no higher than the top of the scale.
pub open spec fn level_up(level: int) -> int {
    if level < MAX_BRIGHTNESS {
        level + 1
    } else {
        MAX_BRIGHTNESS as int
    }
}

/// The level one below `level`, and no lower than the bottom of the scale.
pub open spec fn level_down(level: int) -> int {
    if level > 0 {
        level - 1
    } else {
        0
    }
}

/// One step of a drag that sets the backlight: one level up where the finger
/// is above where it came down, one level down where it is below, and no
/// further than the ends of the scale. The light is told the level that
/// results, also where it is the one it had.
pub open spec fn brightness_step(s: TouchState) -> (TouchState, Seq<Action>) {
    if s.pos_y < s.touch_y {
        (
            TouchState { brightness: level_up(s.brightness), ..s },
            seq![Action::SetBrightness(level_up(s.brightness) as u8)],
        )
    } else if s.pos_y > s.touch_y {
        (
            TouchState { brightness: level_down(s.brightness), ..s },
            seq![Action::SetBrightness(level_down(s.brightness) as u8)],
        )
    } else {
        (s, Seq::empty())
    }
}

/// The key on which the finger came down becomes a held key. The toggle key
/// cannot be held, and neither can a place without a key.
pub open spec fn hold_begins(s: TouchState) -> (TouchState, Seq<Action>) {
    match s.touch_key {
        Some(key) if key != Key::NumLock => (
            TouchState { holding_key: Some(key), ..s },
            seq![Action::KeysDown(key)],
        ),
        _ => (s, Seq::empty()),
    }
}

/// A timestamp arrives at the time `now`. With no finger on the pad it changes
/// nothing. Otherwise, the first of these that applies: a touch that has moved
/// far becomes a drag; a drag that sets the backlight makes a step; on the
/// keypad switched on, a touch that is no drag, holds no key and has lasted
/// longer than [`HOLD_DURATION`] becomes a hold.
pub open spec fn tick(s: TouchState, now: int) -> (TouchState, Seq<Action>) {
    if s.is_lifted {
        (s, Seq::empty())
    } else if !s.is_dragging && moved_far(s) {
        drag_begins(s)
    } else if brightness_drag(s) {
        brightness_step(s)
    } else if s.is_active && !s.is_dragging && s.holding_key is None && elapsed(s, now)
        > HOLD_DURATION {
        hold_begins(s)
    } else {
        (s, Seq::empty())
    }
}

/// The finger is lifted where the touch was neither a drag nor a hold: a tap
/// on the key that lies where the finger is now. The toggle key switches the
/// keypad and its light; switching off gives the touchpad back. Any other key
/// is typed, where the keypad is on.
pub open spec fn tap(s: TouchState) -> (TouchState, Seq<Action>) {
    match resolve(s.bands, s.pos_x, s.pos_y) {
        Some(Key::NumLock) => if s.is_active {
            (TouchState { is_active: false, ..s }, seq![Action::LightOff, Action::Ungrab])
        } else {
            (TouchState { is_active: true, ..s }, seq![Action::LightOn])
        },
        Some(key) => (
            s,
            if s.is_active {
                seq![Action::KeysPress(key)]
            } else {
                Seq::empty()
            },
        ),
        None => (s, Seq::empty()),
    }
}

/// The finger is lifted. A drag ends; where it set the backlight of the keypad
/// switched on, the touchpad is taken again. Else a held key is let go. Else
/// it was a tap.
pub open spec fn lift(s: TouchState) -> (TouchState, Seq<Action>) {
    if s.is_dragging {
        (
            TouchState { is_dragging: false, is_lifted: true, ..s },
            if s.is_active && brightness_drag(s) {
                seq![Action::Grab]
            } else {
                Seq::empty()
            },
        )
    } else if let Some(key) = s.holding_key {
        (TouchState { holding_key: None, is_lifted: true, ..s }, seq![Action::KeysUp(key)])
    } else {
        tap(TouchState { is_lifted: true, ..s })
    }
}

/// What the event `event`, handled at the time `now`, makes of the state `s`,
/// and what is to be done about it.
pub open spec fn step(s: TouchState, event: TouchEvent, now: int) -> (TouchState, Seq<Action>) {
    match event {
        TouchEvent::PositionX(x) => (TouchState { pos_x: x as int, ..s }, Seq::empty()),
        TouchEvent::PositionY(y) => (TouchState { pos_y: y as int, ..s }, Seq::empty()),
        TouchEvent::Finger(value) => if value == 0 {
            lift(s)
        } else {
            touch_down(s, now)
        },
        TouchEvent::Timestamp => tick(s, now),
        TouchEvent::Other => (s, Seq::empty()),
    }
}

/// What holds of the keypad at all times: a drag and a held key exclude each
/// other, there is a drag only while a finger is on the pad, a key is held
/// only while a finger is on the pad and the keypad is on, and the level of
/// the backlight is on its scale.
pub open spec fn well_formed(s: TouchState) -> bool {
    &&& !(s.is_dragging && s.holding_key is Some)
    &&& s.is_dragging ==> !s.is_lifted
    &&& s.holding_key is Some ==> !s.is_lifted && s.is_active
    &&& 0 <= s.brightness <= MAX_BRIGHTNESS
}

/// Where and when the finger last came down, and on which key.
#[derive(Debug)]
struct LastTouch {
    pos_x: usize,
    pos_y: usize,
    time: u64,
    key: Option<Key>,
}

/// What the keypad knows of the finger, and whether it is switched on.
#[derive(Debug)]
pub struct NumpadState {
    pos_x: usize,
    pos_y: usize,
    last_touch: LastTouch,
    is_active: bool,
    is_dragging: bool,
    is_lifted: bool,
}

impl NumpadState {
    fn new() -> (state: Self)
        ensures
            state.pos_x == 0,
            state.pos_y == 0,
            state.last_touch.pos_x == 0,
            state.last_touch.pos_y == 0,
            state.last_touch.time == 0,
            state.last_touch.key is None,
            !state.is_active,
            !state.is_dragging,
            state.is_lifted,
    {
        Self {
            pos_x: 0,
            pos_y: 0,
            last_touch: LastTouch { pos_x: 0, pos_y: 0, time: 0, key: None },
            is_active: false,
            is_dragging: false,
            is_lifted: true,
        }
    }
}

/// The keypad.
pub struct NumberPad {
    state: NumpadState,
    layout: Layout<Key>,
    holding_key: Option<Key>,
    brightness: u8,
}

impl View for NumberPad {
    type V = TouchState;

    closed spec fn view(&self) -> TouchState {
        TouchState {
            pos_x: self.state.pos_x as int,
            pos_y: self.state.pos_y as int,
            touch_x: self.state.last_touch.pos_x as int,
            touch_y: self.state.last_touch.pos_y as int,
            touch_time: self.state.last_touch.time as int,
            touch_key: self.state.last_touch.key,
            is_active: self.state.is_active,
            is_dragging: self.state.is_dragging,
            is_lifted: self.state.is_lifted,
            holding_key: self.holding_key,
            brightness: self.brightness as int,
            bands: self.layout@,
        }
    }
}

/// The distance between two coordinates.
fn span(a: usize, b: usize) -> (d: usize)
    ensures
        d == if a >= b {
            a - b
        } else {
            b - a
        },
{
    if a >= b {
        a - b
    } else {
        b - a
    }
}

/// Whether `key` is the toggle key.
fn is_toggle(key: Option<Key>) -> (toggle: bool)
    ensures
        toggle == (key == Some(Key::NumLock)),
{
    match key {
        Some(Key::NumLock) => true,
        _ => false,
    }
}

impl NumberPad {
    /// The keypad before any event, with the layout of the keypad.
    pub fn new() -> (pad: Self)
        ensures
            pad@ == initial_state(),
            well_formed(pad@),
    {
        Self {
            state: NumpadState::new(),
            layout: default_numpad_layout(),
            holding_key: None,
            brightness: MAX_BRIGHTNESS,
        }
    }

    /// What the backlight is told before the first event: off, and the level
    /// that the keypad starts with.
    pub fn startup_actions() -> (actions: Vec<Action>)
        ensures
            actions@ == seq![Action::LightOff, Action::SetBrightness(MAX_BRIGHTNESS)],
    {
        let mut actions: Vec<Action> = Vec::new();
        actions.push(Action::LightOff);
        actions.push(Action::SetBrightness(MAX_BRIGHTNESS));
        actions
    }

    /// Where the finger is, as `(x, y)`.
    pub fn position(&self) -> (pos: (usize, usize))
        ensures
            pos.0 == self@.pos_x,
            pos.1 == self@.pos_y,
    {
        (self.state.pos_x, self.state.pos_y)
    }

    /// Whether the keypad is switched on.
    pub fn is_active(&self) -> (active: bool)
        ensures
            active == self@.is_active,
    {
        self.state.is_active
    }

    /// Whether the touch has turned out to be a drag.
    pub fn is_dragging(&self) -> (dragging: bool)
        ensures
            dragging == self@.is_dragging,
    {
        self.state.is_dragging
    }

    /// Whether no finger is on the pad.
    pub fn is_lifted(&self) -> (lifted: bool)
        ensures
            lifted == self@.is_lifted,
    {
        self.state.is_lifted
    }

    /// The key that is being held down.
    pub fn holding_key(&self) -> (key: Option<Key>)
        ensures
            key == self@.holding_key,
    {
        self.holding_key
    }

    /// The level of the backlight.
    pub fn brightness(&self) -> (level: u8)
        ensures
            level == self@.brightness,
    {
        self.brightness
    }

    fn stop_holding_key(&mut self, actions: &mut Vec<Action>)
        ensures
            final(self)@ == (TouchState { holding_key: None, ..old(self)@ }),
            final(actions)@ == old(actions)@ + (match old(self)@.holding_key {
                Some(key) => seq![Action::KeysUp(key)],
                None => Seq::empty(),
            }),
    {
        if let Some(key) = self.holding_key {
            actions.push(Action::KeysUp(key));
            self.holding_key = None;
        }
    }

    fn is_drag_down(&self) -> (down: bool)
        ensures
            down == (self@.pos_y > self@.touch_y),
    {
        self.state.pos_y > self.state.last_touch.pos_y
    }

    fn is_drag_up(&self) -> (up: bool)
        ensures
            up == (self@.pos_y < self@.touch_y),
    {
        self.state.pos_y < self.state.last_touch.pos_y
    }

    /// Whether the finger is at least [`MIN_DRAG_DISTANCE`] away from where it
    /// came down.
    fn has_moved_far(&self) -> (far: bool)
        ensures
            far == moved_far(self@),
    {
        let dx = span(self.state.pos_x, self.state.last_touch.pos_x);
        let dy = span(self.state.pos_y, self.state.last_touch.pos_y);
        proof {
            let sx = self@.pos_x - self@.touch_x;
            let sy = self@.pos_y - self@.touch_y;
            assert(sx * sx == dx * dx && sy * sy == dy * dy) by (nonlinear_arith)
                requires
                    sx == dx || sx == -dx,
                    sy == dy || sy == -dy,
            ;
            assert(dx >= 30 ==> dx * dx >= 900) by (nonlinear_arith);
            assert(dy >= 30 ==> dy * dy >= 900) by (nonlinear_arith);
            assert(dx * dx >= 0 && dy * dy >= 0) by (nonlinear_arith);
            assert(dx < 30 ==> dx * dx <= 841) by (nonlinear_arith);
            assert(dy < 30 ==> dy * dy <= 841) by (nonlinear_arith);
        }
        if dx >= MIN_DRAG_DISTANCE || dy >= MIN_DRAG_DISTANCE {
            true
        } else {
            dx * dx + dy * dy >= MIN_DRAG_DISTANCE * MIN_DRAG_DISTANCE
        }
    }

    /// The finger has left the pad.
    fn lift(&mut self, actions: &mut Vec<Action>)
        requires
            old(self)@.is_lifted,
            old(actions)@.len() == 0,
        ensures
            final(self)@ == lift(old(self)@).0,
            final(actions)@ == lift(old(self)@).1,
    {
        if self.state.is_dragging {
            // A drag that began on the toggle key of the keypad switched on
            // has kept the touchpad. It is taken again, so that the keypad
            // stays in charge of it.
            if self.state.is_active && is_toggle(self.state.last_touch.key) {
                actions.push(Action::Grab);
            }
            self.state.is_dragging = false;
        } else if self.holding_key.is_some() {
            self.stop_holding_key(actions);
        } else if let Some(key) = self.layout.get_item(self.state.pos_x, self.state.pos_y) {
            match key {
                Key::NumLock => {
                    self.state.is_active = !self.state.is_active;
                    if self.state.is_active {
                        actions.push(Action::LightOn);
                    } else {
                        actions.push(Action::LightOff);
                        // The touchpad may still be taken, where no drag has
                        // given it back.
                        actions.push(Action::Ungrab);
                    }
                },
                _ => {
                    if self.state.is_active {
                        actions.push(Action::KeysPress(key));
                    }
                },
            }
        }
    }

    /// Handles one event of the touchpad at the time `now`, in nanoseconds
    /// since any fixed moment, and returns what is to be done, in order.
    pub fn handle_touchpad_event(&mut self, event: TouchEvent, now: u64) -> (actions: Vec<Action>)
        ensures
            final(self)@ == step(old(self)@, event, now as int).0,
            actions@ == step(old(self)@, event, now as int).1,
            well_formed(old(self)@) ==> well_formed(final(self)@),
    {
        let mut actions: Vec<Action> = Vec::new();
        match event {
            TouchEvent::PositionX(x) => {
                self.state.pos_x = x;
            },
            TouchEvent::PositionY(y) => {
                self.state.pos_y = y;
            },
            TouchEvent::Finger(value) => {
                if value == 0 {
                    self.state.is_lifted = true;
                    self.lift(&mut actions);
                } else {
                    if self.state.is_dragging {
                        // A finger that comes down during a drag belongs to a
                        // gesture of several fingers.
                        return actions;
                    }
                    self.state.last_touch.pos_x = self.state.pos_x;
                    self.state.last_touch.pos_y = self.state.pos_y;
                    self.state.last_touch.time = now;
                    self.state.is_lifted = false;
                    self.state.last_touch.key = self.layout.get_item(
                        self.state.pos_x,
                        self.state.pos_y,
                    );
                    // The touchpad is taken here and not when the keypad is
                    // switched on: taken that early, it would report no drag.
                    if self.state.is_active && self.state.last_touch.key.is_some() {
                        actions.push(Action::Grab);
                    }
                }
            },
            TouchEvent::Timestamp => {
                if self.state.is_lifted {
                    return actions;
                }
                if !self.state.is_dragging && self.has_moved_far() {
                    if !is_toggle(self.state.last_touch.key) {
                        actions.push(Action::Ungrab);
                    }
                    self.holding_key = None;
                    self.state.is_dragging = true;
                } else if self.state.is_dragging && is_toggle(self.state.last_touch.key) {
                    if self.is_drag_up() {
                        self.brightness = if self.brightness < MAX_BRIGHTNESS {
                            self.brightness + 1
                        } else {
                            MAX_BRIGHTNESS
                        };
                        actions.push(Action::SetBrightness(self.brightness));
                    } else if self.is_drag_down() {
                        self.brightness = self.brightness.saturating_sub(1);
                        actions.push(Action::SetBrightness(self.brightness));
                    }
                } else if self.state.is_active && !self.state.is_dragging
                    && now.saturating_sub(self.state.last_touch.time) > HOLD_DURATION
                    && self.holding_key.is_none() {
                    if let Some(key) = self.state.last_touch.key {
                        match key {
                            Key::NumLock => {},
                            _ => {
                                self.holding_key = Some(key);
                                actions.push(Action::KeysDown(key));
                            },
                        }
                    }
                }
            },
            TouchEvent::Other => {},
        }
        actions
    }
}

/// The state that the events `events` lead to from `s`. Each event comes
/// with the time at which it is handled.
pub open spec fn run(s: TouchState, events: Seq<(TouchEvent, int)>) -> TouchState
    decreases events.len(),
{
    if events.len() == 0 {
        s
    } else {
        step(run(s, events.drop_last()), events.last().0, events.last().1).0
    }
}

/// No event leads out of the well-formed states, and the backlight is never
/// asked for a level that it does not have.
pub proof fn lemma_step_well_formed(s: TouchState, event: TouchEvent, now: int)
    requires
        well_formed(s),
    ensures
        well_formed(step(s, event, now).0),
        forall|i: int, level: u8|
            0 <= i < step(s, event, now).1.len() && step(s, event, now).1[i]
                == Action::SetBrightness(level) ==> level <= MAX_BRIGHTNESS,
{
}

/// Whatever events arrive, and whenever: the keypad never drags and holds a
/// key at once, and the level of its backlight stays on the scale.
pub proof fn lemma_drag_excludes_hold(events: Seq<(TouchEvent, int)>)
    ensures
        well_formed(run(initial_state(), events)),
        !(run(initial_state(), events).is_dragging && run(initial_state(), events).holding_key
            is Some),
        0 <= run(initial_state(), events).brightness <= MAX_BRIGHTNESS,
    decreases events.len(),
{
    if events.len() > 0 {
        lemma_drag_excludes_hold(events.drop_last());
        lemma_step_well_formed(
            run(initial_state(), events.drop_last()),
            events.last().0,
            events.last().1,
        );
    }
}

/// The touchpad is taken only while the keypad is on, and on two occasions
/// only: when a finger comes down on a key, and when a drag that began on the
/// toggle key ends. The keypad is switched by a tap only, which switches the
/// light with it, and gives the touchpad back where it switches off.
pub proof fn lemma_grab_and_switch(s: TouchState, event: TouchEvent, now: int)
    ensures
        forall|i: int|
            0 <= i < step(s, event, now).1.len() && step(s, event, now).1[i] == Action::Grab ==> {
                &&& s.is_active
                &&& step(s, event, now).0.is_active
                &&& {
                    ||| event is Finger && event != TouchEvent::Finger(0) && !s.is_dragging
                        && resolve(s.bands, s.pos_x, s.pos_y) is Some
                    ||| event == TouchEvent::Finger(0) && brightness_drag(s)
                }
            },
        s.is_active && !step(s, event, now).0.is_active ==> event == TouchEvent::Finger(0)
            && step(s, event, now).1 == seq![Action::LightOff, Action::Ungrab],
        !s.is_active && step(s, event, now).0.is_active ==> event == TouchEvent::Finger(0)
            && step(s, event, now).1 == seq![Action::LightOn],
{
}

/// The level of the backlight changes only by a timestamp during a drag that
/// sets it, and then by one level, of which the light is told.
pub proof fn lemma_brightness_changes(s: TouchState, event: TouchEvent, now: int)
    requires
        well_formed(s),
    ensures
        step(s, event, now).0.brightness != s.brightness ==> {
            &&& event == TouchEvent::Timestamp
            &&& !s.is_lifted
            &&& brightness_drag(s)
            &&& step(s, event, now).0.brightness == s.brightness + 1 || step(
                s,
                event,
                now,
            ).0.brightness == s.brightness - 1
            &&& step(s, event, now).1 == seq![
                Action::SetBrightness(step(s, event, now).0.brightness as u8),
            ]
        },
{
}

/// With a finger on the pad and no drag yet, a timestamp begins a drag exactly
/// where the finger is at least [`MIN_DRAG_DISTANCE`] away from where it came
/// down. A finger that is exactly that far away begins one.
pub proof fn lemma_drag_threshold(s: TouchState, now: int)
    requires
        !s.is_lifted,
        !s.is_dragging,
    ensures
        tick(s, now).0.is_dragging <==> distance_squared(s) >= MIN_DRAG_DISTANCE
            * MIN_DRAG_DISTANCE,
        distance_squared(s) == MIN_DRAG_DISTANCE * MIN_DRAG_DISTANCE ==> tick(s, now)
            == drag_begins(s),
{
}

/// With the keypad on, a finger resting on a key other than the toggle key and
/// no key held yet, a timestamp presses the key down once the touch has lasted
/// longer than [`HOLD_DURATION`], and changes nothing before.
pub proof fn lemma_hold_threshold(s: TouchState, key: Key, now: int)
    requires
        !s.is_lifted,
        !s.is_dragging,
        !moved_far(s),
        s.is_active,
        s.holding_key is None,
        s.touch_key == Some(key),
        key != Key::NumLock,
    ensures
        now - s.touch_time > HOLD_DURATION ==> tick(s, now) == (
            TouchState { holding_key: Some(key), ..s },
            seq![Action::KeysDown(key)],
        ),
        now - s.touch_time <= HOLD_DURATION ==> tick(s, now) == (s, Seq::<Action>::empty()),
{
}

/// The level of the backlight stops at the ends of its scale: during a drag
/// upwards at the highest level, or downwards at the lowest, timestamps leave
/// the keypad as it is, however many arrive, and tell the light the level
/// that it has.
pub proof fn lemma_brightness_saturates(s: TouchState, events: Seq<(TouchEvent, int)>)
    requires
        !s.is_lifted,
        brightness_drag(s),
        (s.pos_y < s.touch_y && s.brightness == MAX_BRIGHTNESS) || (s.pos_y > s.touch_y
            && s.brightness == 0),
        forall|i: int| 0 <= i < events.len() ==> (#[trigger] events[i]).0 == TouchEvent::Timestamp,
    ensures
        run(s, events) == s,
        forall|now: int| #[trigger]
            tick(s, now) == (s, seq![Action::SetBrightness(s.brightness as u8)]),
    decreases events.len(),
{
    if events.len() > 0 {
        lemma_brightness_saturates(s, events.drop_last());
    }
}

/// A tap on the toggle key switches the keypad on where it was off: the light
/// is switched on and nothing else is done, so the touchpad is not taken. It
/// is taken when the finger next comes down on a key, and not where it comes
/// down beside the keys.
pub proof fn lemma_toggle_on(s: TouchState, x: int, y: int, now: int)
    requires
        !s.is_active,
        !s.is_dragging,
        s.holding_key is None,
        resolve(s.bands, s.pos_x, s.pos_y) == Some(Key::NumLock),
    ensures
        lift(s) == (TouchState { is_active: true, is_lifted: true, ..s }, seq![Action::LightOn]),
        touch_down(TouchState { pos_x: x, pos_y: y, ..lift(s).0 }, now).1 == if resolve(
            s.bands,
            x,
            y,
        ) is Some {
            seq![Action::Grab]
        } else {
            Seq::<Action>::empty()
        },
{
}

} // verus!
