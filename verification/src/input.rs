//! The buttons of the controllers, and how what happens at the host
//! changes their state.

use vstd::prelude::*;
use crate::mappers::Mapper;
use crate::state::{Controllers, NesState};

verus! {

pub const A_BUTTON_MASK: u8 = 1;

pub const B_BUTTON_MASK: u8 = 2;

pub const SELECT_BUTTON_MASK: u8 = 4;

pub const START_BUTTON_MASK: u8 = 8;

pub const UP_BUTTON_MASK: u8 = 16;

pub const DOWN_BUTTON_MASK: u8 = 32;

pub const LEFT_BUTTON_MASK: u8 = 64;

pub const RIGHT_BUTTON_MASK: u8 = 128;

/// The buttons of a controller.
#[derive(Debug, Clone, Copy, PartialEq, Eq, Structural)]
pub enum Button {
    A,
    B,
    Select,
    Start,
    Up,
    Down,
    Left,
    Right,
}

/// What the host reports.
#[derive(Debug, Clone, Copy, PartialEq, Eq, Structural)]
pub enum HostEvent {
    /// The user wants to leave.
    Quit,
    /// A button of controller 1 went down.
    ButtonDown(Button),
    /// A button of controller 1 came up.
    ButtonUp(Button),
    /// Something that the machine has no use for.
    Other,
}

/// The bit of a button in the state of a controller.
pub open spec fn mask_of_button(button: Button) -> u8 {
    match button {
        Button::A => A_BUTTON_MASK,
        Button::B => B_BUTTON_MASK,
        Button::Select => SELECT_BUTTON_MASK,
        Button::Start => START_BUTTON_MASK,
        Button::Up => UP_BUTTON_MASK,
        Button::Down => DOWN_BUTTON_MASK,
        Button::Left => LEFT_BUTTON_MASK,
        Button::Right => RIGHT_BUTTON_MASK,
    }
}

/// The state of a controller after an event.
pub open spec fn state_after(state: u8, event: HostEvent) -> u8 {
    match event {
        HostEvent::ButtonDown(button) => state | mask_of_button(button),
        HostEvent::ButtonUp(button) => state & !mask_of_button(button),
        _ => state,
    }
}

/// The state of a controller after the events of `events`, in order.
pub open spec fn state_after_all(state: u8, events: Seq<HostEvent>) -> u8
    decreases events.len(),
{
    if events.len() == 0 {
        state
    } else {
        state_after(state_after_all(state, events.drop_last()), events.last())
    }
}

/// Whether one of `events` asks to leave.
pub open spec fn asks_to_quit(events: Seq<HostEvent>) -> bool {
    exists|i: int| 0 <= i < events.len() && events[i] == HostEvent::Quit
}

/// The bit of a button in the state of a controller.
pub fn button_mask(button: Button) -> (r: u8)
    ensures
        r == mask_of_button(button),
{
    match button {
        Button::A => A_BUTTON_MASK,
        Button::B => B_BUTTON_MASK,
        Button::Select => SELECT_BUTTON_MASK,
        Button::Start => START_BUTTON_MASK,
        Button::Up => UP_BUTTON_MASK,
        Button::Down => DOWN_BUTTON_MASK,
        Button::Left => LEFT_BUTTON_MASK,
        Button::Right => RIGHT_BUTTON_MASK,
    }
}

/// The state of the two controllers as the host has it.
#[derive(Debug, Clone, Copy)]
pub struct InputState {
    pub controller1_state: u8,
    pub controller2_state: u8,
}

impl InputState {
    /// No button is down.
    pub fn new() -> (r: Self)
        ensures
            r.controller1_state == 0,
            r.controller2_state == 0,
    {
        Self { controller1_state: 0, controller2_state: 0 }
    }

    /// Takes one event in. It returns false where the event asks to
    /// leave.
    pub fn apply_event(&mut self, event: HostEvent) -> (keep_running: bool)
        ensures
            keep_running == (event != HostEvent::Quit),
            final(self).controller1_state == state_after(old(self).controller1_state, event),
            final(self).controller2_state == old(self).controller2_state,
    {
        match event {
            HostEvent::Quit => false,
            HostEvent::ButtonDown(button) => {
                self.controller1_state = self.controller1_state | button_mask(button);
                true
            },
            HostEvent::ButtonUp(button) => {
                self.controller1_state = self.controller1_state & !button_mask(button);
                true
            },
            HostEvent::Other => true,
        }
    }

    /// Takes the events of a frame in, in order, and hands the state of
    /// both controllers to the bus. It returns false where one of the
    /// events asks to leave.
    pub fn process_events<M: Mapper>(&mut self, events: &[HostEvent], state: &mut NesState<M>) -> (keep_running:
        bool)
        ensures
            keep_running == !asks_to_quit(events@),
            final(self).controller1_state == state_after_all(
                old(self).controller1_state,
                events@,
            ),
            final(self).controller2_state == old(self).controller2_state,
            final(state).pads == (Controllers {
                controller1_state: final(self).controller1_state,
                controller2_state: final(self).controller2_state,
                ..old(state).pads
            }),
            final(state).mapper == old(state).mapper,
            final(state).ppu == old(state).ppu,
    {
        let mut result: bool = true;
        let n: usize = events.len();
        let mut i: usize = 0;
        while i < n
            invariant
                n == events@.len(),
                i <= n,
                result == !asks_to_quit(events@.take(i as int)),
                self.controller1_state == state_after_all(
                    old(self).controller1_state,
                    events@.take(i as int),
                ),
                self.controller2_state == old(self).controller2_state,
            decreases n - i,
        {
            let ghost seen = events@.take(i as int);
            let keep: bool = self.apply_event(events[i]);
            if !keep {
                result = false;
            }
            i = i + 1;
            proof {
                let now = events@.take(i as int);
                assert(now.drop_last() =~= seen);
                if asks_to_quit(seen) {
                    let k = choose|k: int| 0 <= k < seen.len() && seen[k] == HostEvent::Quit;
                    assert(now[k] == HostEvent::Quit);
                }
                if !keep {
                    assert(now[i - 1] == HostEvent::Quit);
                }
                if asks_to_quit(now) {
                    let k = choose|k: int| 0 <= k < now.len() && now[k] == HostEvent::Quit;
                    if k < i - 1 {
                        assert(seen[k] == HostEvent::Quit);
                    }
                }
            }
        }
        assert(events@.take(n as int) =~= events@);
        state.set_controller1_state(self.controller1_state);
        state.set_controller2_state(self.controller2_state);
        result
    }
}

} // verus!
