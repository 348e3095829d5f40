//! The focus tracker: at most one component id is eligible to receive
//! input events, and switching focus is the only mutation path.
//!
//! The tracker is an explicit value owned by the caller and passed by
//! reference into routing calls, never process-wide state, so independent
//! trackers can be constructed side by side.

use vstd::prelude::*;

use crate::events::InputEvent;
use crate::events::SpecialKey;

verus! {

/// Holds the id of the component that currently owns the keyboard, if
/// any.
#[derive(Debug)]
pub struct HasFocus {
    id: Option<String>,
}

impl View for HasFocus {
    type V = Option<Seq<char>>;

    closed spec fn view(&self) -> Option<Seq<char>> {
        match self.id {
            Some(ref s) => Some(s@),
            None => None,
        }
    }
}

impl HasFocus {
    /// A tracker with no focused id.
    pub fn new() -> (r: HasFocus)
        ensures
            r@ is None,
    {
        HasFocus { id: None }
    }

    /// The currently focused id, if any.
    pub fn get_id(&self) -> (r: Option<String>)
        ensures
            match r {
                Some(s) => self@ == Some(s@),
                None => self@ is None,
            },
    {
        match &self.id {
            Some(s) => Some(s.clone()),
            None => None,
        }
    }

    /// Whether some id holds focus.
    pub fn is_set(&self) -> (r: bool)
        ensures
            r == (self@ is Some),
    {
        self.id.is_some()
    }

    /// Moves focus to `id`.
    pub fn set_id(&mut self, id: String)
        ensures
            final(self)@ == Some(id@),
    {
        self.id = Some(id);
    }

    /// Moves focus to the left or right target, but only when some id
    /// already holds focus; with no focus set the tracker is left alone.
    pub fn switch_focus(&mut self, key: SpecialKey, left_id: &String, right_id: &String)
        ensures
            old(self)@ is Some ==> final(self)@ == Some(
                if key == SpecialKey::Left {
                    left_id@
                } else {
                    right_id@
                },
            ),
            old(self)@ is None ==> final(self)@ == old(self)@,
    {
        if self.id.is_some() {
            if matches!(key, SpecialKey::Left) {
                self.set_id(left_id.clone());
            } else {
                self.set_id(right_id.clone());
            }
        }
    }
}

/// A plain Left or Right keypress with no modifiers: the events the
/// focus-switch handler consumes.
pub open spec fn spec_is_focus_switch_event(event: InputEvent) -> bool {
    match event {
        InputEvent::NonDisplayableKeypress(kp) => {
            &&& kp.maybe_modifier_keys is None
            &&& (kp.key == SpecialKey::Left || kp.key == SpecialKey::Right)
        },
        _ => false,
    }
}

/// The id a consumed focus-switch event moves focus to.
pub open spec fn spec_switch_target(
    event: InputEvent,
    left_id: Seq<char>,
    right_id: Seq<char>,
) -> Seq<char> {
    match event {
        InputEvent::NonDisplayableKeypress(kp) => {
            if kp.key == SpecialKey::Left {
                left_id
            } else {
                right_id
            }
        },
        _ => right_id,
    }
}

/// Offers an input event to the focus-switch handler: a plain Left or
/// Right keypress is consumed and, when some id already holds focus,
/// moves it to the corresponding target id. Any other event is left for
/// the components and the tracker is not touched.
pub fn handle_left_right_input_to_switch_focus(
    has_focus: &mut HasFocus,
    event: &InputEvent,
    left_id: &String,
    right_id: &String,
) -> (consumed: bool)
    ensures
        consumed == spec_is_focus_switch_event(*event),
        !consumed ==> final(has_focus)@ == old(has_focus)@,
        consumed && old(has_focus)@ is None ==> final(has_focus)@ == old(has_focus)@,
        consumed && old(has_focus)@ is Some ==> final(has_focus)@ == Some(
            spec_switch_target(*event, left_id@, right_id@),
        ),
{
    match event {
        InputEvent::NonDisplayableKeypress(kp) => {
            if kp.maybe_modifier_keys.is_none()
                && (matches!(kp.key, SpecialKey::Left) || matches!(kp.key, SpecialKey::Right)) {
                has_focus.switch_focus(kp.key, left_id, right_id);
                true
            } else {
                false
            }
        },
        _ => false,
    }
}

} // verus!
