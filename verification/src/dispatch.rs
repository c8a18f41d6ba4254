//! Which shared store an event belongs to.
//!
//! The voices and the parameters are kept apart so that each can be locked
//! on its own. An event changes at most one of them, and the dispatcher
//! needs to take only that one.

use vstd::prelude::*;
use crate::midi::MidiEvent;
use crate::params::Params;
use crate::voice::{after_event, is_key_event, Voice};

verus! {

/// The store that an event is applied to.
#[derive(Clone, Copy, Debug, PartialEq, Eq, Structural)]
pub enum Store {
    /// The voice registry: keys going down and coming up.
    Voices,
    /// The parameters: knobs, also those that set nothing.
    Params,
    /// No store: the event is only reported.
    Neither,
}

/// The store that `event` is applied to.
pub open spec fn store_of(event: MidiEvent) -> Store {
    match event {
        MidiEvent::KeyPressed(_, _) => Store::Voices,
        MidiEvent::KeyReleased(_) => Store::Voices,
        MidiEvent::Knob(_, _) => Store::Params,
        _ => Store::Neither,
    }
}

/// Tells which store the dispatcher has to take for `event`.
pub fn route(event: MidiEvent) -> (store: Store)
    ensures
        store == store_of(event),
{
    match event {
        MidiEvent::KeyPressed(_, _) => Store::Voices,
        MidiEvent::KeyReleased(_) => Store::Voices,
        MidiEvent::Knob(_, _) => Store::Params,
        _ => Store::Neither,
    }
}

/// An event leaves every store but its own as it was: key events go to
/// the voices, knobs to the parameters, and buttons, the pitch wheel and
/// unknown messages change nothing at all.
pub proof fn event_touches_its_store_only(voices: Seq<Voice>, params: Params, event: MidiEvent)
    ensures
        store_of(event) == Store::Voices <==> is_key_event(event),
        store_of(event) == Store::Params <==> event is Knob,
        Params::is_setting(event) ==> store_of(event) == Store::Params,
        store_of(event) != Store::Voices ==> after_event(voices, event) == voices,
        store_of(event) != Store::Params ==> params.after_event(event) == params,
{
}

} // verus!
