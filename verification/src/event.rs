//! Event objects of the host API, as far as the engine creates them.

use crate::handle::{HandleImpl, HandleObject, HandleValue};
use vstd::prelude::*;
use vstd::string::*;

verus! {

/// An event object as it was created. Nothing waits on events or signals
/// them yet, so an event keeps the state it was created with.
pub struct Event {
    name: String,
    manual_reset: bool,
    signaled: bool,
}

impl Event {
    /// The name the event was created under.
    pub closed spec fn name(&self) -> Seq<char> {
        self.name@
    }

    /// Whether the event stays signaled until it is reset by hand.
    pub closed spec fn manual_reset(&self) -> bool {
        self.manual_reset
    }

    /// Whether the event is signaled.
    pub closed spec fn signaled(&self) -> bool {
        self.signaled
    }

    /// Creates an event with the given name and initial state.
    pub fn new(name: &str, manual_reset: bool, initial_state: bool) -> (event: Event)
        ensures
            event.name() == name@,
            event.manual_reset() == manual_reset,
            event.signaled() == initial_state,
    {
        Event { name: String::from_str(name), manual_reset, signaled: initial_state }
    }

    /// The name the event was created under.
    pub fn get_name(&self) -> (name: &str)
        ensures
            name@ == self.name(),
    {
        self.name.as_str()
    }

    /// Whether the event stays signaled until it is reset by hand.
    pub fn is_manual_reset(&self) -> (r: bool)
        ensures
            r == self.manual_reset(),
    {
        self.manual_reset
    }

    /// Whether the event is signaled.
    pub fn is_signaled(&self) -> (r: bool)
        ensures
            r == self.signaled(),
    {
        self.signaled
    }
}

impl HandleImpl for Event {
    open spec fn erased(self) -> HandleValue {
        HandleValue::Event(self)
    }

    open spec fn recovered(value: HandleValue) -> Option<Self> {
        match value {
            HandleValue::Event(event) => Some(event),
            _ => None,
        }
    }

    proof fn lemma_erased_recovered(self) {
    }

    proof fn lemma_recovered_erased(value: HandleValue) {
    }

    fn into_object(self) -> (obj: HandleObject) {
        HandleObject::new(HandleValue::Event(self))
    }

    fn downcast(obj: &HandleObject) -> (found: Option<&Self>) {
        match obj.value() {
            HandleValue::Event(event) => Some(event),
            _ => None,
        }
    }
}

} // verus!
