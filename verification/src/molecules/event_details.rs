use crate::event::Event;
use vstd::prelude::*;

verus! {

pub struct Model {
    pub event: Event,
}

pub fn init(event: Event) -> (model: Model)
    ensures
        model.event == event,
{
    Model { event }
}

} // verus!
