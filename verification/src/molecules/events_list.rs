use crate::event::Event;
use vstd::prelude::*;

verus! {

pub struct Model {
    pub events: Vec<Event>,
}

pub fn init(events: Vec<Event>) -> (model: Model)
    ensures
        model.events == events,
{
    Model { events }
}

} // verus!
