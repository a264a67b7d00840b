use vstd::prelude::*;

verus! {

pub struct Model {
    pub name: String,
}

#[derive(Clone, Debug)]
pub enum Msg {
    Click,
}

pub fn init(name: String) -> (model: Model)
    ensures
        model.name == name,
{
    Model { name }
}

} // verus!
