use vstd::prelude::*;

verus! {

pub struct Model {
    pub placeholder: String,
    pub value: String,
}

#[derive(Clone, Debug)]
pub enum Msg {
    ValueChange(String),
}

/// An empty input that shows `placeholder`.
pub fn init(placeholder: String) -> (model: Model)
    ensures
        model.placeholder == placeholder,
        model.value@ == Seq::<char>::empty(),
{
    Model { placeholder, value: String::new() }
}

/// The input after `msg`: the value is the one that was typed, the
/// placeholder stays.
pub fn update(model: &Model, msg: &Msg) -> (next: Model)
    ensures
        next.placeholder == model.placeholder,
        msg matches Msg::ValueChange(value) && next.value == value,
{
    match msg {
        Msg::ValueChange(new_value) => Model {
            placeholder: model.placeholder.clone(),
            value: new_value.clone(),
        },
    }
}

} // verus!
