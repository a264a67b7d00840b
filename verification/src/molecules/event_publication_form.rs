use crate::api::BackendApi;
use crate::app::Context;
use crate::atoms::{button, input};
use crate::orders::interface::IMyOrders;
use crate::orders::mapper::Mapper;
use crate::orders::my_orders::{if_resolved, issued_through, nothing_issued, MyOrders};
use vstd::future::FutureAdditionalSpecFns;
use vstd::prelude::*;

verus! {

pub struct Model {
    pub state: State,
    pub event_name: input::Model,
    pub publish_button: button::Model,
}

pub enum State {
    Typing,
    Publishing,
    Invalid(String),
}

pub enum Msg {
    Public(PublicMsg),
    Private(PrivateMsg),
}

pub enum PublicMsg {
    EventPublished,
}

pub enum PrivateMsg {
    EventName(input::Msg),
    PublishButton(button::Msg),
    PublishFailed(String),
}

/// What the form makes of the server's answer to a publication.
pub struct OnPublished;

impl Mapper<Result<(), String>, Msg> for OnPublished {
    open spec fn wf(&self) -> bool {
        true
    }

    open spec fn image(&self, answer: Result<(), String>) -> Msg {
        match answer {
            Ok(_) => Msg::Public(PublicMsg::EventPublished),
            Err(error) => Msg::Private(PrivateMsg::PublishFailed(error)),
        }
    }

    fn apply(&self, answer: Result<(), String>) -> (outer: Msg) {
        match answer {
            Ok(_) => Msg::Public(PublicMsg::EventPublished),
            Err(error) => Msg::Private(PrivateMsg::PublishFailed(error)),
        }
    }

    fn duplicate(&self) -> (copy: Self) {
        OnPublished
    }
}

/// Whether `model` is the form as it starts out: empty and ready for
/// typing.
pub open spec fn is_initial(model: Model) -> bool {
    &&& model.state is Typing
    &&& model.event_name.value@ == Seq::<char>::empty()
    &&& model.event_name.placeholder@ == "name"@
    &&& model.publish_button.name@ == "publish"@
}

/// An empty form, ready for typing.
pub fn init() -> (model: Model)
    ensures
        is_initial(model),
{
    Model {
        state: State::Typing,
        event_name: input::init("name".to_owned()),
        publish_button: button::init("publish".to_owned()),
    }
}

/// Whether the publish button is to be enabled.
pub fn is_form_ready_for_publishing(model: &Model) -> (ready: bool)
    ensures
        ready == (model.state is Typing && model.event_name.value@.len() > 0),
{
    match model.state {
        State::Typing => !model.event_name.value.as_str().is_empty(),
        State::Publishing => false,
        State::Invalid(_) => false,
    }
}

/// The name that `msg` makes the form `before` ask the server to publish,
/// if it makes it ask: a click does, on a form with a name that is being
/// typed.
pub open spec fn name_to_publish(before: Model, msg: PrivateMsg) -> Option<String> {
    if msg is PublishButton && before.state is Typing && before.event_name.value@.len() > 0 {
        Some(before.event_name.value)
    } else {
        None
    }
}

/// What the form does with `msg`, by the state it is in.
///
/// Typing changes the name, and brings an invalid form back to typing. A
/// click on the publish button counts only while typing: without a name
/// the form becomes invalid, with one it asks the server and waits. A
/// publication that failed makes the form invalid, with the reason.
pub fn update<
    BMs: 'static,
    B: IMyOrders<BMs>,
    T: Mapper<Msg, BMs> + 'static,
    K: BackendApi,
>(
    msg: PrivateMsg,
    model: &mut Model,
    context: &mut Context<K>,
    orders: &mut MyOrders<'_, Msg, BMs, B, T>,
)
    requires
        old(orders).wf(),
    ensures
        *final(final(orders).implementation) == *final(old(orders).implementation),
        *final(context) == *old(context),
        exists|issued: Seq<Msg>|
            {
                &&& #[trigger] issued_through(*final(orders), *old(orders), issued)
                &&& updated(*old(model), msg, *final(model), issued)
            },
        name_to_publish(*old(model), msg) matches Some(name) ==> exists|
            request: K::PublishEvent,
            resolved: bool,
        |
            {
                &&& call_ensures(K::publish_event, (&old(context).backend, name), request)
                &&& #[trigger] issued_through(
                    *final(orders),
                    *old(orders),
                    if_resolved(resolved, OnPublished.image(request@)),
                )
            },
{
    match model.state {
        State::Typing => update_typing(msg, model, context, orders),
        State::Publishing => update_publishing(msg, model, context, orders),
        State::Invalid(_) => update_invalid(msg, model, context, orders),
    }
}

/// The form `after` and the messages `issued` are what `msg` makes of the
/// form `before`.
pub open spec fn updated(before: Model, msg: PrivateMsg, after: Model, issued: Seq<Msg>) -> bool {
    &&& after.publish_button == before.publish_button
    &&& after.event_name.placeholder == before.event_name.placeholder
    &&& match msg {
        PrivateMsg::EventName(input::Msg::ValueChange(value)) => {
            &&& after.event_name.value == value
            &&& after.state == if before.state is Invalid {
                State::Typing
            } else {
                before.state
            }
            &&& issued == Seq::<Msg>::empty()
        },
        PrivateMsg::PublishButton(button::Msg::Click) => {
            &&& after.event_name.value == before.event_name.value
            &&& if before.state is Typing {
                if before.event_name.value@.len() == 0 {
                    &&& after.state matches State::Invalid(reason)
                    &&& reason@ == "The name is required"@
                    &&& issued == Seq::<Msg>::empty()
                } else {
                    &&& after.state is Publishing
                    &&& exists|answer: Result<(), String>, resolved: bool|
                        issued == #[trigger] if_resolved(resolved, OnPublished.image(answer))
                }
            } else {
                &&& after.state == before.state
                &&& issued == Seq::<Msg>::empty()
            }
        },
        PrivateMsg::PublishFailed(reason) => {
            &&& after.event_name.value == before.event_name.value
            &&& after.state == State::Invalid(reason)
            &&& issued == Seq::<Msg>::empty()
        },
    }
}

fn update_typing<
    BMs: 'static,
    B: IMyOrders<BMs>,
    T: Mapper<Msg, BMs> + 'static,
    K: BackendApi,
>(
    msg: PrivateMsg,
    model: &mut Model,
    context: &mut Context<K>,
    orders: &mut MyOrders<'_, Msg, BMs, B, T>,
)
    requires
        old(orders).wf(),
        old(model).state is Typing,
    ensures
        *final(final(orders).implementation) == *final(old(orders).implementation),
        *final(context) == *old(context),
        exists|issued: Seq<Msg>|
            {
                &&& #[trigger] issued_through(*final(orders), *old(orders), issued)
                &&& updated(*old(model), msg, *final(model), issued)
            },
        name_to_publish(*old(model), msg) matches Some(name) ==> exists|
            request: K::PublishEvent,
            resolved: bool,
        |
            {
                &&& call_ensures(K::publish_event, (&old(context).backend, name), request)
                &&& #[trigger] issued_through(
                    *final(orders),
                    *old(orders),
                    if_resolved(resolved, OnPublished.image(request@)),
                )
            },
{
    match msg {
        PrivateMsg::EventName(msg) => {
            model.event_name = input::update(&model.event_name, &msg);
        },
        PrivateMsg::PublishButton(button::Msg::Click) => {
            if model.event_name.value.as_str().is_empty() {
                model.state = State::Invalid("The name is required".to_owned());
            } else {
                publish_event(model, orders, &context.backend);
                model.state = State::Publishing;
                return ;
            }
        },
        PrivateMsg::PublishFailed(reason) => {
            model.state = State::Invalid(reason);
        },
    }
    proof {
        nothing_issued(*orders);
    }
}

fn update_publishing<
    BMs: 'static,
    B: IMyOrders<BMs>,
    T: Mapper<Msg, BMs> + 'static,
    K: BackendApi,
>(
    msg: PrivateMsg,
    model: &mut Model,
    context: &mut Context<K>,
    orders: &mut MyOrders<'_, Msg, BMs, B, T>,
)
    requires
        old(orders).wf(),
        old(model).state is Publishing,
    ensures
        *final(final(orders).implementation) == *final(old(orders).implementation),
        *final(context) == *old(context),
        exists|issued: Seq<Msg>|
            {
                &&& #[trigger] issued_through(*final(orders), *old(orders), issued)
                &&& updated(*old(model), msg, *final(model), issued)
            },
{
    match msg {
        PrivateMsg::EventName(msg) => {
            model.event_name = input::update(&model.event_name, &msg);
        },
        PrivateMsg::PublishButton(button::Msg::Click) => {},
        PrivateMsg::PublishFailed(reason) => {
            model.state = State::Invalid(reason);
        },
    }
    proof {
        nothing_issued(*orders);
    }
}

fn update_invalid<
    BMs: 'static,
    B: IMyOrders<BMs>,
    T: Mapper<Msg, BMs> + 'static,
    K: BackendApi,
>(
    msg: PrivateMsg,
    model: &mut Model,
    context: &mut Context<K>,
    orders: &mut MyOrders<'_, Msg, BMs, B, T>,
)
    requires
        old(orders).wf(),
        old(model).state is Invalid,
    ensures
        *final(final(orders).implementation) == *final(old(orders).implementation),
        *final(context) == *old(context),
        exists|issued: Seq<Msg>|
            {
                &&& #[trigger] issued_through(*final(orders), *old(orders), issued)
                &&& updated(*old(model), msg, *final(model), issued)
            },
{
    match msg {
        PrivateMsg::EventName(msg) => {
            model.state = State::Typing;
            model.event_name = input::update(&model.event_name, &msg);
        },
        PrivateMsg::PublishButton(button::Msg::Click) => {},
        PrivateMsg::PublishFailed(reason) => {
            model.state = State::Invalid(reason);
        },
    }
    proof {
        nothing_issued(*orders);
    }
}

/// Asks the server to publish an event under the name in the form.
fn publish_event<BMs: 'static, B: IMyOrders<BMs>, T: Mapper<Msg, BMs> + 'static, K: BackendApi>(
    model: &Model,
    orders: &mut MyOrders<'_, Msg, BMs, B, T>,
    backend: &K,
)
    requires
        old(orders).wf(),
    ensures
        *final(final(orders).implementation) == *final(old(orders).implementation),
        exists|request: K::PublishEvent, resolved: bool|
            {
                &&& call_ensures(K::publish_event, (backend, model.event_name.value), request)
                &&& #[trigger] issued_through(
                    *final(orders),
                    *old(orders),
                    if_resolved(resolved, OnPublished.image(request@)),
                )
            },
{
    let name = model.event_name.value.clone();
    let request = backend.publish_event(name);
    let resolved = orders.request(request, OnPublished);
}

} // verus!
