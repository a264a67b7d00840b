use crate::api::BackendApi;
use crate::orders::interface::IMyOrders;
use crate::orders::mapper::Mapper;
use crate::orders::my_orders::{if_resolved, issued_through, nothing_issued, MyOrders};
use vstd::future::FutureAdditionalSpecFns;
use vstd::prelude::*;

verus! {

pub enum Model {
    Empty,
    Typing(Form),
    Publishing(Form),
    Invalid((Option<Form>, String)),
}

pub struct Form {
    pub event_name: String,
}

pub enum Msg {
    PublishEventNameChange(String),
    PublishEventClick,
    OnEventPublished,
    PublishFailed(String),
}

/// What the form makes of the server's answer to a publication.
pub struct OnPublished;

impl Mapper<Result<(), String>, Msg> for OnPublished {
    open spec fn wf(&self) -> bool {
        true
    }

    open spec fn image(&self, answer: Result<(), String>) -> Msg {
        match answer {
            Ok(_) => Msg::OnEventPublished,
            Err(error) => Msg::PublishFailed(error),
        }
    }

    fn apply(&self, answer: Result<(), String>) -> (outer: Msg) {
        match answer {
            Ok(_) => Msg::OnEventPublished,
            Err(error) => Msg::PublishFailed(error),
        }
    }

    fn duplicate(&self) -> (copy: Self) {
        OnPublished
    }
}

impl Form {
    pub fn duplicate(&self) -> (copy: Form)
        ensures
            copy == *self,
    {
        Form { event_name: self.event_name.clone() }
    }
}

impl Model {
    /// What has been typed into the form, if anything has.
    pub open spec fn contents(self) -> Option<Form> {
        match self {
            Model::Empty => None,
            Model::Typing(contents) => Some(contents),
            Model::Publishing(contents) => Some(contents),
            Model::Invalid((contents, _)) => contents,
        }
    }

    pub fn duplicate(&self) -> (copy: Model)
        ensures
            copy == *self,
    {
        match self {
            Model::Empty => Model::Empty,
            Model::Typing(contents) => Model::Typing(contents.duplicate()),
            Model::Publishing(contents) => Model::Publishing(contents.duplicate()),
            Model::Invalid((contents, reason)) => {
                let contents = match contents {
                    Some(contents) => Some(contents.duplicate()),
                    None => None,
                };
                Model::Invalid((contents, reason.clone()))
            },
        }
    }
}

/// Whether the publish button is to be enabled: only while typing.
pub fn is_form_ready_for_publishing(form: &Model) -> (ready: bool)
    ensures
        ready == (form is Typing),
{
    match form {
        Model::Empty => false,
        Model::Typing(_) => true,
        Model::Publishing(_) => false,
        Model::Invalid(_) => false,
    }
}

/// Asks the server to publish an event under the name in the form.
fn publish_event<BMs: 'static, B: IMyOrders<BMs>, T: Mapper<Msg, BMs> + 'static, K: BackendApi>(
    contents: &Form,
    orders: &mut MyOrders<'_, Msg, BMs, B, T>,
    backend: &K,
)
    requires
        old(orders).wf(),
    ensures
        *final(final(orders).implementation) == *final(old(orders).implementation),
        exists|request: K::PublishEvent, resolved: bool|
            {
                &&& call_ensures(K::publish_event, (backend, contents.event_name), request)
                &&& #[trigger] issued_through(
                    *final(orders),
                    *old(orders),
                    if_resolved(resolved, OnPublished.image(request@)),
                )
            },
{
    let name = contents.event_name.clone();
    let request = backend.publish_event(name);
    let resolved = orders.request(request, OnPublished);
}

/// The form `after` and the messages `issued` are what `msg` makes of the
/// form `before`.
///
/// A name that is typed makes the form one that is being typed, or keeps
/// it publishing; typed into an invalid form that never held a name, it
/// empties the form. A click on an empty form or on a form without a name
/// makes it invalid; on a form with a name, typed or publishing, it asks
/// the server and waits; on an invalid form it goes back to what was
/// typed. A published event empties the form. A publication that failed
/// makes the form invalid, with the reason.
pub open spec fn updated(before: Model, msg: Msg, after: Model, issued: Seq<Msg>) -> bool {
    let asks = exists|answer: Result<(), String>, resolved: bool|
        issued == #[trigger] if_resolved(resolved, OnPublished.image(answer));
    let silent = issued == Seq::<Msg>::empty();
    match (before, msg) {
        (_, Msg::PublishFailed(reason)) => {
            &&& after == Model::Invalid((before.contents(), reason))
            &&& silent
        },
        (Model::Empty, Msg::PublishEventNameChange(name)) => {
            &&& after == Model::Typing(Form { event_name: name })
            &&& silent
        },
        (Model::Empty, Msg::PublishEventClick) => {
            &&& after matches Model::Invalid((None, reason))
            &&& reason@ == "The name is required"@
            &&& silent
        },
        (Model::Typing(_), Msg::PublishEventNameChange(name)) => {
            &&& after == Model::Typing(Form { event_name: name })
            &&& silent
        },
        (Model::Typing(contents), Msg::PublishEventClick) => {
            if contents.event_name@.len() == 0 {
                &&& after matches Model::Invalid((Some(kept), reason))
                &&& kept == contents
                &&& reason@ == "The name is required"@
                &&& silent
            } else {
                &&& after == Model::Publishing(contents)
                &&& asks
            }
        },
        (Model::Publishing(_), Msg::PublishEventNameChange(name)) => {
            &&& after == Model::Publishing(Form { event_name: name })
            &&& silent
        },
        (Model::Publishing(contents), Msg::PublishEventClick) => {
            &&& after == Model::Publishing(contents)
            &&& asks
        },
        (Model::Invalid((contents, _)), _) => {
            &&& after == after_invalid(contents, msg)
            &&& silent
        },
        _ => {
            &&& after == Model::Empty
            &&& silent
        },
    }
}

/// What `msg` makes of an invalid form that holds `contents`.
pub open spec fn after_invalid(contents: Option<Form>, msg: Msg) -> Model {
    match (contents, msg) {
        (Some(_), Msg::PublishEventNameChange(name)) => Model::Typing(Form { event_name: name }),
        (Some(typed), Msg::PublishEventClick) => Model::Typing(typed),
        _ => Model::Empty,
    }
}

/// The name that `msg` makes the form ask the server to publish, if it
/// makes it ask: a click does, on a form with a name that is being typed
/// or published.
pub open spec fn name_to_publish(before: Model, msg: Msg) -> Option<String> {
    match (before, msg) {
        (Model::Typing(contents), Msg::PublishEventClick) => if contents.event_name@.len() == 0 {
            None
        } else {
            Some(contents.event_name)
        },
        (Model::Publishing(contents), Msg::PublishEventClick) => Some(contents.event_name),
        _ => None,
    }
}

/// What the form does with `msg`, by the state it is in. It never fails.
pub fn update<BMs: 'static, B: IMyOrders<BMs>, T: Mapper<Msg, BMs> + 'static, K: BackendApi>(
    msg: Msg,
    form: &Model,
    orders: &mut MyOrders<'_, Msg, BMs, B, T>,
    backend: &K,
) -> (next: Result<Model, String>)
    requires
        old(orders).wf(),
    ensures
        *final(final(orders).implementation) == *final(old(orders).implementation),
        exists|issued: Seq<Msg>|
            {
                &&& #[trigger] issued_through(*final(orders), *old(orders), issued)
                &&& next matches Ok(after) && updated(*form, msg, after, issued)
            },
        name_to_publish(*form, msg) matches Some(name) ==> exists|
            request: K::PublishEvent,
            resolved: bool,
        |
            {
                &&& call_ensures(K::publish_event, (backend, name), request)
                &&& #[trigger] issued_through(
                    *final(orders),
                    *old(orders),
                    if_resolved(resolved, OnPublished.image(request@)),
                )
            },
{
    if let Msg::PublishFailed(reason) = msg {
        let contents = match form {
            Model::Empty => None,
            Model::Typing(contents) => Some(contents.duplicate()),
            Model::Publishing(contents) => Some(contents.duplicate()),
            Model::Invalid((contents, _)) => match contents {
                Some(contents) => Some(contents.duplicate()),
                None => None,
            },
        };
        proof {
            nothing_issued(*orders);
        }
        return Ok(Model::Invalid((contents, reason)));
    }
    match form {
        Model::Empty => {
            proof {
                nothing_issued(*orders);
            }
            update_empty(msg)
        },
        Model::Typing(contents) => update_typing(msg, contents, orders, backend),
        Model::Publishing(contents) => update_publishing(msg, contents, orders, backend),
        Model::Invalid((contents, _)) => {
            proof {
                nothing_issued(*orders);
            }
            update_invalid(msg, contents)
        },
    }
}

fn update_empty(msg: Msg) -> (next: Result<Model, String>)
    requires
        !(msg is PublishFailed),
    ensures
        next matches Ok(after) && updated(Model::Empty, msg, after, Seq::<Msg>::empty()),
{
    match msg {
        Msg::PublishEventNameChange(name) => Ok(Model::Typing(Form { event_name: name })),
        Msg::PublishEventClick => Ok(Model::Invalid((None, "The name is required".to_owned()))),
        _ => Ok(Model::Empty),
    }
}

fn update_typing<BMs: 'static, B: IMyOrders<BMs>, T: Mapper<Msg, BMs> + 'static, K: BackendApi>(
    msg: Msg,
    contents: &Form,
    orders: &mut MyOrders<'_, Msg, BMs, B, T>,
    backend: &K,
) -> (next: Result<Model, String>)
    requires
        old(orders).wf(),
        !(msg is PublishFailed),
    ensures
        *final(final(orders).implementation) == *final(old(orders).implementation),
        exists|issued: Seq<Msg>|
            {
                &&& #[trigger] issued_through(*final(orders), *old(orders), issued)
                &&& next matches Ok(after) && updated(Model::Typing(*contents), msg, after, issued)
            },
        name_to_publish(Model::Typing(*contents), msg) matches Some(name) ==> exists|
            request: K::PublishEvent,
            resolved: bool,
        |
            {
                &&& call_ensures(K::publish_event, (backend, name), request)
                &&& #[trigger] issued_through(
                    *final(orders),
                    *old(orders),
                    if_resolved(resolved, OnPublished.image(request@)),
                )
            },
{
    match msg {
        Msg::PublishEventNameChange(name) => {
            proof {
                nothing_issued(*orders);
            }
            Ok(Model::Typing(Form { event_name: name }))
        },
        Msg::PublishEventClick => {
            if contents.event_name.as_str().is_empty() {
                proof {
                    nothing_issued(*orders);
                }
                Ok(Model::Invalid((Some(contents.duplicate()), "The name is required".to_owned())))
            } else {
                publish_event(contents, orders, backend);
                Ok(Model::Publishing(contents.duplicate()))
            }
        },
        _ => {
            proof {
                nothing_issued(*orders);
            }
            Ok(Model::Empty)
        },
    }
}

fn update_publishing<
    BMs: 'static,
    B: IMyOrders<BMs>,
    T: Mapper<Msg, BMs> + 'static,
    K: BackendApi,
>(
    msg: Msg,
    contents: &Form,
    orders: &mut MyOrders<'_, Msg, BMs, B, T>,
    backend: &K,
) -> (next: Result<Model, String>)
    requires
        old(orders).wf(),
        !(msg is PublishFailed),
    ensures
        *final(final(orders).implementation) == *final(old(orders).implementation),
        exists|issued: Seq<Msg>|
            {
                &&& #[trigger] issued_through(*final(orders), *old(orders), issued)
                &&& next matches Ok(after) && updated(
                    Model::Publishing(*contents),
                    msg,
                    after,
                    issued,
                )
            },
        name_to_publish(Model::Publishing(*contents), msg) matches Some(name) ==> exists|
            request: K::PublishEvent,
            resolved: bool,
        |
            {
                &&& call_ensures(K::publish_event, (backend, name), request)
                &&& #[trigger] issued_through(
                    *final(orders),
                    *old(orders),
                    if_resolved(resolved, OnPublished.image(request@)),
                )
            },
{
    match msg {
        Msg::PublishEventNameChange(name) => {
            proof {
                nothing_issued(*orders);
            }
            Ok(Model::Publishing(Form { event_name: name }))
        },
        Msg::PublishEventClick => {
            publish_event(contents, orders, backend);
            Ok(Model::Publishing(contents.duplicate()))
        },
        _ => {
            proof {
                nothing_issued(*orders);
            }
            Ok(Model::Empty)
        },
    }
}

fn update_invalid(msg: Msg, maybe_contents: &Option<Form>) -> (next: Result<Model, String>)
    requires
        !(msg is PublishFailed),
    ensures
        next == Ok::<Model, String>(after_invalid(*maybe_contents, msg)),
{
    match maybe_contents {
        Some(contents) => match msg {
            Msg::PublishEventNameChange(name) => Ok(Model::Typing(Form { event_name: name })),
            Msg::PublishEventClick => Ok(Model::Typing(contents.duplicate())),
            _ => Ok(Model::Empty),
        },
        None => Ok(Model::Empty),
    }
}

} // verus!
