use crate::api::{and_then_get_event, BackendApi};
use crate::app::Context;
use crate::atoms::button;
use crate::event::{parse_id, parsed_id, Event, Id};
use crate::molecules::{event_details, login_bar};
use crate::orders::interface::IMyOrders;
use crate::orders::mapper::Mapper;
use crate::orders::my_orders::{
    if_resolved, issued_by_child, issued_through, nothing_issued, MyOrders,
};
use crate::url::Url;
use vstd::future::FutureAdditionalSpecFns;
use vstd::prelude::*;

verus! {

pub struct Model {
    pub state: State,
}

pub enum State {
    Loading,
    Loaded(Loaded),
    Failed(String),
}

pub struct Loaded {
    pub event: Event,
    pub event_details: event_details::Model,
    pub join_button: button::Model,
    pub login_bar: login_bar::Model,
}

pub enum Msg {
    OnGetEventResponse(Event),
    Error(String),
    JoinButton(button::Msg),
    LoginBar(login_bar::Msg),
}

/// What the page makes of the server's answer to a request for an event.
pub struct OnEvent;

impl Mapper<Result<Event, String>, Msg> for OnEvent {
    open spec fn wf(&self) -> bool {
        true
    }

    open spec fn image(&self, answer: Result<Event, String>) -> Msg {
        match answer {
            Ok(event) => Msg::OnGetEventResponse(event),
            Err(error) => Msg::Error(error),
        }
    }

    fn apply(&self, answer: Result<Event, String>) -> (outer: Msg) {
        match answer {
            Ok(event) => Msg::OnGetEventResponse(event),
            Err(error) => Msg::Error(error),
        }
    }

    fn duplicate(&self) -> (copy: Self) {
        OnEvent
    }
}

/// Wraps the messages of the login bar into messages of the page.
pub struct FromLoginBar;

impl Mapper<login_bar::Msg, Msg> for FromLoginBar {
    open spec fn wf(&self) -> bool {
        true
    }

    open spec fn image(&self, m: login_bar::Msg) -> Msg {
        Msg::LoginBar(m)
    }

    fn apply(&self, m: login_bar::Msg) -> (outer: Msg) {
        Msg::LoginBar(m)
    }

    fn duplicate(&self) -> (copy: Self) {
        FromLoginBar
    }
}

/// What the next part of a path says about the event to show: the
/// identifier it reads as, or why there is none.
pub open spec fn id_in(parts: Seq<Seq<char>>, consumed: nat) -> Result<Id, Seq<char>> {
    if consumed < parts.len() {
        parsed_id(parts[consumed as int])
    } else {
        Err("expected an ID in the URL"@)
    }
}

/// Reads the identifier of the event from the next part of `url`.
pub(crate) fn id_from_url(url: &mut Url) -> (id: Result<Id, String>)
    ensures
        final(url).parts() == old(url).parts(),
        final(url).consumed() == if old(url).consumed() < old(url).parts().len() {
            old(url).consumed() + 1
        } else {
            old(url).consumed()
        },
        match id {
            Ok(value) => id_in(old(url).parts(), old(url).consumed()) == Ok::<Id, Seq<char>>(
                value,
            ),
            Err(reason) => id_in(old(url).parts(), old(url).consumed()) == Err::<Id, Seq<char>>(
                reason@,
            ),
        },
{
    match url.next_path_part() {
        Some(part) => parse_id(part),
        None => Err("expected an ID in the URL".to_owned()),
    }
}

impl Loaded {
    /// Whether this is the page as it starts out once `event` has arrived,
    /// for the user `username`.
    pub open spec fn shows(self, event: Event, username: Option<String>) -> bool {
        &&& self.event@ == event@
        &&& self.event_details.event == event
        &&& self.join_button.name@ == "join"@
        &&& login_bar::shows(self.login_bar, username)
    }

    /// The page once `event` has arrived.
    pub fn new<K>(event: Event, context: &Context<K>) -> (loaded: Loaded)
        ensures
            loaded.shows(event, context.username),
    {
        let username = match &context.username {
            Some(name) => Some(name.clone()),
            None => None,
        };
        Loaded {
            event: event.duplicate(),
            event_details: event_details::init(event),
            join_button: button::init("join".to_owned()),
            login_bar: login_bar::init(username),
        }
    }

    /// Whether the join button is to be enabled: the user of the server's
    /// one token is not among the participants yet.
    pub fn can_join(&self) -> (enabled: bool)
        ensures
            enabled == !self.event@.participants.contains("valid_user"@),
    {
        !self.event.has_participant("valid_user")
    }
}

/// Opens the page of the event that the next part of `url` names: it asks
/// for the event and waits, or fails if the part names none.
pub fn init<
    BMs: 'static,
    B: IMyOrders<BMs>,
    T: Mapper<Msg, BMs> + 'static,
    K: BackendApi + Clone + 'static,
>(url: &mut Url, context: &Context<K>, orders: &mut MyOrders<'_, Msg, BMs, B, T>) -> (model: Model)
    requires
        old(orders).wf(),
    ensures
        final(url).parts() == old(url).parts(),
        *final(final(orders).implementation) == *final(old(orders).implementation),
        match id_in(old(url).parts(), old(url).consumed()) {
            Ok(id) => {
                &&& model.state is Loading
                &&& exists|request: K::GetEvent, resolved: bool|
                    {
                        &&& call_ensures(K::get_event, (&context.backend, id), request)
                        &&& #[trigger] issued_through(
                            *final(orders),
                            *old(orders),
                            if_resolved(resolved, OnEvent.image(request@)),
                        )
                    }
            },
            Err(reason) => {
                &&& model.state matches State::Failed(shown) && shown@ == reason
                &&& issued_through(*final(orders), *old(orders), Seq::<Msg>::empty())
            },
        },
{
    match id_from_url(url) {
        Ok(id) => {
            request_event(id, orders, &context.backend);
            Model { state: State::Loading }
        },
        Err(err) => {
            proof {
                nothing_issued(*orders);
            }
            Model { state: State::Failed(err) }
        },
    }
}

/// The page `after`, its context and the messages `issued` are what `msg`
/// makes of the page `before`.
///
/// An event that arrives is shown, unless the page has failed. An error
/// makes the page fail. A click on the join button counts only on the
/// loaded page: it asks the server to add the user and then for the event
/// again. A message of the bar goes to the bar of the loaded page, whose
/// own messages come back wrapped.
pub open spec fn updated<K>(
    before: Model,
    context_before: Context<K>,
    msg: Msg,
    after: Model,
    context_after: Context<K>,
    issued: Seq<Msg>,
) -> bool {
    &&& context_after.backend == context_before.backend
    &&& match msg {
        Msg::OnGetEventResponse(event) => {
            &&& context_after == context_before
            &&& issued == Seq::<Msg>::empty()
            &&& if before.state is Failed {
                after == before
            } else {
                &&& after.state matches State::Loaded(loaded)
                &&& loaded.shows(event, context_before.username)
            }
        },
        Msg::Error(error) => {
            &&& context_after == context_before
            &&& issued == Seq::<Msg>::empty()
            &&& after.state == State::Failed(error)
        },
        Msg::JoinButton(button::Msg::Click) => {
            &&& context_after == context_before
            &&& after == before
            &&& if before.state is Loaded {
                exists|answer: Result<Event, String>, resolved: bool|
                    issued == #[trigger] if_resolved(resolved, OnEvent.image(answer))
            } else {
                issued == Seq::<Msg>::empty()
            }
        },
        Msg::LoginBar(bar_msg) => {
            match (before.state, bar_msg) {
                (State::Loaded(shown), login_bar::Msg::Private(private)) => {
                    &&& after.state matches State::Loaded(loaded)
                    &&& loaded.event == shown.event
                    &&& loaded.event_details == shown.event_details
                    &&& loaded.join_button == shown.join_button
                    &&& context_after.username == if private is SignedOut {
                        None
                    } else {
                        context_before.username
                    }
                    &&& exists|from_bar: Seq<login_bar::Msg>|
                        {
                            &&& #[trigger] login_bar::updated(
                                shown.login_bar,
                                private,
                                loaded.login_bar,
                                from_bar,
                            )
                            &&& issued == from_bar.map_values(
                                |m: login_bar::Msg| FromLoginBar.image(m),
                            )
                        }
                },
                _ => {
                    &&& after == before
                    &&& context_after == context_before
                    &&& issued == Seq::<Msg>::empty()
                },
            }
        },
    }
}

/// The event that `msg` makes the page `before` ask the server to add the
/// user to, if it makes it ask: a click on the join button of the event
/// that is shown.
pub open spec fn event_to_join(before: Model, msg: Msg) -> Option<Id> {
    match (before.state, msg) {
        (State::Loaded(loaded), Msg::JoinButton(_)) => Some(loaded.event@.id),
        _ => None,
    }
}

/// What the page does with `msg`.
pub fn update<
    BMs: 'static,
    B: IMyOrders<BMs>,
    T: Mapper<Msg, BMs> + 'static,
    K: BackendApi + Clone + 'static,
>(
    msg: Msg,
    model: &mut Model,
    context: &mut Context<K>,
    orders: &mut MyOrders<'_, Msg, BMs, B, T>,
)
    requires
        old(orders).wf(),
    ensures
        *final(final(orders).implementation) == *final(old(orders).implementation),
        exists|issued: Seq<Msg>|
            {
                &&& #[trigger] issued_through(*final(orders), *old(orders), issued)
                &&& updated(
                    *old(model),
                    *old(context),
                    msg,
                    *final(model),
                    *final(context),
                    issued,
                )
            },
        event_to_join(*old(model), msg) matches Some(id) ==> exists|
            joined: K::JoinEvent,
            answer: Result<Event, String>,
            resolved: bool,
        |
            {
                &&& #[trigger] call_ensures(K::join_event, (&old(context).backend, id), joined)
                &&& match joined@ {
                    Err(error) => answer == Err::<Event, String>(error),
                    Ok(_) => exists|server: K, request: K::GetEvent| #[trigger]
                        call_ensures(K::get_event, (&server, id), request) && answer == request@,
                }
                &&& #[trigger] issued_through(
                    *final(orders),
                    *old(orders),
                    if_resolved(resolved, OnEvent.image(answer)),
                )
            },
{
    match msg {
        Msg::OnGetEventResponse(event) => {
            on_get_event_response_msg(event, model, context);
            proof {
                nothing_issued(*orders);
            }
        },
        Msg::Error(err) => {
            model.state = State::Failed(err);
            proof {
                nothing_issued(*orders);
            }
        },
        Msg::JoinButton(msg) => join_button_msg(msg, model, context, orders),
        Msg::LoginBar(msg) => login_bar_msg(msg, model, context, orders),
    }
}

fn on_get_event_response_msg<K>(event: Event, model: &mut Model, context: &Context<K>)
    ensures
        updated(
            *old(model),
            *context,
            Msg::OnGetEventResponse(event),
            *final(model),
            *context,
            Seq::<Msg>::empty(),
        ),
{
    match &model.state {
        State::Loading => {
            model.state = State::Loaded(Loaded::new(event, context));
        },
        State::Loaded(_) => {
            model.state = State::Loaded(Loaded::new(event, context));
        },
        State::Failed(_) => {},
    }
}

fn join_button_msg<
    BMs: 'static,
    B: IMyOrders<BMs>,
    T: Mapper<Msg, BMs> + 'static,
    K: BackendApi + Clone + 'static,
>(
    msg: button::Msg,
    model: &mut Model,
    context: &mut Context<K>,
    orders: &mut MyOrders<'_, Msg, BMs, B, T>,
)
    requires
        old(orders).wf(),
    ensures
        *final(final(orders).implementation) == *final(old(orders).implementation),
        exists|issued: Seq<Msg>|
            {
                &&& #[trigger] issued_through(*final(orders), *old(orders), issued)
                &&& updated(
                    *old(model),
                    *old(context),
                    Msg::JoinButton(msg),
                    *final(model),
                    *final(context),
                    issued,
                )
            },
        event_to_join(*old(model), Msg::JoinButton(msg)) matches Some(id) ==> exists|
            joined: K::JoinEvent,
            answer: Result<Event, String>,
            resolved: bool,
        |
            {
                &&& #[trigger] call_ensures(K::join_event, (&old(context).backend, id), joined)
                &&& match joined@ {
                    Err(error) => answer == Err::<Event, String>(error),
                    Ok(_) => exists|server: K, request: K::GetEvent| #[trigger]
                        call_ensures(K::get_event, (&server, id), request) && answer == request@,
                }
                &&& #[trigger] issued_through(
                    *final(orders),
                    *old(orders),
                    if_resolved(resolved, OnEvent.image(answer)),
                )
            },
{
    match &model.state {
        State::Loaded(loaded) => match msg {
            button::Msg::Click => {
                join_event(loaded.event.id(), orders, &context.backend);
            },
        },
        _ => {
            proof {
                nothing_issued(*orders);
            }
        },
    }
}

fn login_bar_msg<BMs: 'static, B: IMyOrders<BMs>, T: Mapper<Msg, BMs> + 'static, K>(
    msg: login_bar::Msg,
    model: &mut Model,
    context: &mut Context<K>,
    orders: &mut MyOrders<'_, Msg, BMs, B, T>,
)
    requires
        old(orders).wf(),
    ensures
        *final(final(orders).implementation) == *final(old(orders).implementation),
        exists|issued: Seq<Msg>|
            {
                &&& #[trigger] issued_through(*final(orders), *old(orders), issued)
                &&& updated(
                    *old(model),
                    *old(context),
                    Msg::LoginBar(msg),
                    *final(model),
                    *final(context),
                    issued,
                )
            },
{
    match &mut model.state {
        State::Loaded(loaded) => match msg {
            login_bar::Msg::Public(msg) => match msg {
                login_bar::PublicMsg::SignedOut => {
                    proof {
                        nothing_issued(*orders);
                    }
                },
            },
            login_bar::Msg::Private(msg) => {
                let ghost parent = *orders;
                let ghost shown = loaded.login_bar;
                let mut child = orders.proxy(FromLoginBar);
                let ghost child_before = child;
                login_bar::update(msg, &mut loaded.login_bar, context, &mut child);
                let ghost child_after = child;
                proof {
                    let from_bar = choose|from_bar: Seq<login_bar::Msg>|
                        {
                            &&& #[trigger] issued_through(child_after, child_before, from_bar)
                            &&& login_bar::updated(shown, msg, loaded.login_bar, from_bar)
                        };
                    issued_by_child(*orders, parent, child_after, child_before, from_bar);
                }
            },
        },
        _ => {
            proof {
                nothing_issued(*orders);
            }
        },
    }
}

/// Asks the server for the event `id`.
pub fn request_event<
    BMs: 'static,
    B: IMyOrders<BMs>,
    T: Mapper<Msg, BMs> + 'static,
    K: BackendApi,
>(id: Id, orders: &mut MyOrders<'_, Msg, BMs, B, T>, backend: &K)
    requires
        old(orders).wf(),
    ensures
        *final(final(orders).implementation) == *final(old(orders).implementation),
        exists|request: K::GetEvent, resolved: bool|
            {
                &&& call_ensures(K::get_event, (backend, id), request)
                &&& #[trigger] issued_through(
                    *final(orders),
                    *old(orders),
                    if_resolved(resolved, OnEvent.image(request@)),
                )
            },
{
    let request = backend.get_event(id);
    let resolved = orders.request(request, OnEvent);
}

/// Asks the server to add the user to the event `id` and then, unless that
/// failed, for the event as it is afterwards.
pub fn join_event<
    BMs: 'static,
    B: IMyOrders<BMs>,
    T: Mapper<Msg, BMs> + 'static,
    K: BackendApi + Clone + 'static,
>(id: Id, orders: &mut MyOrders<'_, Msg, BMs, B, T>, backend: &K)
    requires
        old(orders).wf(),
    ensures
        *final(final(orders).implementation) == *final(old(orders).implementation),
        exists|joined: K::JoinEvent, answer: Result<Event, String>, resolved: bool|
            {
                &&& #[trigger] call_ensures(K::join_event, (backend, id), joined)
                &&& match joined@ {
                    Err(error) => answer == Err::<Event, String>(error),
                    Ok(_) => exists|server: K, request: K::GetEvent| #[trigger]
                        call_ensures(K::get_event, (&server, id), request) && answer == request@,
                }
                &&& #[trigger] issued_through(
                    *final(orders),
                    *old(orders),
                    if_resolved(resolved, OnEvent.image(answer)),
                )
            },
{
    let joined = backend.join_event(id);
    let request = and_then_get_event(joined, backend.clone(), id);
    let resolved = orders.request(request, OnEvent);
}

} // verus!
