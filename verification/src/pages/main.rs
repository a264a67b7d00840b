use crate::api::BackendApi;
use crate::app::Context;
use crate::event::Event;
use crate::molecules::{event_publication_form, events_list, login_bar};
use crate::orders::interface::IMyOrders;
use crate::orders::mapper::Mapper;
use crate::orders::my_orders::{
    if_resolved, issued_by_child, issued_through, nothing_issued, MyOrders,
};
use crate::url::Url;
use vstd::future::FutureAdditionalSpecFns;
use vstd::prelude::*;

verus! {

pub struct Model {
    pub state: State,
}

pub enum State {
    Loading,
    Loaded(Loaded),
    Failed(String),
}

pub struct Loaded {
    pub event_list: events_list::Model,
    pub event_publication_form: event_publication_form::Model,
    pub login_bar: login_bar::Model,
}

pub enum Msg {
    OnGetEventsResponse(Vec<Event>),
    EventPublication(event_publication_form::Msg),
    Error(String),
    LoginBar(login_bar::Msg),
}

/// What the page makes of the server's answer to a request for all events.
pub struct OnEvents;

impl Mapper<Result<Vec<Event>, String>, Msg> for OnEvents {
    open spec fn wf(&self) -> bool {
        true
    }

    open spec fn image(&self, answer: Result<Vec<Event>, String>) -> Msg {
        match answer {
            Ok(events) => Msg::OnGetEventsResponse(events),
            Err(error) => Msg::Error(error),
        }
    }

    fn apply(&self, answer: Result<Vec<Event>, String>) -> (outer: Msg) {
        match answer {
            Ok(events) => Msg::OnGetEventsResponse(events),
            Err(error) => Msg::Error(error),
        }
    }

    fn duplicate(&self) -> (copy: Self) {
        OnEvents
    }
}

/// Wraps the messages of the publication form into messages of the page.
pub struct FromPublication;

impl Mapper<event_publication_form::Msg, Msg> for FromPublication {
    open spec fn wf(&self) -> bool {
        true
    }

    open spec fn image(&self, m: event_publication_form::Msg) -> Msg {
        Msg::EventPublication(m)
    }

    fn apply(&self, m: event_publication_form::Msg) -> (outer: Msg) {
        Msg::EventPublication(m)
    }

    fn duplicate(&self) -> (copy: Self) {
        FromPublication
    }
}

/// Wraps the messages of the login bar into messages of the page.
pub struct FromLoginBar;

impl Mapper<login_bar::Msg, Msg> for FromLoginBar {
    open spec fn wf(&self) -> bool {
        true
    }

    open spec fn image(&self, m: login_bar::Msg) -> Msg {
        Msg::LoginBar(m)
    }

    fn apply(&self, m: login_bar::Msg) -> (outer: Msg) {
        Msg::LoginBar(m)
    }

    fn duplicate(&self) -> (copy: Self) {
        FromLoginBar
    }
}

impl Loaded {
    /// The page once `events` have arrived: the list shows them, the form
    /// is empty, and the bar shows the user of `context`, if there is one.
    pub fn new<K>(events: Vec<Event>, context: &Context<K>) -> (loaded: Loaded)
        ensures
            loaded.event_list.events == events,
            event_publication_form::is_initial(loaded.event_publication_form),
            login_bar::shows(loaded.login_bar, context.username),
    {
        let username = match &context.username {
            Some(name) => Some(name.clone()),
            None => None,
        };
        Loaded {
            event_list: events_list::init(events),
            event_publication_form: event_publication_form::init(),
            login_bar: login_bar::init(username),
        }
    }
}

/// Opens the page: it asks for all events and waits for them.
pub fn init<BMs: 'static, B: IMyOrders<BMs>, T: Mapper<Msg, BMs> + 'static, K: BackendApi>(
    url: &mut Url,
    context: &Context<K>,
    orders: &mut MyOrders<'_, Msg, BMs, B, T>,
) -> (model: Model)
    requires
        old(orders).wf(),
    ensures
        model.state is Loading,
        *final(url) == *old(url),
        *final(final(orders).implementation) == *final(old(orders).implementation),
        exists|request: K::GetEvents, resolved: bool|
            {
                &&& call_ensures(K::get_events, (&context.backend,), request)
                &&& #[trigger] issued_through(
                    *final(orders),
                    *old(orders),
                    if_resolved(resolved, OnEvents.image(request@)),
                )
            },
{
    request_events(orders, &context.backend);
    Model { state: State::Loading }
}

/// The page `after`, its context and the messages `issued` are what `msg`
/// makes of the page `before`.
///
/// Events that arrive are shown, unless the page has failed. An error makes
/// the page fail. A message of the form or of the bar counts only on the
/// loaded page: a published event makes the page ask for all events again
/// and empty the form, and every other message goes to the part that it
/// belongs to, whose own messages come back wrapped.
pub open spec fn updated<K>(
    before: Model,
    context_before: Context<K>,
    msg: Msg,
    after: Model,
    context_after: Context<K>,
    issued: Seq<Msg>,
) -> bool {
    &&& context_after.backend == context_before.backend
    &&& match msg {
        Msg::OnGetEventsResponse(events) => {
            &&& context_after == context_before
            &&& issued == Seq::<Msg>::empty()
            &&& match before.state {
                State::Loading => {
                    &&& after.state matches State::Loaded(loaded)
                    &&& loaded.event_list.events == events
                    &&& event_publication_form::is_initial(loaded.event_publication_form)
                    &&& login_bar::shows(loaded.login_bar, context_before.username)
                },
                State::Loaded(shown) => {
                    &&& after.state matches State::Loaded(loaded)
                    &&& loaded.event_list.events == events
                    &&& loaded.event_publication_form == shown.event_publication_form
                    &&& loaded.login_bar == shown.login_bar
                },
                State::Failed(_) => after == before,
            }
        },
        Msg::Error(error) => {
            &&& context_after == context_before
            &&& issued == Seq::<Msg>::empty()
            &&& after.state == State::Failed(error)
        },
        Msg::EventPublication(form_msg) => {
            &&& context_after == context_before
            &&& match before.state {
                State::Loaded(shown) => {
                    &&& after.state matches State::Loaded(loaded)
                    &&& loaded.event_list == shown.event_list
                    &&& loaded.login_bar == shown.login_bar
                    &&& match form_msg {
                        event_publication_form::Msg::Public(
                            event_publication_form::PublicMsg::EventPublished,
                        ) => {
                            &&& event_publication_form::is_initial(loaded.event_publication_form)
                            &&& exists|answer: Result<Vec<Event>, String>, resolved: bool|
                                issued == #[trigger] if_resolved(resolved, OnEvents.image(answer))
                        },
                        event_publication_form::Msg::Private(private) => {
                            exists|from_form: Seq<event_publication_form::Msg>|
                                {
                                    &&& #[trigger] event_publication_form::updated(
                                        shown.event_publication_form,
                                        private,
                                        loaded.event_publication_form,
                                        from_form,
                                    )
                                    &&& issued == from_form.map_values(
                                        |m: event_publication_form::Msg| FromPublication.image(m),
                                    )
                                }
                        },
                    }
                },
                _ => after == before && issued == Seq::<Msg>::empty(),
            }
        },
        Msg::LoginBar(bar_msg) => {
            match (before.state, bar_msg) {
                (State::Loaded(shown), login_bar::Msg::Private(private)) => {
                    &&& after.state matches State::Loaded(loaded)
                    &&& loaded.event_list == shown.event_list
                    &&& loaded.event_publication_form == shown.event_publication_form
                    &&& context_after.username == if private is SignedOut {
                        None
                    } else {
                        context_before.username
                    }
                    &&& exists|from_bar: Seq<login_bar::Msg>|
                        {
                            &&& #[trigger] login_bar::updated(
                                shown.login_bar,
                                private,
                                loaded.login_bar,
                                from_bar,
                            )
                            &&& issued == from_bar.map_values(
                                |m: login_bar::Msg| FromLoginBar.image(m),
                            )
                        }
                },
                _ => {
                    &&& after == before
                    &&& context_after == context_before
                    &&& issued == Seq::<Msg>::empty()
                },
            }
        },
    }
}

/// Whether `msg` makes the page `before` ask the server for all events
/// again: the form of the loaded page says that an event has been
/// published.
pub open spec fn asks_again(before: Model, msg: Msg) -> bool {
    &&& before.state is Loaded
    &&& msg matches Msg::EventPublication(event_publication_form::Msg::Public(_))
}

/// The name that `msg` makes the page `before` ask the server to publish,
/// if it makes it ask: the page must be loaded, and its form must ask.
pub open spec fn name_to_publish(before: Model, msg: Msg) -> Option<String> {
    match (before.state, msg) {
        (
            State::Loaded(loaded),
            Msg::EventPublication(event_publication_form::Msg::Private(private)),
        ) => event_publication_form::name_to_publish(loaded.event_publication_form, private),
        _ => None,
    }
}

/// What the page does with `msg`.
pub fn update<BMs: 'static, B: IMyOrders<BMs>, T: Mapper<Msg, BMs> + 'static, K: BackendApi>(
    msg: Msg,
    model: &mut Model,
    context: &mut Context<K>,
    orders: &mut MyOrders<'_, Msg, BMs, B, T>,
)
    requires
        old(orders).wf(),
    ensures
        *final(final(orders).implementation) == *final(old(orders).implementation),
        exists|issued: Seq<Msg>|
            {
                &&& #[trigger] issued_through(*final(orders), *old(orders), issued)
                &&& updated(
                    *old(model),
                    *old(context),
                    msg,
                    *final(model),
                    *final(context),
                    issued,
                )
            },
        asks_again(*old(model), msg) ==> exists|request: K::GetEvents, resolved: bool|
            {
                &&& call_ensures(K::get_events, (&old(context).backend,), request)
                &&& #[trigger] issued_through(
                    *final(orders),
                    *old(orders),
                    if_resolved(resolved, OnEvents.image(request@)),
                )
            },
        name_to_publish(*old(model), msg) matches Some(name) ==> exists|
            request: K::PublishEvent,
            resolved: bool,
        |
            {
                &&& call_ensures(K::publish_event, (&old(context).backend, name), request)
                &&& #[trigger] issued_through(
                    *final(orders),
                    *old(orders),
                    if_resolved(
                        resolved,
                        Msg::EventPublication(event_publication_form::OnPublished.image(request@)),
                    ),
                )
            },
{
    match msg {
        Msg::OnGetEventsResponse(events) => {
            on_get_events_response_msg(events, model, context);
            proof {
                nothing_issued(*orders);
            }
        },
        Msg::EventPublication(msg) => event_publication_form_msg(msg, model, context, orders),
        Msg::Error(err) => {
            model.state = State::Failed(err);
            proof {
                nothing_issued(*orders);
            }
        },
        Msg::LoginBar(msg) => login_bar_msg(msg, model, context, orders),
    }
}

fn on_get_events_response_msg<K>(events: Vec<Event>, model: &mut Model, context: &Context<K>)
    ensures
        updated(
            *old(model),
            *context,
            Msg::OnGetEventsResponse(events),
            *final(model),
            *context,
            Seq::<Msg>::empty(),
        ),
{
    match &mut model.state {
        State::Loading => {
            model.state = State::Loaded(Loaded::new(events, context));
        },
        State::Loaded(loaded) => {
            loaded.event_list = events_list::init(events);
        },
        State::Failed(_) => {},
    }
}

fn event_publication_form_msg<
    BMs: 'static,
    B: IMyOrders<BMs>,
    T: Mapper<Msg, BMs> + 'static,
    K: BackendApi,
>(
    msg: event_publication_form::Msg,
    model: &mut Model,
    context: &mut Context<K>,
    orders: &mut MyOrders<'_, Msg, BMs, B, T>,
)
    requires
        old(orders).wf(),
    ensures
        *final(final(orders).implementation) == *final(old(orders).implementation),
        exists|issued: Seq<Msg>|
            {
                &&& #[trigger] issued_through(*final(orders), *old(orders), issued)
                &&& updated(
                    *old(model),
                    *old(context),
                    Msg::EventPublication(msg),
                    *final(model),
                    *final(context),
                    issued,
                )
            },
        asks_again(*old(model), Msg::EventPublication(msg)) ==> exists|
            request: K::GetEvents,
            resolved: bool,
        |
            {
                &&& call_ensures(K::get_events, (&old(context).backend,), request)
                &&& #[trigger] issued_through(
                    *final(orders),
                    *old(orders),
                    if_resolved(resolved, OnEvents.image(request@)),
                )
            },
        name_to_publish(*old(model), Msg::EventPublication(msg)) matches Some(name) ==> exists|
            request: K::PublishEvent,
            resolved: bool,
        |
            {
                &&& call_ensures(K::publish_event, (&old(context).backend, name), request)
                &&& #[trigger] issued_through(
                    *final(orders),
                    *old(orders),
                    if_resolved(
                        resolved,
                        Msg::EventPublication(event_publication_form::OnPublished.image(request@)),
                    ),
                )
            },
{
    match &mut model.state {
        State::Loaded(loaded) => match msg {
            event_publication_form::Msg::Public(msg) => match msg {
                event_publication_form::PublicMsg::EventPublished => {
                    request_events(orders, &context.backend);
                    loaded.event_publication_form = event_publication_form::init();
                },
            },
            event_publication_form::Msg::Private(msg) => {
                let ghost parent = *orders;
                let ghost shown = loaded.event_publication_form;
                let mut child = orders.proxy(FromPublication);
                let ghost child_before = child;
                event_publication_form::update(
                    msg,
                    &mut loaded.event_publication_form,
                    context,
                    &mut child,
                );
                let ghost child_after = child;
                proof {
                    let from_form = choose|from_form: Seq<event_publication_form::Msg>|
                        {
                            &&& #[trigger] issued_through(child_after, child_before, from_form)
                            &&& event_publication_form::updated(
                                shown,
                                msg,
                                loaded.event_publication_form,
                                from_form,
                            )
                        };
                    issued_by_child(*orders, parent, child_after, child_before, from_form);
                    if event_publication_form::name_to_publish(shown, msg) is Some {
                        let name = event_publication_form::name_to_publish(shown, msg)->Some_0;
                        let (request, resolved) = choose|
                            request: K::PublishEvent,
                            resolved: bool,
                        |
                            {
                                &&& call_ensures(
                                    K::publish_event,
                                    (&context.backend, name),
                                    request,
                                )
                                &&& #[trigger] issued_through(
                                    child_after,
                                    child_before,
                                    if_resolved(
                                        resolved,
                                        event_publication_form::OnPublished.image(request@),
                                    ),
                                )
                            };
                        let inner = if_resolved(
                            resolved,
                            event_publication_form::OnPublished.image(request@),
                        );
                        issued_by_child(*orders, parent, child_after, child_before, inner);
                        assert(inner.map_values(
                            |m: event_publication_form::Msg| FromPublication.image(m),
                        ) == if_resolved(
                            resolved,
                            Msg::EventPublication(
                                event_publication_form::OnPublished.image(request@),
                            ),
                        ));
                    }
                }
            },
        },
        _ => {
            proof {
                nothing_issued(*orders);
            }
        },
    }
}

fn login_bar_msg<BMs: 'static, B: IMyOrders<BMs>, T: Mapper<Msg, BMs> + 'static, K: BackendApi>(
    msg: login_bar::Msg,
    model: &mut Model,
    context: &mut Context<K>,
    orders: &mut MyOrders<'_, Msg, BMs, B, T>,
)
    requires
        old(orders).wf(),
    ensures
        *final(final(orders).implementation) == *final(old(orders).implementation),
        exists|issued: Seq<Msg>|
            {
                &&& #[trigger] issued_through(*final(orders), *old(orders), issued)
                &&& updated(
                    *old(model),
                    *old(context),
                    Msg::LoginBar(msg),
                    *final(model),
                    *final(context),
                    issued,
                )
            },
{
    match &mut model.state {
        State::Loaded(loaded) => match msg {
            login_bar::Msg::Public(msg) => match msg {
                login_bar::PublicMsg::SignedOut => {
                    proof {
                        nothing_issued(*orders);
                    }
                },
            },
            login_bar::Msg::Private(msg) => {
                let ghost parent = *orders;
                let ghost shown = loaded.login_bar;
                let mut child = orders.proxy(FromLoginBar);
                let ghost child_before = child;
                login_bar::update(msg, &mut loaded.login_bar, context, &mut child);
                let ghost child_after = child;
                proof {
                    let from_bar = choose|from_bar: Seq<login_bar::Msg>|
                        {
                            &&& #[trigger] issued_through(child_after, child_before, from_bar)
                            &&& login_bar::updated(shown, msg, loaded.login_bar, from_bar)
                        };
                    issued_by_child(*orders, parent, child_after, child_before, from_bar);
                }
            },
        },
        _ => {
            proof {
                nothing_issued(*orders);
            }
        },
    }
}

/// Asks the server for all events.
pub fn request_events<
    BMs: 'static,
    B: IMyOrders<BMs>,
    T: Mapper<Msg, BMs> + 'static,
    K: BackendApi,
>(orders: &mut MyOrders<'_, Msg, BMs, B, T>, backend: &K)
    requires
        old(orders).wf(),
    ensures
        *final(final(orders).implementation) == *final(old(orders).implementation),
        exists|request: K::GetEvents, resolved: bool|
            {
                &&& call_ensures(K::get_events, (backend,), request)
                &&& #[trigger] issued_through(
                    *final(orders),
                    *old(orders),
                    if_resolved(resolved, OnEvents.image(request@)),
                )
            },
{
    let request = backend.get_events();
    let resolved = orders.request(request, OnEvents);
}

} // verus!
