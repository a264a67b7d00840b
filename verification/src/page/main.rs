use crate::api::BackendApi;
use crate::component::{event_list, event_publication};
use crate::event::{duplicate_all, views, Event};
use crate::orders::interface::IMyOrders;
use crate::orders::mapper::Mapper;
use crate::orders::my_orders::{
    if_resolved, issued_by_child, issued_in_turn, issued_through, nothing_issued, MyOrders,
};
use crate::url::Url;
use vstd::future::FutureAdditionalSpecFns;
use vstd::prelude::*;

verus! {

pub enum Model {
    Loading,
    Loaded(Loaded),
    Failed(String),
}

pub struct Loaded {
    pub event_list: event_list::Model,
    pub event_publication_form: event_publication::Model,
}

pub enum Msg {
    EventList(event_list::Msg),
    EventPublication(event_publication::Msg),
}

/// Wraps the messages of the list of events into messages of the page.
pub struct FromEventList;

impl Mapper<event_list::Msg, Msg> for FromEventList {
    open spec fn wf(&self) -> bool {
        true
    }

    open spec fn image(&self, m: event_list::Msg) -> Msg {
        Msg::EventList(m)
    }

    fn apply(&self, m: event_list::Msg) -> (outer: Msg) {
        Msg::EventList(m)
    }

    fn duplicate(&self) -> (copy: Self) {
        FromEventList
    }
}

/// Wraps the messages of the publication form into messages of the page.
pub struct FromPublication;

impl Mapper<event_publication::Msg, Msg> for FromPublication {
    open spec fn wf(&self) -> bool {
        true
    }

    open spec fn image(&self, m: event_publication::Msg) -> Msg {
        Msg::EventPublication(m)
    }

    fn apply(&self, m: event_publication::Msg) -> (outer: Msg) {
        Msg::EventPublication(m)
    }

    fn duplicate(&self) -> (copy: Self) {
        FromPublication
    }
}

/// The one message that a request for all events issues, as the page sees
/// it.
pub open spec fn asks_for_events(issued: Seq<Msg>) -> bool {
    exists|answer: Result<Vec<Event>, String>, resolved: bool|
        issued == #[trigger] if_resolved(
            resolved,
            Msg::EventList(event_list::OnEvents.image(answer)),
        )
}

/// Opens the page: it asks for all events and waits for them.
pub fn init<BMs: 'static, B: IMyOrders<BMs>, T: Mapper<Msg, BMs> + 'static, K: BackendApi>(
    url: &mut Url,
    orders: &mut MyOrders<'_, Msg, BMs, B, T>,
    backend: &K,
) -> (model: Model)
    requires
        old(orders).wf(),
    ensures
        model is Loading,
        *final(url) == *old(url),
        *final(final(orders).implementation) == *final(old(orders).implementation),
        exists|request: K::GetEvents, resolved: bool|
            {
                &&& call_ensures(K::get_events, (backend,), request)
                &&& #[trigger] issued_through(
                    *final(orders),
                    *old(orders),
                    if_resolved(resolved, Msg::EventList(event_list::OnEvents.image(request@))),
                )
            },
{
    request_events(orders, backend);
    Model::Loading
}

/// Asks for all events in the name of the list.
fn request_events<BMs: 'static, B: IMyOrders<BMs>, T: Mapper<Msg, BMs> + 'static, K: BackendApi>(
    orders: &mut MyOrders<'_, Msg, BMs, B, T>,
    backend: &K,
)
    requires
        old(orders).wf(),
    ensures
        *final(final(orders).implementation) == *final(old(orders).implementation),
        exists|issued: Seq<Msg>| #[trigger]
            issued_through(*final(orders), *old(orders), issued) && asks_for_events(issued),
        exists|request: K::GetEvents, resolved: bool|
            {
                &&& call_ensures(K::get_events, (backend,), request)
                &&& #[trigger] issued_through(
                    *final(orders),
                    *old(orders),
                    if_resolved(resolved, Msg::EventList(event_list::OnEvents.image(request@))),
                )
            },
{
    let ghost parent = *orders;
    let mut child = orders.proxy(FromEventList);
    let ghost child_before = child;
    event_list::request_events(&mut child, backend);
    let ghost child_after = child;
    proof {
        let (request, resolved) = choose|request: K::GetEvents, resolved: bool|
            {
                &&& call_ensures(K::get_events, (backend,), request)
                &&& #[trigger] issued_through(
                    child_after,
                    child_before,
                    if_resolved(resolved, event_list::OnEvents.image(request@)),
                )
            };
        let from_list = if_resolved(resolved, event_list::OnEvents.image(request@));
        let issued = if_resolved(resolved, Msg::EventList(event_list::OnEvents.image(request@)));
        issued_by_child(*orders, parent, child_after, child_before, from_list);
        assert(from_list.map_values(|m: event_list::Msg| FromEventList.image(m)) == issued);
        assert(asks_for_events(issued));
    }
}

/// What the page issues itself before it hands `form_msg` to the form: a
/// request for all events if an event has been published, nothing
/// otherwise.
pub open spec fn asked_first(form_msg: event_publication::Msg, asked: Seq<Msg>) -> bool {
    if form_msg is OnEventPublished {
        asks_for_events(asked)
    } else {
        asked == Seq::<Msg>::empty()
    }
}

/// The loaded page `after`, or the error, and the messages `issued` are
/// what `msg` makes of the loaded page `before`: a message of the list
/// gives the new list or the error; a message of the form goes to the
/// form, and a published event makes the page ask for all events first.
pub open spec fn updated_loaded(
    before: Loaded,
    msg: Msg,
    after: Result<Loaded, String>,
    issued: Seq<Msg>,
) -> bool {
    match msg {
        Msg::EventList(list_msg) => {
            &&& issued == Seq::<Msg>::empty()
            &&& match list_msg {
                event_list::Msg::OnGetEventsResponse(events) => {
                    &&& after matches Ok(loaded)
                    &&& loaded.event_list == events
                    &&& loaded.event_publication_form == before.event_publication_form
                },
                event_list::Msg::Error(error) => after == Err::<Loaded, String>(error),
            }
        },
        Msg::EventPublication(form_msg) => {
            &&& after matches Ok(loaded)
            &&& views(loaded.event_list@) == views(before.event_list@)
            &&& exists|asked: Seq<Msg>, from_form: Seq<event_publication::Msg>|
                {
                    &&& #[trigger] event_publication::updated(
                        before.event_publication_form,
                        form_msg,
                        loaded.event_publication_form,
                        from_form,
                    )
                    &&& #[trigger] asked_first(form_msg, asked)
                    &&& issued == asked + from_form.map_values(
                        |m: event_publication::Msg| FromPublication.image(m),
                    )
                }
        },
    }
}

/// The page `after` and the messages `issued` are what `msg` makes of the
/// page `before`: a page that waits takes the events or the error and
/// drops anything else, a loaded page is updated and fails if its update
/// does, and a page that has failed stays as it is.
pub open spec fn updated(before: Model, msg: Msg, after: Model, issued: Seq<Msg>) -> bool {
    match before {
        Model::Loading => {
            &&& issued == Seq::<Msg>::empty()
            &&& after == after_loading(msg)
        },
        Model::Loaded(loaded) => exists|next: Result<Loaded, String>|
            {
                &&& #[trigger] updated_loaded(loaded, msg, next, issued)
                &&& after == match next {
                    Ok(new_loaded) => Model::Loaded(new_loaded),
                    Err(error) => Model::Failed(error),
                }
            },
        Model::Failed(reason) => {
            &&& issued == Seq::<Msg>::empty()
            &&& after == Model::Failed(reason)
        },
    }
}

/// What `msg` makes of a page that waits for the events.
pub open spec fn after_loading(msg: Msg) -> Model {
    match msg {
        Msg::EventList(event_list::Msg::OnGetEventsResponse(events)) => Model::Loaded(
            Loaded { event_list: events, event_publication_form: event_publication::Model::Empty },
        ),
        Msg::EventList(event_list::Msg::Error(error)) => Model::Failed(error),
        Msg::EventPublication(_) => Model::Loading,
    }
}

/// Whether `msg` makes the page `before` ask the server for all events
/// again: the form of the loaded page says that an event has been
/// published.
pub open spec fn asks_again(before: Model, msg: Msg) -> bool {
    before is Loaded && msg == Msg::EventPublication(event_publication::Msg::OnEventPublished)
}

/// The name that `msg` makes the form of the page `before` ask the server
/// to publish, if it makes it ask.
pub open spec fn name_to_publish(before: Model, msg: Msg) -> Option<String> {
    match (before, msg) {
        (
            Model::Loaded(loaded),
            Msg::EventPublication(form_msg),
        ) => event_publication::name_to_publish(loaded.event_publication_form, form_msg),
        _ => None,
    }
}

/// What the page does with `msg`.
pub fn update<BMs: 'static, B: IMyOrders<BMs>, T: Mapper<Msg, BMs> + 'static, K: BackendApi>(
    msg: Msg,
    model: &Model,
    orders: &mut MyOrders<'_, Msg, BMs, B, T>,
    backend: &K,
) -> (next: Model)
    requires
        old(orders).wf(),
    ensures
        *final(final(orders).implementation) == *final(old(orders).implementation),
        exists|issued: Seq<Msg>|
            {
                &&& #[trigger] issued_through(*final(orders), *old(orders), issued)
                &&& updated(*model, msg, next, issued)
            },
        asks_again(*model, msg) ==> exists|request: K::GetEvents, resolved: bool|
            {
                &&& call_ensures(K::get_events, (backend,), request)
                &&& #[trigger] issued_through(
                    *final(orders),
                    *old(orders),
                    if_resolved(resolved, Msg::EventList(event_list::OnEvents.image(request@))),
                )
            },
        name_to_publish(*model, msg) matches Some(name) ==> exists|
            request: K::PublishEvent,
            resolved: bool,
        |
            {
                &&& call_ensures(K::publish_event, (backend, name), request)
                &&& #[trigger] issued_through(
                    *final(orders),
                    *old(orders),
                    if_resolved(
                        resolved,
                        Msg::EventPublication(event_publication::OnPublished.image(request@)),
                    ),
                )
            },
{
    match model {
        Model::Loading => {
            proof {
                nothing_issued(*orders);
            }
            update_loading(msg)
        },
        Model::Loaded(loaded) => match update_loaded(msg, loaded, orders, backend) {
            Ok(new_loaded) => Model::Loaded(new_loaded),
            Err(error) => Model::Failed(error),
        },
        Model::Failed(failed) => {
            proof {
                nothing_issued(*orders);
            }
            Model::Failed(failed.clone())
        },
    }
}

fn update_loading(msg: Msg) -> (next: Model)
    ensures
        next == after_loading(msg),
{
    match msg {
        Msg::EventList(event_list_msg) => match event_list_msg {
            event_list::Msg::OnGetEventsResponse(events) => Model::Loaded(
                Loaded {
                    event_list: events,
                    event_publication_form: event_publication::Model::Empty,
                },
            ),
            event_list::Msg::Error(error) => Model::Failed(error),
        },
        Msg::EventPublication(_) => Model::Loading,
    }
}

fn update_loaded<BMs: 'static, B: IMyOrders<BMs>, T: Mapper<Msg, BMs> + 'static, K: BackendApi>(
    msg: Msg,
    loaded: &Loaded,
    orders: &mut MyOrders<'_, Msg, BMs, B, T>,
    backend: &K,
) -> (next: Result<Loaded, String>)
    requires
        old(orders).wf(),
    ensures
        *final(final(orders).implementation) == *final(old(orders).implementation),
        exists|issued: Seq<Msg>|
            {
                &&& #[trigger] issued_through(*final(orders), *old(orders), issued)
                &&& updated_loaded(*loaded, msg, next, issued)
            },
        asks_again(Model::Loaded(*loaded), msg) ==> exists|
            request: K::GetEvents,
            resolved: bool,
        |
            {
                &&& call_ensures(K::get_events, (backend,), request)
                &&& #[trigger] issued_through(
                    *final(orders),
                    *old(orders),
                    if_resolved(resolved, Msg::EventList(event_list::OnEvents.image(request@))),
                )
            },
        name_to_publish(Model::Loaded(*loaded), msg) matches Some(name) ==> exists|
            request: K::PublishEvent,
            resolved: bool,
        |
            {
                &&& call_ensures(K::publish_event, (backend, name), request)
                &&& #[trigger] issued_through(
                    *final(orders),
                    *old(orders),
                    if_resolved(
                        resolved,
                        Msg::EventPublication(event_publication::OnPublished.image(request@)),
                    ),
                )
            },
{
    match msg {
        Msg::EventList(list_msg) => {
            proof {
                nothing_issued(*orders);
            }
            match event_list::update(list_msg) {
                Ok(event_list) => Ok(
                    Loaded {
                        event_list,
                        event_publication_form: loaded.event_publication_form.duplicate(),
                    },
                ),
                Err(error) => Err(error),
            }
        },
        Msg::EventPublication(form_msg) => {
            let ghost start = *orders;
            let published = match &form_msg {
                event_publication::Msg::OnEventPublished => true,
                _ => false,
            };
            if published {
                request_events(orders, backend);
            }
            let ghost middle = *orders;
            let ghost asked = if published {
                choose|asked: Seq<Msg>| #[trigger]
                    issued_through(middle, start, asked) && asks_for_events(asked)
            } else {
                Seq::<Msg>::empty()
            };
            proof {
                if !published {
                    nothing_issued(start);
                }
                assert(asked_first(form_msg, asked));
            }
            let mut child = orders.proxy(FromPublication);
            let ghost child_before = child;
            let updated_form = event_publication::update(
                form_msg,
                &loaded.event_publication_form,
                &mut child,
                backend,
            );
            let ghost child_after = child;
            proof {
                let from_form = choose|from_form: Seq<event_publication::Msg>|
                    {
                        &&& #[trigger] issued_through(child_after, child_before, from_form)
                        &&& updated_form matches Ok(after) && event_publication::updated(
                            loaded.event_publication_form,
                            form_msg,
                            after,
                            from_form,
                        )
                    };
                issued_by_child(*orders, middle, child_after, child_before, from_form);
                issued_in_turn(
                    start,
                    middle,
                    *orders,
                    asked,
                    from_form.map_values(|m: event_publication::Msg| FromPublication.image(m)),
                );
                if published {
                    let (request, resolved) = choose|request: K::GetEvents, resolved: bool|
                        {
                            &&& call_ensures(K::get_events, (backend,), request)
                            &&& #[trigger] issued_through(
                                middle,
                                start,
                                if_resolved(
                                    resolved,
                                    Msg::EventList(event_list::OnEvents.image(request@)),
                                ),
                            )
                        };
                    let first = if_resolved(
                        resolved,
                        Msg::EventList(event_list::OnEvents.image(request@)),
                    );
                    assert(from_form == Seq::<event_publication::Msg>::empty());
                    issued_in_turn(
                        start,
                        middle,
                        *orders,
                        first,
                        from_form.map_values(|m: event_publication::Msg| FromPublication.image(m)),
                    );
                    assert(first + from_form.map_values(
                        |m: event_publication::Msg| FromPublication.image(m),
                    ) == first);
                } else if event_publication::name_to_publish(
                    loaded.event_publication_form,
                    form_msg,
                ) is Some {
                    let name = event_publication::name_to_publish(
                        loaded.event_publication_form,
                        form_msg,
                    )->Some_0;
                    let (request, resolved) = choose|request: K::PublishEvent, resolved: bool|
                        {
                            &&& call_ensures(K::publish_event, (backend, name), request)
                            &&& #[trigger] issued_through(
                                child_after,
                                child_before,
                                if_resolved(
                                    resolved,
                                    event_publication::OnPublished.image(request@),
                                ),
                            )
                        };
                    let inner = if_resolved(
                        resolved,
                        event_publication::OnPublished.image(request@),
                    );
                    let outer = if_resolved(
                        resolved,
                        Msg::EventPublication(event_publication::OnPublished.image(request@)),
                    );
                    issued_by_child(*orders, middle, child_after, child_before, inner);
                    assert(inner.map_values(|m: event_publication::Msg| FromPublication.image(m))
                        == outer);
                    issued_in_turn(start, middle, *orders, Seq::<Msg>::empty(), outer);
                    assert(Seq::<Msg>::empty() + outer == outer);
                }
            }
            match updated_form {
                Ok(event_publication_form) => Ok(
                    Loaded {
                        event_list: duplicate_all(&loaded.event_list),
                        event_publication_form,
                    },
                ),
                Err(error) => Err(error),
            }
        },
    }
}

} // verus!
