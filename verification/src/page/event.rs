use crate::api::BackendApi;
use crate::component::event;
use crate::event::{Event, Id};
use crate::orders::interface::IMyOrders;
use crate::orders::mapper::Mapper;
use crate::orders::my_orders::{
    if_resolved, issued_by_child, issued_through, nothing_issued, MyOrders,
};
use crate::pages::event::{id_from_url, id_in};
use crate::url::Url;
use vstd::future::FutureAdditionalSpecFns;
use vstd::prelude::*;

verus! {

pub enum Model {
    Loading,
    Loaded(Loaded),
    Failed(String),
}

pub struct Loaded {
    pub event: event::Model,
}

pub enum Msg {
    Event(event::Msg),
}

/// Wraps the messages of the event into messages of the page.
pub struct FromEvent;

impl Mapper<event::Msg, Msg> for FromEvent {
    open spec fn wf(&self) -> bool {
        true
    }

    open spec fn image(&self, m: event::Msg) -> Msg {
        Msg::Event(m)
    }

    fn apply(&self, m: event::Msg) -> (outer: Msg) {
        Msg::Event(m)
    }

    fn duplicate(&self) -> (copy: Self) {
        FromEvent
    }
}

/// The one message that a request for an event issues, as the page sees
/// it.
pub open spec fn asks_for_event(issued: Seq<Msg>) -> bool {
    exists|answer: Result<Event, String>, resolved: bool|
        issued == #[trigger] if_resolved(resolved, Msg::Event(event::OnEvent.image(answer)))
}

/// The page `model` and the messages `issued` are what opening the page
/// at a location with the parts `parts`, read up to `consumed`, gives: the
/// page asks for the event that the next part names and waits, or fails if
/// the part names none.
pub open spec fn opened(
    parts: Seq<Seq<char>>,
    consumed: nat,
    model: Model,
    issued: Seq<Msg>,
) -> bool {
    match id_in(parts, consumed) {
        Ok(_) => model is Loading && asks_for_event(issued),
        Err(reason) => {
            &&& model matches Model::Failed(shown) && shown@ == reason
            &&& issued == Seq::<Msg>::empty()
        },
    }
}

/// Opens the page of the event that the next part of `url` names: it asks
/// for the event and waits, or fails if the part names none.
pub fn init<BMs: 'static, B: IMyOrders<BMs>, T: Mapper<Msg, BMs> + 'static, K: BackendApi>(
    url: &mut Url,
    orders: &mut MyOrders<'_, Msg, BMs, B, T>,
    backend: &K,
) -> (model: Model)
    requires
        old(orders).wf(),
    ensures
        final(url).parts() == old(url).parts(),
        *final(final(orders).implementation) == *final(old(orders).implementation),
        exists|issued: Seq<Msg>|
            {
                &&& #[trigger] issued_through(*final(orders), *old(orders), issued)
                &&& opened(old(url).parts(), old(url).consumed(), model, issued)
            },
        id_in(old(url).parts(), old(url).consumed()) matches Ok(id) ==> exists|
            request: K::GetEvent,
            resolved: bool,
        |
            {
                &&& call_ensures(K::get_event, (backend, id), request)
                &&& #[trigger] issued_through(
                    *final(orders),
                    *old(orders),
                    if_resolved(resolved, Msg::Event(event::OnEvent.image(request@))),
                )
            },
{
    match id_from_url(url) {
        Ok(id) => {
            let ghost parent = *orders;
            let mut child = orders.proxy(FromEvent);
            let ghost child_before = child;
            event::request_event(id, &mut child, backend);
            let ghost child_after = child;
            proof {
                let (request, resolved) = choose|request: K::GetEvent, resolved: bool|
                    {
                        &&& call_ensures(K::get_event, (backend, id), request)
                        &&& #[trigger] issued_through(
                            child_after,
                            child_before,
                            if_resolved(resolved, event::OnEvent.image(request@)),
                        )
                    };
                let from_event = if_resolved(resolved, event::OnEvent.image(request@));
                let issued = if_resolved(resolved, Msg::Event(event::OnEvent.image(request@)));
                issued_by_child(*orders, parent, child_after, child_before, from_event);
                assert(from_event.map_values(|m: event::Msg| FromEvent.image(m)) == issued);
                assert(asks_for_event(issued));
            }
            Model::Loading
        },
        Err(err) => {
            proof {
                nothing_issued(*orders);
            }
            Model::Failed(err)
        },
    }
}

/// What `msg` makes of a page that waits for its event: the event is
/// shown, an error makes the page fail, and a click has nothing to act on.
pub open spec fn after_loading(msg: Msg) -> Model {
    match msg {
        Msg::Event(event::Msg::OnGetEventResponse(event)) => Model::Loaded(Loaded { event }),
        Msg::Event(event::Msg::Error(error)) => Model::Failed(error),
        Msg::Event(event::Msg::JoinEventClick) => Model::Loading,
    }
}

/// The loaded page `after`, or the error, and the messages `issued` are
/// what `msg` makes of the loaded page `before`: the message goes to the
/// event, whose own messages come back wrapped.
pub open spec fn updated_loaded(
    before: Loaded,
    msg: Msg,
    after: Result<Loaded, String>,
    issued: Seq<Msg>,
) -> bool {
    msg matches Msg::Event(event_msg) && exists|
        shown: Event,
        next: Result<Event, String>,
        from_event: Seq<event::Msg>,
    |
        {
            &&& shown@ == before.event@
            &&& #[trigger] event::updated(shown, event_msg, next, from_event)
            &&& after == match next {
                Ok(event) => Ok::<Loaded, String>(Loaded { event }),
                Err(error) => Err::<Loaded, String>(error),
            }
            &&& issued == from_event.map_values(|m: event::Msg| FromEvent.image(m))
        }
}

/// The page `after` and the messages `issued` are what `msg` makes of the
/// page `before`.
pub open spec fn updated(before: Model, msg: Msg, after: Model, issued: Seq<Msg>) -> bool {
    match before {
        Model::Loading => {
            &&& issued == Seq::<Msg>::empty()
            &&& after == after_loading(msg)
        },
        Model::Loaded(loaded) => exists|next: Result<Loaded, String>|
            {
                &&& #[trigger] updated_loaded(loaded, msg, next, issued)
                &&& after == match next {
                    Ok(new_loaded) => Model::Loaded(new_loaded),
                    Err(error) => Model::Failed(error),
                }
            },
        Model::Failed(reason) => {
            &&& issued == Seq::<Msg>::empty()
            &&& after == Model::Failed(reason)
        },
    }
}

/// The event that `msg` makes the page `before` ask the server to add the
/// user to, if it makes it ask: a click on the join button of the event
/// that is shown.
pub open spec fn event_to_join(before: Model, msg: Msg) -> Option<Id> {
    match (before, msg) {
        (Model::Loaded(loaded), Msg::Event(event::Msg::JoinEventClick)) => Some(loaded.event@.id),
        _ => None,
    }
}

/// What the page does with `msg`.
pub fn update<
    BMs: 'static,
    B: IMyOrders<BMs>,
    T: Mapper<Msg, BMs> + 'static,
    K: BackendApi + Clone + 'static,
>(msg: Msg, model: &Model, orders: &mut MyOrders<'_, Msg, BMs, B, T>, backend: &K) -> (next: Model)
    requires
        old(orders).wf(),
    ensures
        *final(final(orders).implementation) == *final(old(orders).implementation),
        exists|issued: Seq<Msg>|
            {
                &&& #[trigger] issued_through(*final(orders), *old(orders), issued)
                &&& updated(*model, msg, next, issued)
            },
        event_to_join(*model, msg) matches Some(id) ==> exists|
            joined: K::JoinEvent,
            answer: Result<Event, String>,
            resolved: bool,
        |
            {
                &&& #[trigger] call_ensures(K::join_event, (backend, id), joined)
                &&& match joined@ {
                    Err(error) => answer == Err::<Event, String>(error),
                    Ok(_) => exists|server: K, request: K::GetEvent| #[trigger]
                        call_ensures(K::get_event, (&server, id), request) && answer == request@,
                }
                &&& #[trigger] issued_through(
                    *final(orders),
                    *old(orders),
                    if_resolved(resolved, Msg::Event(event::OnEvent.image(answer))),
                )
            },
{
    match model {
        Model::Loading => {
            proof {
                nothing_issued(*orders);
            }
            update_loading(msg)
        },
        Model::Loaded(loaded) => match update_loaded(msg, loaded, orders, backend) {
            Ok(new_loaded) => Model::Loaded(new_loaded),
            Err(error) => Model::Failed(error),
        },
        Model::Failed(failed) => {
            proof {
                nothing_issued(*orders);
            }
            Model::Failed(failed.clone())
        },
    }
}

fn update_loading(msg: Msg) -> (next: Model)
    ensures
        next == after_loading(msg),
{
    match msg {
        Msg::Event(event_msg) => match event_msg {
            event::Msg::OnGetEventResponse(event) => Model::Loaded(Loaded { event }),
            event::Msg::Error(error) => Model::Failed(error),
            event::Msg::JoinEventClick => Model::Loading,
        },
    }
}

fn update_loaded<
    BMs: 'static,
    B: IMyOrders<BMs>,
    T: Mapper<Msg, BMs> + 'static,
    K: BackendApi + Clone + 'static,
>(msg: Msg, loaded: &Loaded, orders: &mut MyOrders<'_, Msg, BMs, B, T>, backend: &K) -> (next:
    Result<Loaded, String>)
    requires
        old(orders).wf(),
    ensures
        *final(final(orders).implementation) == *final(old(orders).implementation),
        exists|issued: Seq<Msg>|
            {
                &&& #[trigger] issued_through(*final(orders), *old(orders), issued)
                &&& updated_loaded(*loaded, msg, next, issued)
            },
        event_to_join(Model::Loaded(*loaded), msg) matches Some(id) ==> exists|
            joined: K::JoinEvent,
            answer: Result<Event, String>,
            resolved: bool,
        |
            {
                &&& #[trigger] call_ensures(K::join_event, (backend, id), joined)
                &&& match joined@ {
                    Err(error) => answer == Err::<Event, String>(error),
                    Ok(_) => exists|server: K, request: K::GetEvent| #[trigger]
                        call_ensures(K::get_event, (&server, id), request) && answer == request@,
                }
                &&& #[trigger] issued_through(
                    *final(orders),
                    *old(orders),
                    if_resolved(resolved, Msg::Event(event::OnEvent.image(answer))),
                )
            },
{
    match msg {
        Msg::Event(event_msg) => {
            let ghost parent = *orders;
            let shown = loaded.event.duplicate();
            let ghost copy = shown;
            let mut child = orders.proxy(FromEvent);
            let ghost child_before = child;
            let updated_event = event::update(event_msg, shown, &mut child, backend);
            let ghost child_after = child;
            proof {
                let from_event = choose|from_event: Seq<event::Msg>|
                    {
                        &&& #[trigger] issued_through(child_after, child_before, from_event)
                        &&& event::updated(copy, event_msg, updated_event, from_event)
                    };
                issued_by_child(*orders, parent, child_after, child_before, from_event);
                if event_msg is JoinEventClick {
                    let id = loaded.event@.id;
                    let (joined, answer, resolved) = choose|
                        joined: K::JoinEvent,
                        answer: Result<Event, String>,
                        resolved: bool,
                    |
                        {
                            &&& #[trigger] call_ensures(K::join_event, (backend, id), joined)
                            &&& match joined@ {
                                Err(error) => answer == Err::<Event, String>(error),
                                Ok(_) => exists|server: K, request: K::GetEvent| #[trigger]
                                    call_ensures(K::get_event, (&server, id), request)
                                        && answer == request@,
                            }
                            &&& #[trigger] issued_through(
                                child_after,
                                child_before,
                                if_resolved(resolved, event::OnEvent.image(answer)),
                            )
                        };
                    let inner = if_resolved(resolved, event::OnEvent.image(answer));
                    issued_by_child(*orders, parent, child_after, child_before, inner);
                    assert(inner.map_values(|m: event::Msg| FromEvent.image(m)) == if_resolved(
                        resolved,
                        Msg::Event(event::OnEvent.image(answer)),
                    ));
                }
            }
            match updated_event {
                Ok(event) => Ok(Loaded { event }),
                Err(error) => Err(error),
            }
        },
    }
}

} // verus!
