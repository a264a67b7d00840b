use crate::api::{and_then_get_event, BackendApi};
use crate::event::{Event, Id};
use crate::orders::interface::IMyOrders;
use crate::orders::mapper::Mapper;
use crate::orders::my_orders::{if_resolved, issued_through, nothing_issued, MyOrders};
use vstd::future::FutureAdditionalSpecFns;
use vstd::prelude::*;

verus! {

pub type Model = Event;

pub enum Msg {
    OnGetEventResponse(Event),
    Error(String),
    JoinEventClick,
}

/// What the part makes of the server's answer to a request for an event.
pub struct OnEvent;

impl Mapper<Result<Event, String>, Msg> for OnEvent {
    open spec fn wf(&self) -> bool {
        true
    }

    open spec fn image(&self, answer: Result<Event, String>) -> Msg {
        match answer {
            Ok(event) => Msg::OnGetEventResponse(event),
            Err(error) => Msg::Error(error),
        }
    }

    fn apply(&self, answer: Result<Event, String>) -> (outer: Msg) {
        match answer {
            Ok(event) => Msg::OnGetEventResponse(event),
            Err(error) => Msg::Error(error),
        }
    }

    fn duplicate(&self) -> (copy: Self) {
        OnEvent
    }
}

/// Asks the server for the event `id`.
pub fn request_event<
    BMs: 'static,
    B: IMyOrders<BMs>,
    T: Mapper<Msg, BMs> + 'static,
    K: BackendApi,
>(id: Id, orders: &mut MyOrders<'_, Msg, BMs, B, T>, backend: &K)
    requires
        old(orders).wf(),
    ensures
        *final(final(orders).implementation) == *final(old(orders).implementation),
        exists|request: K::GetEvent, resolved: bool|
            {
                &&& call_ensures(K::get_event, (backend, id), request)
                &&& #[trigger] issued_through(
                    *final(orders),
                    *old(orders),
                    if_resolved(resolved, OnEvent.image(request@)),
                )
            },
{
    let request = backend.get_event(id);
    let resolved = orders.request(request, OnEvent);
}

/// Asks the server to add the user to the event `id` and then, unless that
/// failed, for the event as it is afterwards.
pub fn join_event<
    BMs: 'static,
    B: IMyOrders<BMs>,
    T: Mapper<Msg, BMs> + 'static,
    K: BackendApi + Clone + 'static,
>(id: Id, orders: &mut MyOrders<'_, Msg, BMs, B, T>, backend: &K)
    requires
        old(orders).wf(),
    ensures
        *final(final(orders).implementation) == *final(old(orders).implementation),
        exists|joined: K::JoinEvent, answer: Result<Event, String>, resolved: bool|
            {
                &&& #[trigger] call_ensures(K::join_event, (backend, id), joined)
                &&& match joined@ {
                    Err(error) => answer == Err::<Event, String>(error),
                    Ok(_) => exists|server: K, request: K::GetEvent| #[trigger]
                        call_ensures(K::get_event, (&server, id), request) && answer == request@,
                }
                &&& #[trigger] issued_through(
                    *final(orders),
                    *old(orders),
                    if_resolved(resolved, OnEvent.image(answer)),
                )
            },
{
    let joined = backend.join_event(id);
    let request = and_then_get_event(joined, backend.clone(), id);
    let resolved = orders.request(request, OnEvent);
}

/// The part `after`, or the error, and the messages `issued` are what
/// `msg` makes of the part `before`: an event that arrives takes the place
/// of the one shown, an error is handed up, and a click on the join button
/// asks the server to add the user and keeps the event as it is.
pub open spec fn updated(
    before: Model,
    msg: Msg,
    after: Result<Model, String>,
    issued: Seq<Msg>,
) -> bool {
    match msg {
        Msg::OnGetEventResponse(event) => {
            &&& after == Ok::<Model, String>(event)
            &&& issued == Seq::<Msg>::empty()
        },
        Msg::Error(error) => {
            &&& after == Err::<Model, String>(error)
            &&& issued == Seq::<Msg>::empty()
        },
        Msg::JoinEventClick => {
            &&& after == Ok::<Model, String>(before)
            &&& exists|answer: Result<Event, String>, resolved: bool|
                issued == #[trigger] if_resolved(resolved, OnEvent.image(answer))
        },
    }
}

/// What the part does with `msg`.
pub fn update<
    BMs: 'static,
    B: IMyOrders<BMs>,
    T: Mapper<Msg, BMs> + 'static,
    K: BackendApi + Clone + 'static,
>(msg: Msg, model: Model, orders: &mut MyOrders<'_, Msg, BMs, B, T>, backend: &K) -> (next: Result<
    Model,
    String,
>)
    requires
        old(orders).wf(),
    ensures
        *final(final(orders).implementation) == *final(old(orders).implementation),
        exists|issued: Seq<Msg>|
            {
                &&& #[trigger] issued_through(*final(orders), *old(orders), issued)
                &&& updated(model, msg, next, issued)
            },
        msg is JoinEventClick ==> exists|
            joined: K::JoinEvent,
            answer: Result<Event, String>,
            resolved: bool,
        |
            {
                &&& #[trigger] call_ensures(K::join_event, (backend, model@.id), joined)
                &&& match joined@ {
                    Err(error) => answer == Err::<Event, String>(error),
                    Ok(_) => exists|server: K, request: K::GetEvent| #[trigger]
                        call_ensures(K::get_event, (&server, model@.id), request)
                            && answer == request@,
                }
                &&& #[trigger] issued_through(
                    *final(orders),
                    *old(orders),
                    if_resolved(resolved, OnEvent.image(answer)),
                )
            },
{
    match msg {
        Msg::OnGetEventResponse(event) => {
            proof {
                nothing_issued(*orders);
            }
            Ok(event)
        },
        Msg::Error(error) => {
            proof {
                nothing_issued(*orders);
            }
            Err(error)
        },
        Msg::JoinEventClick => {
            join_event(model.id(), orders, backend);
            Ok(model)
        },
    }
}

} // verus!
