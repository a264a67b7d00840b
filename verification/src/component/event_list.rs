use crate::api::BackendApi;
use crate::event::Event;
use crate::orders::interface::IMyOrders;
use crate::orders::mapper::Mapper;
use crate::orders::my_orders::{if_resolved, issued_through, MyOrders};
use vstd::future::FutureAdditionalSpecFns;
use vstd::prelude::*;

verus! {

pub type Model = Vec<Event>;

pub enum Msg {
    OnGetEventsResponse(Vec<Event>),
    Error(String),
}

/// What the list makes of the server's answer to a request for all events.
pub struct OnEvents;

impl Mapper<Result<Vec<Event>, String>, Msg> for OnEvents {
    open spec fn wf(&self) -> bool {
        true
    }

    open spec fn image(&self, answer: Result<Vec<Event>, String>) -> Msg {
        match answer {
            Ok(events) => Msg::OnGetEventsResponse(events),
            Err(error) => Msg::Error(error),
        }
    }

    fn apply(&self, answer: Result<Vec<Event>, String>) -> (outer: Msg) {
        match answer {
            Ok(events) => Msg::OnGetEventsResponse(events),
            Err(error) => Msg::Error(error),
        }
    }

    fn duplicate(&self) -> (copy: Self) {
        OnEvents
    }
}

/// Asks the server for all events.
pub fn request_events<
    BMs: 'static,
    B: IMyOrders<BMs>,
    T: Mapper<Msg, BMs> + 'static,
    K: BackendApi,
>(orders: &mut MyOrders<'_, Msg, BMs, B, T>, backend: &K)
    requires
        old(orders).wf(),
    ensures
        *final(final(orders).implementation) == *final(old(orders).implementation),
        exists|request: K::GetEvents, resolved: bool|
            {
                &&& call_ensures(K::get_events, (backend,), request)
                &&& #[trigger] issued_through(
                    *final(orders),
                    *old(orders),
                    if_resolved(resolved, OnEvents.image(request@)),
                )
            },
{
    let request = backend.get_events();
    let resolved = orders.request(request, OnEvents);
}

/// The list after `msg`: the events that arrived, or the error.
pub fn update(msg: Msg) -> (model: Result<Model, String>)
    ensures
        model == match msg {
            Msg::OnGetEventsResponse(events) => Ok::<Model, String>(events),
            Msg::Error(error) => Err::<Model, String>(error),
        },
{
    match msg {
        Msg::OnGetEventsResponse(events) => Ok(events),
        Msg::Error(error) => Err(error),
    }
}

} // verus!
