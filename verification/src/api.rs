use crate::event::{Event, Id};
use std::future::Future;
use vstd::future::FutureAdditionalSpecFns;
use vstd::prelude::*;

verus! {

/// The operations of the server, as the components of the front end call
/// them. Each answer arrives later, as the output of a future.
pub trait BackendApi {
    type GetEvents: Future<Output = Result<Vec<Event>, String>> + 'static;

    type GetEvent: Future<Output = Result<Event, String>> + 'static;

    type PublishEvent: Future<Output = Result<(), String>> + 'static;

    type JoinEvent: Future<Output = Result<(), String>> + 'static;

    fn get_events(&self) -> Self::GetEvents;

    fn get_event(&self, id: Id) -> Self::GetEvent;

    fn publish_event(&self, name: String) -> Self::PublishEvent;

    fn join_event(&self, id: Id) -> Self::JoinEvent;
}

/// Asks for the event `id` once `joined` has resolved without an error,
/// with `futures::TryFutureExt::and_then`.
///
/// Trusted: an error of `joined` is the answer, and the server is not
/// asked for the event. Otherwise the answer is that of a request which
/// `backend` made for the event `id`.
#[verifier::external_body]
pub(crate) fn and_then_get_event<K: BackendApi + 'static>(
    joined: K::JoinEvent,
    backend: K,
    id: Id,
) -> (answer: impl Future<Output = Result<Event, String>> + 'static)
    ensures
        match joined@ {
            Err(error) => answer@ == Err::<Event, String>(error),
            Ok(_) => exists|request: K::GetEvent| #[trigger]
                call_ensures(K::get_event, (&backend, id), request) && answer@ == request@,
        },
{
    futures::TryFutureExt::and_then(joined, move |_| backend.get_event(id))
}

} // verus!
