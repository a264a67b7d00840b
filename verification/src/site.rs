use crate::api::BackendApi;
use crate::component::{event, event_list, event_publication};
use crate::event::{Event, Id};
use crate::orders::command::CmdResult;
use crate::orders::interface::IMyOrders;
use crate::orders::mapper::Mapper;
use crate::orders::my_orders::{
    if_resolved, issued_by_child, issued_through, nothing_issued, MyOrders,
};
use crate::page;
use crate::pages::event::id_in;
use crate::text::same_text;
use crate::url::Url;
use vstd::future::FutureAdditionalSpecFns;
use vstd::prelude::*;

verus! {

pub enum Page {
    Main(page::main::Model),
    Event(page::event::Model),
}

pub struct Model {
    pub page: Page,
}

pub enum Msg {
    UrlChanged(Url),
    Main(page::main::Msg),
    Event(page::event::Msg),
}

/// The page that a location leads to.
pub enum Route {
    Main,
    Event,
}

/// Wraps the messages of the main page into messages of the site.
pub struct FromMain;

impl Mapper<page::main::Msg, Msg> for FromMain {
    open spec fn wf(&self) -> bool {
        true
    }

    open spec fn image(&self, m: page::main::Msg) -> Msg {
        Msg::Main(m)
    }

    fn apply(&self, m: page::main::Msg) -> (outer: Msg) {
        Msg::Main(m)
    }

    fn duplicate(&self) -> (copy: Self) {
        FromMain
    }
}

/// Wraps the messages of an event's page into messages of the site.
pub struct FromEvent;

impl Mapper<page::event::Msg, Msg> for FromEvent {
    open spec fn wf(&self) -> bool {
        true
    }

    open spec fn image(&self, m: page::event::Msg) -> Msg {
        Msg::Event(m)
    }

    fn apply(&self, m: page::event::Msg) -> (outer: Msg) {
        Msg::Event(m)
    }

    fn duplicate(&self) -> (copy: Self) {
        FromEvent
    }
}

/// Where the next part of a path leads: `event` leads to the page of an
/// event, anything else and the end of the path to the main page.
pub open spec fn route_of(parts: Seq<Seq<char>>, consumed: nat) -> Route {
    if consumed < parts.len() && parts[consumed as int] == "event"@ {
        Route::Event
    } else {
        Route::Main
    }
}

/// How far a path has been read once its next part has been.
pub open spec fn after_one(parts: Seq<Seq<char>>, consumed: nat) -> nat {
    if consumed < parts.len() {
        consumed + 1
    } else {
        consumed
    }
}

/// Reads the route from the next part of `url`.
fn parse_url(url: &mut Url) -> (route: Route)
    ensures
        final(url).parts() == old(url).parts(),
        final(url).consumed() == after_one(old(url).parts(), old(url).consumed()),
        route == route_of(old(url).parts(), old(url).consumed()),
{
    match url.next_path_part() {
        Some(part) => {
            if same_text(part, "event") {
                Route::Event
            } else {
                Route::Main
            }
        },
        None => Route::Main,
    }
}

/// The page `page` and the messages `issued` are what opening the location
/// with the parts `parts`, read up to `consumed`, gives: the main page asks
/// for all events, and the page of an event asks for the event that the
/// part after the route names, or fails if it names none.
pub open spec fn opened(
    parts: Seq<Seq<char>>,
    consumed: nat,
    page: Page,
    issued: Seq<Msg>,
) -> bool {
    match route_of(parts, consumed) {
        Route::Main => {
            &&& page == Page::Main(page::main::Model::Loading)
            &&& exists|from_page: Seq<page::main::Msg>|
                {
                    &&& #[trigger] page::main::asks_for_events(from_page)
                    &&& issued == from_page.map_values(|m: page::main::Msg| FromMain.image(m))
                }
        },
        Route::Event => {
            &&& page matches Page::Event(model)
            &&& exists|from_page: Seq<page::event::Msg>|
                {
                    &&& #[trigger] page::event::opened(
                        parts,
                        after_one(parts, consumed),
                        model,
                        from_page,
                    )
                    &&& issued == from_page.map_values(|m: page::event::Msg| FromEvent.image(m))
                }
        },
    }
}

/// Opens the page that `url` leads to.
fn page_from_url<
    BMs: 'static,
    B: IMyOrders<BMs>,
    T: Mapper<Msg, BMs> + 'static,
    K: BackendApi,
>(url: &mut Url, orders: &mut MyOrders<'_, Msg, BMs, B, T>, backend: &K) -> (page: Page)
    requires
        old(orders).wf(),
    ensures
        final(url).parts() == old(url).parts(),
        *final(final(orders).implementation) == *final(old(orders).implementation),
        exists|issued: Seq<Msg>|
            {
                &&& #[trigger] issued_through(*final(orders), *old(orders), issued)
                &&& opened(old(url).parts(), old(url).consumed(), page, issued)
            },
        match route_of(old(url).parts(), old(url).consumed()) {
            Route::Main => exists|request: K::GetEvents, resolved: bool|
                {
                    &&& call_ensures(K::get_events, (backend,), request)
                    &&& #[trigger] issued_through(
                        *final(orders),
                        *old(orders),
                        if_resolved(
                            resolved,
                            Msg::Main(
                                page::main::Msg::EventList(event_list::OnEvents.image(request@)),
                            ),
                        ),
                    )
                },
            Route::Event => match id_in(
                old(url).parts(),
                after_one(old(url).parts(), old(url).consumed()),
            ) {
                Ok(id) => exists|request: K::GetEvent, resolved: bool|
                    {
                        &&& call_ensures(K::get_event, (backend, id), request)
                        &&& #[trigger] issued_through(
                            *final(orders),
                            *old(orders),
                            if_resolved(
                                resolved,
                                Msg::Event(page::event::Msg::Event(event::OnEvent.image(request@))),
                            ),
                        )
                    },
                Err(_) => true,
            },
        },
{
    let ghost parent = *orders;
    match parse_url(url) {
        Route::Main => {
            let mut child = orders.proxy(FromMain);
            let ghost child_before = child;
            let model = page::main::init(url, &mut child, backend);
            let ghost child_after = child;
            proof {
                let (request, resolved) = choose|request: K::GetEvents, resolved: bool|
                    {
                        &&& call_ensures(K::get_events, (backend,), request)
                        &&& #[trigger] issued_through(
                            child_after,
                            child_before,
                            if_resolved(
                                resolved,
                                page::main::Msg::EventList(event_list::OnEvents.image(request@)),
                            ),
                        )
                    };
                let from_page = if_resolved(
                    resolved,
                    page::main::Msg::EventList(event_list::OnEvents.image(request@)),
                );
                assert(page::main::asks_for_events(from_page));
                issued_by_child(*orders, parent, child_after, child_before, from_page);
                assert(from_page.map_values(|m: page::main::Msg| FromMain.image(m)) == if_resolved(
                    resolved,
                    Msg::Main(page::main::Msg::EventList(event_list::OnEvents.image(request@))),
                ));
            }
            Page::Main(model)
        },
        Route::Event => {
            let ghost parts = url.parts();
            let ghost consumed = url.consumed();
            let mut child = orders.proxy(FromEvent);
            let ghost child_before = child;
            let model = page::event::init(url, &mut child, backend);
            let ghost child_after = child;
            proof {
                let from_page = choose|from_page: Seq<page::event::Msg>|
                    {
                        &&& #[trigger] issued_through(child_after, child_before, from_page)
                        &&& page::event::opened(parts, consumed, model, from_page)
                    };
                issued_by_child(*orders, parent, child_after, child_before, from_page);
                if id_in(parts, consumed) is Ok {
                    let id = id_in(parts, consumed)->Ok_0;
                    let (request, resolved) = choose|request: K::GetEvent, resolved: bool|
                        {
                            &&& call_ensures(K::get_event, (backend, id), request)
                            &&& #[trigger] issued_through(
                                child_after,
                                child_before,
                                if_resolved(
                                    resolved,
                                    page::event::Msg::Event(event::OnEvent.image(request@)),
                                ),
                            )
                        };
                    let asked = if_resolved(
                        resolved,
                        page::event::Msg::Event(event::OnEvent.image(request@)),
                    );
                    issued_by_child(*orders, parent, child_after, child_before, asked);
                    assert(asked.map_values(|m: page::event::Msg| FromEvent.image(m))
                        == if_resolved(
                        resolved,
                        Msg::Event(page::event::Msg::Event(event::OnEvent.image(request@))),
                    ));
                }
            }
            Page::Event(model)
        },
    }
}

/// What the site makes of a change of the location: the message that tells
/// it where it is now.
pub fn on_url_changed(location: Url) -> (result: CmdResult<Msg>)
    ensures
        result == CmdResult::Msg(Msg::UrlChanged(location)),
{
    CmdResult::Msg(Msg::UrlChanged(location))
}

/// Starts the site at `url`. It subscribes to the changes of the location
/// with `on_url_changed`; a back-end that keeps no handlers refuses, and
/// each change is then to be handed to `occurred` with that handler.
pub fn init<BMs: 'static, B: IMyOrders<BMs>, T: Mapper<Msg, BMs> + 'static, K: BackendApi>(
    url: Url,
    orders: &mut MyOrders<'_, Msg, BMs, B, T>,
    backend: &K,
) -> (model: Model)
    requires
        old(orders).wf(),
    ensures
        *final(final(orders).implementation) == *final(old(orders).implementation),
        exists|issued: Seq<Msg>|
            {
                &&& #[trigger] issued_through(*final(orders), *old(orders), issued)
                &&& opened(url.parts(), url.consumed(), model.page, issued)
            },
        match route_of(url.parts(), url.consumed()) {
            Route::Main => exists|request: K::GetEvents, resolved: bool|
                {
                    &&& call_ensures(K::get_events, (backend,), request)
                    &&& #[trigger] issued_through(
                        *final(orders),
                        *old(orders),
                        if_resolved(
                            resolved,
                            Msg::Main(
                                page::main::Msg::EventList(event_list::OnEvents.image(request@)),
                            ),
                        ),
                    )
                },
            Route::Event => match id_in(url.parts(), after_one(url.parts(), url.consumed())) {
                Ok(id) => exists|request: K::GetEvent, resolved: bool|
                    {
                        &&& call_ensures(K::get_event, (backend, id), request)
                        &&& #[trigger] issued_through(
                            *final(orders),
                            *old(orders),
                            if_resolved(
                                resolved,
                                Msg::Event(page::event::Msg::Event(event::OnEvent.image(request@))),
                            ),
                        )
                    },
                Err(_) => true,
            },
        },
{
    let mut url = url;
    let ghost start = *orders;
    let _ = orders.subscribe(on_url_changed);
    let ghost middle = *orders;
    let ghost parts = url.parts();
    let ghost consumed = url.consumed();
    let page = page_from_url(&mut url, orders, backend);
    proof {
        let issued = choose|issued: Seq<Msg>|
            {
                &&& #[trigger] issued_through(*orders, middle, issued)
                &&& opened(parts, consumed, page, issued)
            };
        nothing_issued(start);
        assert(middle.backend().upstream() =~= start.backend().upstream());
        assert(issued_through(middle, start, Seq::<Msg>::empty()));
        crate::orders::my_orders::issued_in_turn(
            start,
            middle,
            *orders,
            Seq::<Msg>::empty(),
            issued,
        );
        assert(Seq::<Msg>::empty() + issued == issued);
        match route_of(parts, consumed) {
            Route::Main => {
                let (request, resolved) = choose|request: K::GetEvents, resolved: bool|
                    {
                        &&& call_ensures(K::get_events, (backend,), request)
                        &&& #[trigger] issued_through(
                            *orders,
                            middle,
                            if_resolved(
                                resolved,
                                Msg::Main(
                                    page::main::Msg::EventList(
                                        event_list::OnEvents.image(request@),
                                    ),
                                ),
                            ),
                        )
                    };
                let asked = if_resolved(
                    resolved,
                    Msg::Main(page::main::Msg::EventList(event_list::OnEvents.image(request@))),
                );
                crate::orders::my_orders::issued_in_turn(
                    start,
                    middle,
                    *orders,
                    Seq::<Msg>::empty(),
                    asked,
                );
                assert(Seq::<Msg>::empty() + asked == asked);
            },
            Route::Event => {
                if id_in(parts, after_one(parts, consumed)) is Ok {
                    let id = id_in(parts, after_one(parts, consumed))->Ok_0;
                    let (request, resolved) = choose|request: K::GetEvent, resolved: bool|
                        {
                            &&& call_ensures(K::get_event, (backend, id), request)
                            &&& #[trigger] issued_through(
                                *orders,
                                middle,
                                if_resolved(
                                    resolved,
                                    Msg::Event(
                                        page::event::Msg::Event(event::OnEvent.image(request@)),
                                    ),
                                ),
                            )
                        };
                    let asked = if_resolved(
                        resolved,
                        Msg::Event(page::event::Msg::Event(event::OnEvent.image(request@))),
                    );
                    crate::orders::my_orders::issued_in_turn(
                        start,
                        middle,
                        *orders,
                        Seq::<Msg>::empty(),
                        asked,
                    );
                    assert(Seq::<Msg>::empty() + asked == asked);
                }
            },
        }
    }
    Model { page }
}

/// The site `after` and the messages `issued` are what `msg` makes of the
/// site `before`: a new location opens the page that it leads to, and a
/// message of a page goes to that page if it is the one shown and is
/// dropped otherwise.
pub open spec fn updated(before: Model, msg: Msg, after: Model, issued: Seq<Msg>) -> bool {
    match (msg, before.page) {
        (Msg::UrlChanged(url), _) => opened(url.parts(), url.consumed(), after.page, issued),
        (Msg::Main(page_msg), Page::Main(shown)) => {
            &&& after.page matches Page::Main(model)
            &&& exists|from_page: Seq<page::main::Msg>|
                {
                    &&& #[trigger] page::main::updated(shown, page_msg, model, from_page)
                    &&& issued == from_page.map_values(|m: page::main::Msg| FromMain.image(m))
                }
        },
        (Msg::Event(page_msg), Page::Event(shown)) => {
            &&& after.page matches Page::Event(model)
            &&& exists|from_page: Seq<page::event::Msg>|
                {
                    &&& #[trigger] page::event::updated(shown, page_msg, model, from_page)
                    &&& issued == from_page.map_values(|m: page::event::Msg| FromEvent.image(m))
                }
        },
        _ => after == before && issued == Seq::<Msg>::empty(),
    }
}

/// Whether `msg` makes the site `before` ask the server for all events
/// again: the main page must be the one shown, and must ask.
pub open spec fn asks_again(before: Model, msg: Msg) -> bool {
    &&& before.page matches Page::Main(shown)
    &&& msg matches Msg::Main(page_msg)
    &&& page::main::asks_again(shown, page_msg)
}

/// The name that `msg` makes the site `before` ask the server to publish,
/// if it makes it ask: the main page must be the one shown.
pub open spec fn name_to_publish(before: Model, msg: Msg) -> Option<String> {
    match (before.page, msg) {
        (Page::Main(shown), Msg::Main(page_msg)) => page::main::name_to_publish(shown, page_msg),
        _ => None,
    }
}

/// The event that `msg` makes the site `before` ask the server to add the
/// user to, if it makes it ask: a click on the join button of the event
/// that is shown.
pub open spec fn event_to_join(before: Model, msg: Msg) -> Option<Id> {
    match (before.page, msg) {
        (Page::Event(shown), Msg::Event(page_msg)) => page::event::event_to_join(shown, page_msg),
        _ => None,
    }
}

/// What the site does with `msg`. Where it asks the server, the message
/// that it issues carries the answer of that request.
pub fn update<
    BMs: 'static,
    B: IMyOrders<BMs>,
    T: Mapper<Msg, BMs> + 'static,
    K: BackendApi + Clone + 'static,
>(msg: Msg, model: &mut Model, orders: &mut MyOrders<'_, Msg, BMs, B, T>, backend: &K)
    requires
        old(orders).wf(),
    ensures
        *final(final(orders).implementation) == *final(old(orders).implementation),
        exists|issued: Seq<Msg>|
            {
                &&& #[trigger] issued_through(*final(orders), *old(orders), issued)
                &&& updated(*old(model), msg, *final(model), issued)
            },
        msg matches Msg::UrlChanged(url) ==> match route_of(url.parts(), url.consumed()) {
            Route::Main => exists|request: K::GetEvents, resolved: bool|
                {
                    &&& call_ensures(K::get_events, (backend,), request)
                    &&& #[trigger] issued_through(
                        *final(orders),
                        *old(orders),
                        if_resolved(
                            resolved,
                            Msg::Main(
                                page::main::Msg::EventList(event_list::OnEvents.image(request@)),
                            ),
                        ),
                    )
                },
            Route::Event => match id_in(url.parts(), after_one(url.parts(), url.consumed())) {
                Ok(id) => exists|request: K::GetEvent, resolved: bool|
                    {
                        &&& call_ensures(K::get_event, (backend, id), request)
                        &&& #[trigger] issued_through(
                            *final(orders),
                            *old(orders),
                            if_resolved(
                                resolved,
                                Msg::Event(page::event::Msg::Event(event::OnEvent.image(request@))),
                            ),
                        )
                    },
                Err(_) => true,
            },
        },
        asks_again(*old(model), msg) ==> exists|request: K::GetEvents, resolved: bool|
            {
                &&& call_ensures(K::get_events, (backend,), request)
                &&& #[trigger] issued_through(
                    *final(orders),
                    *old(orders),
                    if_resolved(
                        resolved,
                        Msg::Main(page::main::Msg::EventList(event_list::OnEvents.image(request@))),
                    ),
                )
            },
        name_to_publish(*old(model), msg) matches Some(name) ==> exists|
            request: K::PublishEvent,
            resolved: bool,
        |
            {
                &&& call_ensures(K::publish_event, (backend, name), request)
                &&& #[trigger] issued_through(
                    *final(orders),
                    *old(orders),
                    if_resolved(
                        resolved,
                        Msg::Main(
                            page::main::Msg::EventPublication(
                                event_publication::OnPublished.image(request@),
                            ),
                        ),
                    ),
                )
            },
        event_to_join(*old(model), msg) matches Some(id) ==> exists|
            joined: K::JoinEvent,
            answer: Result<Event, String>,
            resolved: bool,
        |
            {
                &&& #[trigger] call_ensures(K::join_event, (backend, id), joined)
                &&& match joined@ {
                    Err(error) => answer == Err::<Event, String>(error),
                    Ok(_) => exists|server: K, request: K::GetEvent| #[trigger]
                        call_ensures(K::get_event, (&server, id), request) && answer == request@,
                }
                &&& #[trigger] issued_through(
                    *final(orders),
                    *old(orders),
                    if_resolved(
                        resolved,
                        Msg::Event(page::event::Msg::Event(event::OnEvent.image(answer))),
                    ),
                )
            },
{
    let ghost parent = *orders;
    match msg {
        Msg::UrlChanged(url) => {
            let mut url = url;
            model.page = page_from_url(&mut url, orders, backend);
        },
        Msg::Main(main_msg) => {
            match &mut model.page {
                Page::Main(main_model) => {
                    let ghost shown = *main_model;
                    let mut child = orders.proxy(FromMain);
                    let ghost child_before = child;
                    let next = page::main::update(main_msg, main_model, &mut child, backend);
                    let ghost child_after = child;
                    proof {
                        let from_page = choose|from_page: Seq<page::main::Msg>|
                            {
                                &&& #[trigger] issued_through(child_after, child_before, from_page)
                                &&& page::main::updated(shown, main_msg, next, from_page)
                            };
                        issued_by_child(*orders, parent, child_after, child_before, from_page);
                        if page::main::asks_again(shown, main_msg) {
                            let (request, resolved) = choose|
                                request: K::GetEvents,
                                resolved: bool,
                            |
                                {
                                    &&& call_ensures(K::get_events, (backend,), request)
                                    &&& #[trigger] issued_through(
                                        child_after,
                                        child_before,
                                        if_resolved(
                                            resolved,
                                            page::main::Msg::EventList(
                                                event_list::OnEvents.image(request@),
                                            ),
                                        ),
                                    )
                                };
                            let inner = if_resolved(
                                resolved,
                                page::main::Msg::EventList(event_list::OnEvents.image(request@)),
                            );
                            issued_by_child(*orders, parent, child_after, child_before, inner);
                            assert(inner.map_values(|m: page::main::Msg| FromMain.image(m))
                                == if_resolved(
                                resolved,
                                Msg::Main(
                                    page::main::Msg::EventList(
                                        event_list::OnEvents.image(request@),
                                    ),
                                ),
                            ));
                        }
                        if page::main::name_to_publish(shown, main_msg) is Some {
                            let name = page::main::name_to_publish(shown, main_msg)->Some_0;
                            let (request, resolved) = choose|
                                request: K::PublishEvent,
                                resolved: bool,
                            |
                                {
                                    &&& call_ensures(K::publish_event, (backend, name), request)
                                    &&& #[trigger] issued_through(
                                        child_after,
                                        child_before,
                                        if_resolved(
                                            resolved,
                                            page::main::Msg::EventPublication(
                                                event_publication::OnPublished.image(request@),
                                            ),
                                        ),
                                    )
                                };
                            let inner = if_resolved(
                                resolved,
                                page::main::Msg::EventPublication(
                                    event_publication::OnPublished.image(request@),
                                ),
                            );
                            issued_by_child(*orders, parent, child_after, child_before, inner);
                            assert(inner.map_values(|m: page::main::Msg| FromMain.image(m))
                                == if_resolved(
                                resolved,
                                Msg::Main(
                                    page::main::Msg::EventPublication(
                                        event_publication::OnPublished.image(request@),
                                    ),
                                ),
                            ));
                        }
                    }
                    *main_model = next;
                },
                _ => {
                    proof {
                        nothing_issued(*orders);
                    }
                },
            }
        },
        Msg::Event(event_msg) => {
            match &mut model.page {
                Page::Event(event_model) => {
                    let ghost shown = *event_model;
                    let mut child = orders.proxy(FromEvent);
                    let ghost child_before = child;
                    let next = page::event::update(event_msg, event_model, &mut child, backend);
                    let ghost child_after = child;
                    proof {
                        let from_page = choose|from_page: Seq<page::event::Msg>|
                            {
                                &&& #[trigger] issued_through(child_after, child_before, from_page)
                                &&& page::event::updated(shown, event_msg, next, from_page)
                            };
                        issued_by_child(*orders, parent, child_after, child_before, from_page);
                        if page::event::event_to_join(shown, event_msg) is Some {
                            let id = page::event::event_to_join(shown, event_msg)->Some_0;
                            let (joined, answer, resolved) = choose|
                                joined: K::JoinEvent,
                                answer: Result<Event, String>,
                                resolved: bool,
                            |
                                {
                                    &&& #[trigger] call_ensures(
                                        K::join_event,
                                        (backend, id),
                                        joined,
                                    )
                                    &&& match joined@ {
                                        Err(error) => answer == Err::<Event, String>(error),
                                        Ok(_) => exists|server: K, request: K::GetEvent| #[trigger]
                                            call_ensures(K::get_event, (&server, id), request)
                                                && answer == request@,
                                    }
                                    &&& #[trigger] issued_through(
                                        child_after,
                                        child_before,
                                        if_resolved(
                                            resolved,
                                            page::event::Msg::Event(event::OnEvent.image(answer)),
                                        ),
                                    )
                                };
                            let inner = if_resolved(
                                resolved,
                                page::event::Msg::Event(event::OnEvent.image(answer)),
                            );
                            issued_by_child(*orders, parent, child_after, child_before, inner);
                            assert(inner.map_values(|m: page::event::Msg| FromEvent.image(m))
                                == if_resolved(
                                resolved,
                                Msg::Event(page::event::Msg::Event(event::OnEvent.image(answer))),
                            ));
                        }
                    }
                    *event_model = next;
                },
                _ => {
                    proof {
                        nothing_issued(*orders);
                    }
                },
            }
        },
    }
}

} // verus!
