use crate::api::BackendApi;
use crate::event::{Event, Id};
use crate::molecules::event_publication_form::OnPublished;
use crate::orders::interface::IMyOrders;
use crate::orders::mapper::Mapper;
use crate::orders::my_orders::{
    if_resolved, issued_by_child, issued_through, nothing_issued, MyOrders,
};
use crate::pages;
use crate::text::same_text;
use crate::url::Url;
use vstd::future::FutureAdditionalSpecFns;
use vstd::prelude::*;

verus! {

/// What every component of the application can read and change.
pub struct Context<K> {
    pub username: Option<String>,
    pub backend: K,
}

pub enum Page {
    Main(pages::main::Model),
    Event(pages::event::Model),
    Login(pages::login::Model),
}

pub struct Model<K> {
    pub page: Page,
    pub current_url: Url,
    pub context: Context<K>,
}

pub enum AppMsg {
    UrlChanged(Url),
    Main(pages::main::Msg),
    Event(pages::event::Msg),
    Login(pages::login::Msg),
}

/// The page that a location leads to.
pub enum Route {
    Main,
    Event,
    Login,
}

/// Wraps the messages of the main page into messages of the application.
pub struct FromMain;

impl Mapper<pages::main::Msg, AppMsg> for FromMain {
    open spec fn wf(&self) -> bool {
        true
    }

    open spec fn image(&self, m: pages::main::Msg) -> AppMsg {
        AppMsg::Main(m)
    }

    fn apply(&self, m: pages::main::Msg) -> (outer: AppMsg) {
        AppMsg::Main(m)
    }

    fn duplicate(&self) -> (copy: Self) {
        FromMain
    }
}

/// Wraps the messages of an event's page into messages of the application.
pub struct FromEvent;

impl Mapper<pages::event::Msg, AppMsg> for FromEvent {
    open spec fn wf(&self) -> bool {
        true
    }

    open spec fn image(&self, m: pages::event::Msg) -> AppMsg {
        AppMsg::Event(m)
    }

    fn apply(&self, m: pages::event::Msg) -> (outer: AppMsg) {
        AppMsg::Event(m)
    }

    fn duplicate(&self) -> (copy: Self) {
        FromEvent
    }
}

/// Wraps the messages of the login page into messages of the application.
pub struct FromLogin;

impl Mapper<pages::login::Msg, AppMsg> for FromLogin {
    open spec fn wf(&self) -> bool {
        true
    }

    open spec fn image(&self, m: pages::login::Msg) -> AppMsg {
        AppMsg::Login(m)
    }

    fn apply(&self, m: pages::login::Msg) -> (outer: AppMsg) {
        AppMsg::Login(m)
    }

    fn duplicate(&self) -> (copy: Self) {
        FromLogin
    }
}

/// Where the next part of a path leads: `event` and `login` lead to their
/// pages, anything else and the end of the path to the main page.
pub open spec fn route_of(parts: Seq<Seq<char>>, consumed: nat) -> Route {
    if consumed < parts.len() && parts[consumed as int] == "event"@ {
        Route::Event
    } else if consumed < parts.len() && parts[consumed as int] == "login"@ {
        Route::Login
    } else {
        Route::Main
    }
}

/// How far a path has been read once its next part has been.
pub open spec fn after_one(parts: Seq<Seq<char>>, consumed: nat) -> nat {
    if consumed < parts.len() {
        consumed + 1
    } else {
        consumed
    }
}

/// Reads the route from the next part of `url`.
fn parse_url(url: &mut Url) -> (route: Route)
    ensures
        final(url).parts() == old(url).parts(),
        final(url).consumed() == after_one(old(url).parts(), old(url).consumed()),
        route == route_of(old(url).parts(), old(url).consumed()),
{
    match url.next_path_part() {
        Some(part) => {
            if same_text(part, "event") {
                Route::Event
            } else if same_text(part, "login") {
                Route::Login
            } else {
                Route::Main
            }
        },
        None => Route::Main,
    }
}

/// The page `page` and the messages `issued` are what opening the location
/// with the parts `parts`, read up to `consumed`, gives: the main page asks
/// for all events, the page of an event asks for the event that the part
/// after the route names or fails if it names none, and the login page
/// remembers `previous` as the location to go back to.
pub open spec fn opened<K>(
    parts: Seq<Seq<char>>,
    consumed: nat,
    previous: Option<Url>,
    context: Context<K>,
    page: Page,
    issued: Seq<AppMsg>,
) -> bool {
    match route_of(parts, consumed) {
        Route::Main => {
            &&& page matches Page::Main(model)
            &&& model.state is Loading
            &&& exists|answer: Result<Vec<Event>, String>, resolved: bool|
                issued == #[trigger] if_resolved(
                    resolved,
                    AppMsg::Main(pages::main::OnEvents.image(answer)),
                )
        },
        Route::Event => {
            &&& page matches Page::Event(model)
            &&& match pages::event::id_in(parts, after_one(parts, consumed)) {
                Ok(_) => {
                    &&& model.state is Loading
                    &&& exists|answer: Result<Event, String>, resolved: bool|
                        issued == #[trigger] if_resolved(
                            resolved,
                            AppMsg::Event(pages::event::OnEvent.image(answer)),
                        )
                },
                Err(reason) => {
                    &&& model.state matches pages::event::State::Failed(shown) && shown@ == reason
                    &&& issued == Seq::<AppMsg>::empty()
                },
            }
        },
        Route::Login => {
            &&& page matches Page::Login(model)
            &&& pages::login::is_initial(model, previous, context.username)
            &&& issued == Seq::<AppMsg>::empty()
        },
    }
}

/// Opens the page that `url` leads to.
fn page_from_url<
    BMs: 'static,
    B: IMyOrders<BMs>,
    T: Mapper<AppMsg, BMs> + 'static,
    K: BackendApi + Clone + 'static,
>(
    url: &mut Url,
    previous_url: Option<Url>,
    context: &Context<K>,
    orders: &mut MyOrders<'_, AppMsg, BMs, B, T>,
) -> (page: Page)
    requires
        old(orders).wf(),
    ensures
        final(url).parts() == old(url).parts(),
        *final(final(orders).implementation) == *final(old(orders).implementation),
        exists|issued: Seq<AppMsg>|
            {
                &&& #[trigger] issued_through(*final(orders), *old(orders), issued)
                &&& opened(
                    old(url).parts(),
                    old(url).consumed(),
                    previous_url,
                    *context,
                    page,
                    issued,
                )
            },
        match route_of(old(url).parts(), old(url).consumed()) {
            Route::Main => exists|request: K::GetEvents, resolved: bool|
                {
                    &&& call_ensures(K::get_events, (&context.backend,), request)
                    &&& #[trigger] issued_through(
                        *final(orders),
                        *old(orders),
                        if_resolved(resolved, AppMsg::Main(pages::main::OnEvents.image(request@))),
                    )
                },
            Route::Event => match pages::event::id_in(
                old(url).parts(),
                after_one(old(url).parts(), old(url).consumed()),
            ) {
                Ok(id) => exists|request: K::GetEvent, resolved: bool|
                    {
                        &&& call_ensures(K::get_event, (&context.backend, id), request)
                        &&& #[trigger] issued_through(
                            *final(orders),
                            *old(orders),
                            if_resolved(
                                resolved,
                                AppMsg::Event(pages::event::OnEvent.image(request@)),
                            ),
                        )
                    },
                Err(_) => true,
            },
            Route::Login => true,
        },
{
    let ghost parent = *orders;
    match parse_url(url) {
        Route::Main => {
            let mut child = orders.proxy(FromMain);
            let ghost child_before = child;
            let model = pages::main::init(url, context, &mut child);
            let ghost child_after = child;
            proof {
                let (request, resolved) = choose|request: K::GetEvents, resolved: bool|
                    {
                        &&& call_ensures(K::get_events, (&context.backend,), request)
                        &&& #[trigger] issued_through(
                            child_after,
                            child_before,
                            if_resolved(resolved, pages::main::OnEvents.image(request@)),
                        )
                    };
                let from_page = if_resolved(resolved, pages::main::OnEvents.image(request@));
                issued_by_child(*orders, parent, child_after, child_before, from_page);
                assert(from_page.map_values(|m: pages::main::Msg| FromMain.image(m))
                    == if_resolved(resolved, AppMsg::Main(pages::main::OnEvents.image(request@))));
            }
            Page::Main(model)
        },
        Route::Event => {
            let mut child = orders.proxy(FromEvent);
            let ghost child_before = child;
            let ghost id = pages::event::id_in(url.parts(), url.consumed());
            let model = pages::event::init(url, context, &mut child);
            let ghost child_after = child;
            proof {
                if id is Ok {
                    let (request, resolved) = choose|request: K::GetEvent, resolved: bool|
                        {
                            &&& call_ensures(K::get_event, (&context.backend, id->Ok_0), request)
                            &&& #[trigger] issued_through(
                                child_after,
                                child_before,
                                if_resolved(resolved, pages::event::OnEvent.image(request@)),
                            )
                        };
                    let from_page = if_resolved(resolved, pages::event::OnEvent.image(request@));
                    issued_by_child(*orders, parent, child_after, child_before, from_page);
                    assert(from_page.map_values(|m: pages::event::Msg| FromEvent.image(m))
                        == if_resolved(
                        resolved,
                        AppMsg::Event(pages::event::OnEvent.image(request@)),
                    ));
                } else {
                    let from_page = Seq::<pages::event::Msg>::empty();
                    issued_by_child(*orders, parent, child_after, child_before, from_page);
                    assert(from_page.map_values(|m: pages::event::Msg| FromEvent.image(m))
                        == Seq::<AppMsg>::empty());
                }
            }
            Page::Event(model)
        },
        Route::Login => {
            let model = pages::login::init(url, previous_url, context);
            proof {
                nothing_issued(*orders);
            }
            Page::Login(model)
        },
    }
}

/// Starts the application at `url`, with no user signed in. What the page
/// that opens asks the server comes back as the answer of that request.
pub fn testable_init<
    BMs: 'static,
    B: IMyOrders<BMs>,
    T: Mapper<AppMsg, BMs> + 'static,
    K: BackendApi + Clone + 'static,
>(url: Url, orders: &mut MyOrders<'_, AppMsg, BMs, B, T>, backend: K) -> (model: Model<K>)
    requires
        old(orders).wf(),
    ensures
        model.context.username is None,
        model.context.backend == backend,
        model.current_url.parts() == url.parts(),
        model.current_url.consumed() == url.consumed(),
        *final(final(orders).implementation) == *final(old(orders).implementation),
        exists|issued: Seq<AppMsg>|
            {
                &&& #[trigger] issued_through(*final(orders), *old(orders), issued)
                &&& opened(
                    url.parts(),
                    url.consumed(),
                    None,
                    model.context,
                    model.page,
                    issued,
                )
            },
        match route_of(url.parts(), url.consumed()) {
            Route::Main => exists|request: K::GetEvents, resolved: bool|
                {
                    &&& call_ensures(K::get_events, (&backend,), request)
                    &&& #[trigger] issued_through(
                        *final(orders),
                        *old(orders),
                        if_resolved(resolved, AppMsg::Main(pages::main::OnEvents.image(request@))),
                    )
                },
            Route::Event => match pages::event::id_in(
                url.parts(),
                after_one(url.parts(), url.consumed()),
            ) {
                Ok(id) => exists|request: K::GetEvent, resolved: bool|
                    {
                        &&& call_ensures(K::get_event, (&backend, id), request)
                        &&& #[trigger] issued_through(
                            *final(orders),
                            *old(orders),
                            if_resolved(
                                resolved,
                                AppMsg::Event(pages::event::OnEvent.image(request@)),
                            ),
                        )
                    },
                Err(_) => true,
            },
            Route::Login => true,
        },
{
    let mut url = url;
    let context = Context { username: None, backend };
    let current_url = url.duplicate();
    let page = page_from_url(&mut url, None, &context, orders);
    Model { page, current_url, context }
}

/// The application `after` and the messages `issued` are what `msg` makes
/// of the application `before`.
///
/// A new location opens the page that it leads to. A message of a page
/// goes to that page if it is the one shown, and is dropped otherwise;
/// what the page issues comes back wrapped. Only the login page speaks to
/// the application itself: a user who has logged in is recorded, and if
/// there is a location to go back to, the application is notified of it,
/// provided that the back-end takes notifications, which `notifies` says.
pub open spec fn updated<K>(
    before: Model<K>,
    msg: AppMsg,
    after: Model<K>,
    issued: Seq<AppMsg>,
    notifies: bool,
) -> bool {
    &&& after.context.backend == before.context.backend
    &&& match msg {
        AppMsg::UrlChanged(url) => {
            &&& after.context == before.context
            &&& after.current_url.parts() == url.parts()
            &&& after.current_url.consumed() == url.consumed()
            &&& exists|previous: Url|
                {
                    &&& previous.parts() == before.current_url.parts()
                    &&& previous.consumed() == before.current_url.consumed()
                    &&& #[trigger] opened(
                        url.parts(),
                        url.consumed(),
                        Some(previous),
                        before.context,
                        after.page,
                        issued,
                    )
                }
        },
        AppMsg::Main(page_msg) => {
            &&& after.current_url == before.current_url
            &&& match before.page {
                Page::Main(shown) => {
                    &&& after.page matches Page::Main(model)
                    &&& exists|from_page: Seq<pages::main::Msg>|
                        {
                            &&& #[trigger] pages::main::updated(
                                shown,
                                before.context,
                                page_msg,
                                model,
                                after.context,
                                from_page,
                            )
                            &&& issued == from_page.map_values(
                                |m: pages::main::Msg| FromMain.image(m),
                            )
                        }
                },
                _ => after == before && issued == Seq::<AppMsg>::empty(),
            }
        },
        AppMsg::Event(page_msg) => {
            &&& after.current_url == before.current_url
            &&& match before.page {
                Page::Event(shown) => {
                    &&& after.page matches Page::Event(model)
                    &&& exists|from_page: Seq<pages::event::Msg>|
                        {
                            &&& #[trigger] pages::event::updated(
                                shown,
                                before.context,
                                page_msg,
                                model,
                                after.context,
                                from_page,
                            )
                            &&& issued == from_page.map_values(
                                |m: pages::event::Msg| FromEvent.image(m),
                            )
                        }
                },
                _ => after == before && issued == Seq::<AppMsg>::empty(),
            }
        },
        AppMsg::Login(page_msg) => {
            &&& after.current_url == before.current_url
            &&& match (before.page, page_msg) {
                (
                    Page::Login(shown),
                    pages::login::Msg::Public(pages::login::PublicMsg::LoggedIn(username, target)),
                ) => {
                    &&& after.page == before.page
                    &&& after.context.username == Some(username)
                    &&& match target {
                        Some(url) if notifies => exists|fresh: Url|
                            {
                                &&& #[trigger] fresh.parts() == url.parts()
                                &&& fresh.consumed() == 0
                                &&& issued == seq![AppMsg::UrlChanged(fresh)]
                            },
                        _ => issued == Seq::<AppMsg>::empty(),
                    }
                },
                (Page::Login(shown), pages::login::Msg::Private(private)) => {
                    &&& after.page matches Page::Login(model)
                    &&& exists|from_page: Seq<pages::login::Msg>|
                        {
                            &&& #[trigger] pages::login::updated(
                                shown,
                                before.context,
                                private,
                                model,
                                after.context,
                                from_page,
                            )
                            &&& issued == from_page.map_values(
                                |m: pages::login::Msg| FromLogin.image(m),
                            )
                        }
                },
                _ => after == before && issued == Seq::<AppMsg>::empty(),
            }
        },
    }
}

/// The name that `msg` makes the application `before` ask the server to
/// publish, if it makes it ask: the main page must be the one shown.
pub open spec fn name_to_publish<K>(before: Model<K>, msg: AppMsg) -> Option<String> {
    match (before.page, msg) {
        (Page::Main(shown), AppMsg::Main(page_msg)) => pages::main::name_to_publish(
            shown,
            page_msg,
        ),
        _ => None,
    }
}

/// The event that `msg` makes the application `before` ask the server to
/// add the user to, if it makes it ask: a click on the join button of the
/// event that is shown.
pub open spec fn event_to_join<K>(before: Model<K>, msg: AppMsg) -> Option<Id> {
    match (before.page, msg) {
        (Page::Event(shown), AppMsg::Event(page_msg)) => pages::event::event_to_join(
            shown,
            page_msg,
        ),
        _ => None,
    }
}

/// Whether `msg` makes the application `before` ask the server for all
/// events again: the form of the loaded main page says that an event has
/// been published.
pub open spec fn asks_again<K>(before: Model<K>, msg: AppMsg) -> bool {
    &&& before.page matches Page::Main(shown)
    &&& msg matches AppMsg::Main(page_msg)
    &&& pages::main::asks_again(shown, page_msg)
}

/// What the application does with `msg`. Where it asks the server, the
/// message that it issues carries the answer of that request.
pub fn testable_update<
    BMs: 'static,
    B: IMyOrders<BMs>,
    T: Mapper<AppMsg, BMs> + 'static,
    K: BackendApi + Clone + 'static,
>(msg: AppMsg, model: &mut Model<K>, orders: &mut MyOrders<'_, AppMsg, BMs, B, T>)
    requires
        old(orders).wf(),
    ensures
        *final(final(orders).implementation) == *final(old(orders).implementation),
        exists|issued: Seq<AppMsg>|
            {
                &&& #[trigger] issued_through(*final(orders), *old(orders), issued)
                &&& updated(
                    *old(model),
                    msg,
                    *final(model),
                    issued,
                    old(orders).backend().scope().supports_notify,
                )
            },
        msg matches AppMsg::UrlChanged(url) ==> match route_of(url.parts(), url.consumed()) {
            Route::Main => exists|request: K::GetEvents, resolved: bool|
                {
                    &&& call_ensures(K::get_events, (&old(model).context.backend,), request)
                    &&& #[trigger] issued_through(
                        *final(orders),
                        *old(orders),
                        if_resolved(resolved, AppMsg::Main(pages::main::OnEvents.image(request@))),
                    )
                },
            Route::Event => match pages::event::id_in(
                url.parts(),
                after_one(url.parts(), url.consumed()),
            ) {
                Ok(id) => exists|request: K::GetEvent, resolved: bool|
                    {
                        &&& call_ensures(
                            K::get_event,
                            (&old(model).context.backend, id),
                            request,
                        )
                        &&& #[trigger] issued_through(
                            *final(orders),
                            *old(orders),
                            if_resolved(
                                resolved,
                                AppMsg::Event(pages::event::OnEvent.image(request@)),
                            ),
                        )
                    },
                Err(_) => true,
            },
            Route::Login => true,
        },
        asks_again(*old(model), msg) ==> exists|request: K::GetEvents, resolved: bool|
            {
                &&& call_ensures(K::get_events, (&old(model).context.backend,), request)
                &&& #[trigger] issued_through(
                    *final(orders),
                    *old(orders),
                    if_resolved(resolved, AppMsg::Main(pages::main::OnEvents.image(request@))),
                )
            },
        name_to_publish(*old(model), msg) matches Some(name) ==> exists|
            request: K::PublishEvent,
            resolved: bool,
        |
            {
                &&& call_ensures(K::publish_event, (&old(model).context.backend, name), request)
                &&& #[trigger] issued_through(
                    *final(orders),
                    *old(orders),
                    if_resolved(
                        resolved,
                        AppMsg::Main(
                            pages::main::Msg::EventPublication(
                                OnPublished.image(request@),
                            ),
                        ),
                    ),
                )
            },
        event_to_join(*old(model), msg) matches Some(id) ==> exists|
            joined: K::JoinEvent,
            answer: Result<Event, String>,
            resolved: bool,
        |
            {
                &&& #[trigger] call_ensures(
                    K::join_event,
                    (&old(model).context.backend, id),
                    joined,
                )
                &&& match joined@ {
                    Err(error) => answer == Err::<Event, String>(error),
                    Ok(_) => exists|server: K, request: K::GetEvent| #[trigger]
                        call_ensures(K::get_event, (&server, id), request) && answer == request@,
                }
                &&& #[trigger] issued_through(
                    *final(orders),
                    *old(orders),
                    if_resolved(resolved, AppMsg::Event(pages::event::OnEvent.image(answer))),
                )
            },
{
    let ghost parent = *orders;
    match msg {
        AppMsg::UrlChanged(new_url) => {
            let mut new_url = new_url;
            let previous_url = Some(model.current_url.duplicate());
            model.current_url = new_url.duplicate();
            model.page = page_from_url(&mut new_url, previous_url, &model.context, orders);
        },
        AppMsg::Main(main_msg) => {
            match &mut model.page {
                Page::Main(main_model) => {
                    let ghost shown = *main_model;
                    let mut child = orders.proxy(FromMain);
                    let ghost child_before = child;
                    pages::main::update(main_msg, main_model, &mut model.context, &mut child);
                    let ghost child_after = child;
                    proof {
                        let from_page = choose|from_page: Seq<pages::main::Msg>|
                            {
                                &&& #[trigger] issued_through(child_after, child_before, from_page)
                                &&& pages::main::updated(
                                    shown,
                                    old(model).context,
                                    main_msg,
                                    *main_model,
                                    model.context,
                                    from_page,
                                )
                            };
                        issued_by_child(*orders, parent, child_after, child_before, from_page);
                        if asks_again(*old(model), msg) {
                            let (request, resolved) = choose|
                                request: K::GetEvents,
                                resolved: bool,
                            |
                                {
                                    &&& call_ensures(
                                        K::get_events,
                                        (&old(model).context.backend,),
                                        request,
                                    )
                                    &&& #[trigger] issued_through(
                                        child_after,
                                        child_before,
                                        if_resolved(
                                            resolved,
                                            pages::main::OnEvents.image(request@),
                                        ),
                                    )
                                };
                            let inner = if_resolved(
                                resolved,
                                pages::main::OnEvents.image(request@),
                            );
                            issued_by_child(*orders, parent, child_after, child_before, inner);
                            assert(inner.map_values(|m: pages::main::Msg| FromMain.image(m))
                                == if_resolved(
                                resolved,
                                AppMsg::Main(pages::main::OnEvents.image(request@)),
                            ));
                        }
                        if pages::main::name_to_publish(shown, main_msg) is Some {
                            let name = pages::main::name_to_publish(shown, main_msg)->Some_0;
                            let (request, resolved) = choose|
                                request: K::PublishEvent,
                                resolved: bool,
                            |
                                {
                                    &&& call_ensures(
                                        K::publish_event,
                                        (&old(model).context.backend, name),
                                        request,
                                    )
                                    &&& #[trigger] issued_through(
                                        child_after,
                                        child_before,
                                        if_resolved(
                                            resolved,
                                            pages::main::Msg::EventPublication(
                                                OnPublished.image(request@),
                                            ),
                                        ),
                                    )
                                };
                            let inner = if_resolved(
                                resolved,
                                pages::main::Msg::EventPublication(OnPublished.image(request@)),
                            );
                            issued_by_child(*orders, parent, child_after, child_before, inner);
                            assert(inner.map_values(|m: pages::main::Msg| FromMain.image(m))
                                == if_resolved(
                                resolved,
                                AppMsg::Main(
                                    pages::main::Msg::EventPublication(OnPublished.image(request@)),
                                ),
                            ));
                        }
                    }
                },
                _ => {
                    proof {
                        nothing_issued(*orders);
                    }
                },
            }
        },
        AppMsg::Event(event_msg) => {
            match &mut model.page {
                Page::Event(event_model) => {
                    let ghost shown = *event_model;
                    let mut child = orders.proxy(FromEvent);
                    let ghost child_before = child;
                    pages::event::update(event_msg, event_model, &mut model.context, &mut child);
                    let ghost child_after = child;
                    proof {
                        let from_page = choose|from_page: Seq<pages::event::Msg>|
                            {
                                &&& #[trigger] issued_through(child_after, child_before, from_page)
                                &&& pages::event::updated(
                                    shown,
                                    old(model).context,
                                    event_msg,
                                    *event_model,
                                    model.context,
                                    from_page,
                                )
                            };
                        issued_by_child(*orders, parent, child_after, child_before, from_page);
                        if event_to_join(*old(model), msg) is Some {
                            let id = event_to_join(*old(model), msg)->Some_0;
                            let (joined, answer, resolved) = choose|
                                joined: K::JoinEvent,
                                answer: Result<Event, String>,
                                resolved: bool,
                            |
                                {
                                    &&& #[trigger] call_ensures(
                                        K::join_event,
                                        (&old(model).context.backend, id),
                                        joined,
                                    )
                                    &&& match joined@ {
                                        Err(error) => answer == Err::<Event, String>(error),
                                        Ok(_) => exists|server: K, request: K::GetEvent| #[trigger]
                                            call_ensures(K::get_event, (&server, id), request)
                                                && answer == request@,
                                    }
                                    &&& #[trigger] issued_through(
                                        child_after,
                                        child_before,
                                        if_resolved(resolved, pages::event::OnEvent.image(answer)),
                                    )
                                };
                            let inner = if_resolved(resolved, pages::event::OnEvent.image(answer));
                            issued_by_child(*orders, parent, child_after, child_before, inner);
                            assert(inner.map_values(|m: pages::event::Msg| FromEvent.image(m))
                                == if_resolved(
                                resolved,
                                AppMsg::Event(pages::event::OnEvent.image(answer)),
                            ));
                        }
                    }
                },
                _ => {
                    proof {
                        nothing_issued(*orders);
                    }
                },
            }
        },
        AppMsg::Login(login_msg) => {
            match &mut model.page {
                Page::Login(login_model) => match login_msg {
                    pages::login::Msg::Public(msg) => match msg {
                        pages::login::PublicMsg::LoggedIn(username, url) => {
                            model.context.username = Some(username);
                            match url {
                                Some(url) => change_url(url, orders),
                                None => {
                                    proof {
                                        nothing_issued(*orders);
                                    }
                                },
                            }
                        },
                    },
                    pages::login::Msg::Private(msg) => {
                        let ghost shown = *login_model;
                        let mut child = orders.proxy(FromLogin);
                        let ghost child_before = child;
                        pages::login::update(msg, login_model, &mut model.context, &mut child);
                        let ghost child_after = child;
                        proof {
                            let from_page = choose|from_page: Seq<pages::login::Msg>|
                                {
                                    &&& #[trigger] issued_through(
                                        child_after,
                                        child_before,
                                        from_page,
                                    )
                                    &&& pages::login::updated(
                                        shown,
                                        old(model).context,
                                        msg,
                                        *login_model,
                                        model.context,
                                        from_page,
                                    )
                                };
                            issued_by_child(*orders, parent, child_after, child_before, from_page);
                        }
                    },
                },
                _ => {
                    proof {
                        nothing_issued(*orders);
                    }
                },
            }
        },
    }
}

/// Notifies the application that the location is now `url`, to be read
/// from its first part.
fn change_url<BMs: 'static, B: IMyOrders<BMs>, T: Mapper<AppMsg, BMs> + 'static>(
    url: Url,
    orders: &mut MyOrders<'_, AppMsg, BMs, B, T>,
)
    requires
        old(orders).wf(),
    ensures
        *final(final(orders).implementation) == *final(old(orders).implementation),
        exists|fresh: Url|
            {
                &&& #[trigger] fresh.parts() == url.parts()
                &&& fresh.consumed() == 0
                &&& issued_through(
                    *final(orders),
                    *old(orders),
                    if old(orders).backend().scope().supports_notify {
                        seq![AppMsg::UrlChanged(fresh)]
                    } else {
                        Seq::empty()
                    },
                )
            },
{
    let text = url.to_string();
    let fresh = match Url::from_str(text.as_str()) {
        Ok(fresh) => fresh,
        Err(_) => url,
    };
    let _ = orders.notify_msg(AppMsg::UrlChanged(fresh));
}

} // verus!
