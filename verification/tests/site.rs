use join_my_ride::api::BackendApi;
use join_my_ride::backend::Backend;
use join_my_ride::component::event_publication::{Form, Model as FormModel, Msg as FormMsg};
use join_my_ride::component::{event, event_list, event_publication};
use join_my_ride::event::{Event, Id};
use join_my_ride::orders::{IMyOrders, MyOrders, OrdersMock, OrdersStub, Pass, Reducer};
use join_my_ride::page;
use join_my_ride::site::{init, on_url_changed, update, Model, Msg, Page};
use join_my_ride::url::Url;
use std::cell::RefCell;
use std::future::Future;
use std::pin::Pin;
use std::rc::Rc;

type Answer<T> = Pin<Box<dyn Future<Output = Result<T, String>>>>;

fn id_text(id: Id) -> String {
    uuid::Uuid::from_u128(id).to_string()
}

#[derive(Clone)]
struct Server {
    backend: Rc<RefCell<Backend>>,
    refuse_publication: bool,
}

impl Server {
    fn new() -> Server {
        Server { backend: Rc::new(RefCell::new(Backend::new())), refuse_publication: false }
    }

    fn event_id(&self, index: usize) -> Id {
        self.backend.borrow().get_events()[index].id()
    }
}

impl BackendApi for Server {
    type GetEvents = Answer<Vec<Event>>;
    type GetEvent = Answer<Event>;
    type PublishEvent = Answer<()>;
    type JoinEvent = Answer<()>;

    fn get_events(&self) -> Answer<Vec<Event>> {
        let backend = self.backend.clone();
        Box::pin(async move { Ok(backend.borrow().get_events()) })
    }

    fn get_event(&self, id: Id) -> Answer<Event> {
        let backend = self.backend.clone();
        Box::pin(async move {
            backend.borrow().find(id).ok_or(format!("could not find event with id {}", id_text(id)))
        })
    }

    fn publish_event(&self, name: String) -> Answer<()> {
        let backend = self.backend.clone();
        let refuse = self.refuse_publication;
        Box::pin(async move {
            if refuse {
                return Err("the server is full".to_owned());
            }
            backend.borrow_mut().publish_event(Event::new(name));
            Ok(())
        })
    }

    fn join_event(&self, id: Id) -> Answer<()> {
        let backend = self.backend.clone();
        Box::pin(async move {
            if backend.borrow_mut().join(id, "user") {
                Ok(())
            } else {
                Err("event not found".to_owned())
            }
        })
    }
}

struct Site {
    model: Model,
    server: Server,
}

impl Reducer<Msg> for Site {
    fn reduce(&mut self, msg: Msg, orders: &mut OrdersStub<Msg>) {
        let mut orders = MyOrders::new(orders);
        update(msg, &mut self.model, &mut orders, &self.server);
    }
}

fn started(url: &str, server: Server) -> (OrdersStub<Msg>, Site) {
    let mut stub = OrdersStub::new();
    let model = {
        let mut orders = MyOrders::new(&mut stub);
        init(Url::from_str(url).unwrap(), &mut orders, &server)
    };
    let mut site = Site { model, server };
    assert_eq!(stub.drain(&mut site, 64), Pass::Quiescent);
    (stub, site)
}

fn send(stub: &mut OrdersStub<Msg>, site: &mut Site, msg: Msg) {
    assert_eq!(stub.update(site, msg, 64), Pass::Quiescent);
}

fn form_msg(msg: event_publication::Msg) -> Msg {
    Msg::Main(page::main::Msg::EventPublication(msg))
}

fn loaded_main(site: &Site) -> &page::main::Loaded {
    match &site.model.page {
        Page::Main(page::main::Model::Loaded(loaded)) => loaded,
        _ => panic!("the main page is not loaded"),
    }
}

fn names(events: &[Event]) -> Vec<String> {
    events.iter().map(|event| event.name().to_owned()).collect()
}

fn typed(form: &event_publication::Model) -> Option<&str> {
    match form {
        event_publication::Model::Empty => None,
        event_publication::Model::Typing(contents) => Some(&contents.event_name),
        event_publication::Model::Publishing(contents) => Some(&contents.event_name),
        event_publication::Model::Invalid((contents, _)) => {
            contents.as_ref().map(|contents| contents.event_name.as_str())
        }
    }
}

#[test]
fn the_site_opens_the_main_page_with_all_events() {
    let (_, site) = started("", Server::new());
    let loaded = loaded_main(&site);
    assert_eq!(names(&loaded.event_list), vec!["event_1", "event_2", "event_3"]);
    assert!(matches!(loaded.event_publication_form, event_publication::Model::Empty));
    assert!(matches!(started("/login", Server::new()).1.model.page, Page::Main(_)));
}

#[test]
fn the_site_opens_the_page_of_an_event() {
    let server = Server::new();
    let url = format!("/event/{}", id_text(server.event_id(2)));
    let (mut stub, mut site) = started(&url, server.clone());
    match &site.model.page {
        Page::Event(page::event::Model::Loaded(loaded)) => {
            assert_eq!(loaded.event.name(), "event_3")
        }
        _ => panic!("the page of the event is not loaded"),
    }
    send(&mut stub, &mut site, Msg::Event(page::event::Msg::Event(event::Msg::JoinEventClick)));
    match &site.model.page {
        Page::Event(page::event::Model::Loaded(loaded)) => {
            assert_eq!(loaded.event.participants(), &vec!["user".to_owned()])
        }
        _ => panic!("the page of the event is not loaded"),
    }
    send(&mut stub, &mut site, Msg::UrlChanged(Url::new()));
    assert_eq!(names(&loaded_main(&site).event_list).len(), 3);
    send(&mut stub, &mut site, Msg::Event(page::event::Msg::Event(event::Msg::JoinEventClick)));
    assert!(matches!(site.model.page, Page::Main(_)));
}

#[test]
fn the_page_of_an_event_fails_without_its_event() {
    let (mut stub, mut site) = started("/event", Server::new());
    assert!(matches!(
        &site.model.page,
        Page::Event(page::event::Model::Failed(reason)) if reason == "expected an ID in the URL"
    ));
    send(
        &mut stub,
        &mut site,
        Msg::Event(page::event::Msg::Event(event::Msg::OnGetEventResponse(Event::with_id(
            1,
            "late".into(),
        )))),
    );
    assert!(matches!(&site.model.page, Page::Event(page::event::Model::Failed(_))));

    let server = Server::new();
    let url = format!("/event/{}", id_text(server.event_id(0)));
    let (mut stub, mut site) = started(&url, server);
    send(&mut stub, &mut site, Msg::Event(page::event::Msg::Event(event::Msg::JoinEventClick)));
    assert!(matches!(
        &site.model.page,
        Page::Event(page::event::Model::Failed(reason)) if reason == "event not found"
    ));
}

#[test]
fn a_page_that_waits_for_its_event_takes_no_click() {
    let mut mock = OrdersMock::new();
    let mut orders = MyOrders::new(&mut mock);
    let next = page::event::update(
        page::event::Msg::Event(event::Msg::JoinEventClick),
        &page::event::Model::Loading,
        &mut orders,
        &Server::new(),
    );
    assert!(matches!(next, page::event::Model::Loading));
    let next = page::event::update(
        page::event::Msg::Event(event::Msg::Error("gone".into())),
        &page::event::Model::Loading,
        &mut orders,
        &Server::new(),
    );
    assert!(matches!(next, page::event::Model::Failed(reason) if reason == "gone"));
    drop(orders);
    assert!(mock.messages().is_empty());
}

#[test]
fn a_published_event_is_listed_and_empties_the_form() {
    let (mut stub, mut site) = started("", Server::new());
    send(&mut stub, &mut site, form_msg(name("r")));
    send(&mut stub, &mut site, form_msg(name("ride")));
    assert_eq!(typed(&loaded_main(&site).event_publication_form), Some("ride"));
    assert!(event_publication::is_form_ready_for_publishing(
        &loaded_main(&site).event_publication_form
    ));
    send(&mut stub, &mut site, form_msg(event_publication::Msg::PublishEventClick));
    let loaded = loaded_main(&site);
    assert_eq!(names(&loaded.event_list), vec!["event_1", "event_2", "event_3", "ride"]);
    assert!(matches!(loaded.event_publication_form, event_publication::Model::Empty));
}

#[test]
fn a_publication_that_the_server_refuses_makes_the_form_invalid() {
    let mut server = Server::new();
    server.refuse_publication = true;
    let (mut stub, mut site) = started("", server);
    send(
        &mut stub,
        &mut site,
        form_msg(event_publication::Msg::PublishEventNameChange("ride".into())),
    );
    send(&mut stub, &mut site, form_msg(event_publication::Msg::PublishEventClick));
    let loaded = loaded_main(&site);
    assert!(matches!(
        &loaded.event_publication_form,
        event_publication::Model::Invalid((Some(contents), reason))
            if contents.event_name == "ride" && reason == "the server is full"
    ));
    assert_eq!(names(&loaded.event_list).len(), 3);
}

#[test]
fn the_main_page_fails_on_an_error_of_the_list() {
    let (mut stub, mut site) = started("", Server::new());
    send(
        &mut stub,
        &mut site,
        Msg::Main(page::main::Msg::EventList(event_list::Msg::Error("gone".into()))),
    );
    assert!(matches!(
        &site.model.page,
        Page::Main(page::main::Model::Failed(reason)) if reason == "gone"
    ));
    send(&mut stub, &mut site, form_msg(event_publication::Msg::PublishEventClick));
    assert!(matches!(
        &site.model.page,
        Page::Main(page::main::Model::Failed(reason)) if reason == "gone"
    ));
}

#[test]
fn a_main_page_that_waits_drops_the_messages_of_the_form() {
    let mut mock = OrdersMock::new();
    let mut orders = MyOrders::new(&mut mock);
    let next = page::main::update(
        page::main::Msg::EventPublication(event_publication::Msg::PublishEventClick),
        &page::main::Model::Loading,
        &mut orders,
        &Server::new(),
    );
    assert!(matches!(next, page::main::Model::Loading));
    let next = page::main::update(
        page::main::Msg::EventList(event_list::Msg::OnGetEventsResponse(vec![])),
        &next,
        &mut orders,
        &Server::new(),
    );
    assert!(matches!(next, page::main::Model::Loaded(_)));
    drop(orders);
    assert!(mock.messages().is_empty());
}

fn step(form: &FormModel, msg: FormMsg) -> FormModel {
    let mut mock = OrdersMock::new();
    let mut orders = MyOrders::new(&mut mock);
    event_publication::update(msg, form, &mut orders, &Server::new()).unwrap()
}

fn name(text: &str) -> FormMsg {
    FormMsg::PublishEventNameChange(text.to_owned())
}

fn form(text: &str) -> Form {
    Form { event_name: text.to_owned() }
}

fn required(reason: &str) -> bool {
    reason == "The name is required"
}

#[test]
fn an_empty_form_takes_a_name_and_refuses_a_click() {
    let empty = FormModel::Empty;
    assert!(matches!(step(&empty, name("a")), FormModel::Typing(f) if f.event_name == "a"));
    assert!(matches!(
        step(&FormModel::Empty, FormMsg::PublishEventClick),
        FormModel::Invalid((None, reason)) if required(&reason)
    ));
    assert!(matches!(step(&FormModel::Empty, FormMsg::OnEventPublished), FormModel::Empty));
}

#[test]
fn a_form_that_is_typed_takes_names_and_a_click() {
    let typing = FormModel::Typing(form("a"));
    assert!(matches!(step(&typing, name("ab")), FormModel::Typing(f) if f.event_name == "ab"));
    assert!(matches!(
        step(&typing, FormMsg::PublishEventClick),
        FormModel::Publishing(f) if f.event_name == "a"
    ));
    assert!(matches!(
        step(&FormModel::Typing(form("")), FormMsg::PublishEventClick),
        FormModel::Invalid((Some(f), reason)) if f.event_name.is_empty() && required(&reason)
    ));
    assert!(matches!(step(&typing, FormMsg::OnEventPublished), FormModel::Empty));
}

#[test]
fn a_form_that_waits_keeps_waiting_until_the_event_is_published() {
    let waiting = FormModel::Publishing(form("a"));
    assert!(matches!(step(&waiting, name("b")), FormModel::Publishing(f) if f.event_name == "b"));
    assert!(matches!(
        step(&waiting, FormMsg::PublishEventClick),
        FormModel::Publishing(f) if f.event_name == "a"
    ));
    assert!(matches!(step(&waiting, FormMsg::OnEventPublished), FormModel::Empty));
}

#[test]
fn an_invalid_form_goes_back_to_what_was_typed() {
    let invalid = FormModel::Invalid((Some(form("a")), "why".to_owned()));
    assert!(matches!(step(&invalid, name("b")), FormModel::Typing(f) if f.event_name == "b"));
    assert!(matches!(
        step(&invalid, FormMsg::PublishEventClick),
        FormModel::Typing(f) if f.event_name == "a"
    ));
    assert!(matches!(step(&invalid, FormMsg::OnEventPublished), FormModel::Empty));
    let hollow = FormModel::Invalid((None, "why".to_owned()));
    assert!(matches!(step(&hollow, name("b")), FormModel::Empty));
    assert!(matches!(step(&hollow, FormMsg::PublishEventClick), FormModel::Empty));
}

#[test]
fn a_failure_is_shown_with_what_was_typed() {
    assert!(matches!(
        step(&FormModel::Publishing(form("a")), FormMsg::PublishFailed("no".to_owned())),
        FormModel::Invalid((Some(f), reason)) if f.event_name == "a" && reason == "no"
    ));
    assert!(matches!(
        step(&FormModel::Empty, FormMsg::PublishFailed("no".to_owned())),
        FormModel::Invalid((None, reason)) if reason == "no"
    ));
}

#[test]
fn only_a_form_with_a_name_asks_the_server() {
    let server = Server::new();
    let mut mock = OrdersMock::new();
    {
        let mut orders = MyOrders::new(&mut mock);
        let click = || FormMsg::PublishEventClick;
        let unnamed = FormModel::Typing(form(""));
        let _ = event_publication::update(click(), &unnamed, &mut orders, &server);
        let _ = event_publication::update(click(), &FormModel::Empty, &mut orders, &server);
    }
    assert!(mock.messages().is_empty());
    {
        let mut orders = MyOrders::new(&mut mock);
        let click = || FormMsg::PublishEventClick;
        let named = FormModel::Typing(form("ride"));
        let _ = event_publication::update(click(), &named, &mut orders, &server);
        let waiting = FormModel::Publishing(form("walk"));
        let _ = event_publication::update(click(), &waiting, &mut orders, &server);
    }
    assert!(matches!(
        mock.messages().as_slice(),
        [FormMsg::OnEventPublished, FormMsg::OnEventPublished]
    ));
    assert_eq!(
        names(&server.backend.borrow().get_events()),
        vec!["event_1", "event_2", "event_3", "ride", "walk"]
    );
}

#[test]
fn the_list_takes_the_events_or_the_error() {
    let events = event_list::update(event_list::Msg::OnGetEventsResponse(vec![Event::with_id(
        1,
        "ride".into(),
    )]))
    .unwrap();
    assert_eq!(names(&events), vec!["ride"]);
    assert_eq!(
        event_list::update(event_list::Msg::Error("gone".into())).unwrap_err(),
        "gone"
    );
}

#[test]
fn an_event_takes_what_arrives_and_asks_to_join() {
    let server = Server::new();
    let id = server.event_id(1);
    let mut mock = OrdersMock::new();
    let mut orders = MyOrders::new(&mut mock);
    let shown = Event::with_id(id, "shown".into());
    let next = event::update(
        event::Msg::OnGetEventResponse(Event::with_id(2, "new".into())),
        shown,
        &mut orders,
        &server,
    )
    .unwrap();
    assert_eq!(next.name(), "new");
    let failed =
        event::update(event::Msg::Error("gone".into()), next, &mut orders, &server).unwrap_err();
    assert_eq!(failed, "gone");
    let kept = event::update(
        event::Msg::JoinEventClick,
        Event::with_id(id, "shown".into()),
        &mut orders,
        &server,
    )
    .unwrap();
    assert_eq!(kept.name(), "shown");
    event::request_event(id, &mut orders, &server);
    event::request_event(77, &mut orders, &server);
    drop(orders);
    let messages = mock.messages();
    assert_eq!(messages.len(), 3);
    match (&messages[0], &messages[1], &messages[2]) {
        (
            event::Msg::OnGetEventResponse(joined),
            event::Msg::OnGetEventResponse(asked),
            event::Msg::Error(reason),
        ) => {
            assert_eq!(joined.participants(), &vec!["user".to_owned()]);
            assert_eq!(asked.name(), "event_2");
            assert_eq!(*reason, format!("could not find event with id {}", id_text(77)));
        }
        _ => panic!("unexpected messages"),
    }
}

#[test]
fn a_change_of_the_location_that_occurs_opens_its_page() {
    let server = Server::new();
    let (mut stub, mut site) = started("", server.clone());
    assert!(matches!(site.model.page, Page::Main(_)));
    let url = format!("/event/{}", id_text(server.event_id(0)));
    stub.occurred(&on_url_changed, Url::from_str(&url).unwrap());
    assert_eq!(stub.pending_len(), 1);
    assert_eq!(stub.drain(&mut site, 64), Pass::Quiescent);
    match &site.model.page {
        Page::Event(page::event::Model::Loaded(loaded)) => {
            assert_eq!(loaded.event.name(), "event_1")
        }
        _ => panic!("the page of the event is not loaded"),
    }
    {
        let mut orders = MyOrders::new(&mut stub);
        orders.occurred(&on_url_changed, Url::new());
    }
    assert_eq!(stub.drain(&mut site, 64), Pass::Quiescent);
    assert_eq!(names(&loaded_main(&site).event_list).len(), 3);
}
