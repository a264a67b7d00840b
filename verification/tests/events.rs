use join_my_ride::auth::{authenticate, token_of, user_of_token, AuthError};
use join_my_ride::backend::{Backend, JoinError};
use join_my_ride::event::Event;

const EVENT_ID: u128 = 0xa1a2a3a4_b1b2_41c2_91d2_d3d4d5d6d7d8;

fn id_text(id: u128) -> String {
    uuid::Uuid::from_u128(id).to_string()
}

fn names(events: &[Event]) -> Vec<String> {
    events.iter().map(|event| event.name().to_owned()).collect()
}

fn joined_with_token(
    backend: &mut Backend,
    id_str: &str,
    authorization: &str,
) -> Result<(), String> {
    let user = authenticate(Some(authorization)).map_err(|error| error.message())?;
    backend.join_event(id_str, &user.name).map_err(|error| error.message())
}

#[test]
fn a_new_event_has_a_name_and_no_participants() {
    let event = Event::new("name".to_owned());
    assert_eq!(event.name(), "name");
    assert!(event.participants().is_empty());
    assert!(!event.has_participant("valid_user"));
}

#[test]
fn a_new_event_has_a_random_identifier() {
    let first = Event::new("a".to_owned());
    let second = Event::new("a".to_owned());
    assert_eq!((first.id() >> 76) & 0xF, 4);
    assert_eq!((first.id() >> 62) & 0x3, 2);
    assert_ne!(first.id(), second.id());
    assert_eq!(uuid::Uuid::from_u128(first.id()).get_version_num(), 4);
}

#[test]
fn an_event_keeps_the_identifier_it_was_given() {
    let event = Event::with_id(EVENT_ID, "ride".to_owned());
    assert_eq!(event.id(), EVENT_ID);
    assert_eq!(event.name(), "ride");
}

#[test]
fn joining_adds_a_participant_once() {
    let mut event = Event::with_id(EVENT_ID, "ride".to_owned());
    event.join("ann");
    event.join("bob");
    event.join("ann");
    assert_eq!(event.participants(), &vec!["ann".to_owned(), "bob".to_owned()]);
    assert!(event.has_participant("ann"));
    assert!(event.has_participant("bob"));
    assert!(!event.has_participant("an"));
}

#[test]
fn a_copy_of_an_event_is_the_same_event() {
    let mut event = Event::with_id(EVENT_ID, "ride".to_owned());
    event.join("ann");
    let copy = event.duplicate();
    assert_eq!(copy.id(), EVENT_ID);
    assert_eq!(copy.name(), "ride");
    assert_eq!(copy.participants(), &vec!["ann".to_owned()]);
}

#[test]
fn events_compare_without_their_identifiers() {
    let mut first = Event::with_id(1, "ride".to_owned());
    let mut second = Event::with_id(2, "ride".to_owned());
    assert!(first.same_content(&second));
    first.join("ann");
    assert!(!first.same_content(&second));
    assert!(!second.same_content(&first));
    first.join("bob");
    second.join("bob");
    second.join("ann");
    assert!(first.same_content(&second));
    second.join("cat");
    first.join("dan");
    assert!(!first.same_content(&second));
    assert!(!first.same_content(&Event::with_id(1, "walk".to_owned())));
}

#[test]
fn main_list_all_events() {
    let backend = Backend::new();
    let actual = backend.get_events();
    let expected = vec![
        Event::new("event_1".to_owned()),
        Event::new("event_2".to_owned()),
        Event::new("event_3".to_owned()),
    ];
    assert_eq!(actual.len(), expected.len());
    for (event, wanted) in actual.iter().zip(expected.iter()) {
        assert!(event.same_content(wanted));
    }
}

#[test]
fn main_get_an_event_by_id() {
    let backend = Backend::new();
    let events = backend.get_events();
    let event = events[0].duplicate();
    let actual = backend.get_event(&format!("{}", id_text(event.id()))).unwrap();
    assert!(actual.same_content(&event));
    assert_eq!(actual.id(), event.id());
}

#[test]
fn main_get_a_non_existing_event_by_id() {
    let backend = Backend::new();
    let id = uuid::Uuid::new_v4();
    assert!(backend.get_event(&format!("{}", id)).is_none());
}

#[test]
fn main_publish_an_event() {
    let published_event_name = "published_event_name";
    let mut backend = Backend::new();
    let initial_events = backend.get_events();
    assert!(initial_events
        .iter()
        .filter(|event| event.name() == published_event_name)
        .collect::<Vec<&Event>>()
        .is_empty());

    let event = Event::new(published_event_name.to_owned());
    backend.publish_event(event);

    let events = backend.get_events();
    assert!(!events
        .iter()
        .filter(|event| event.name() == published_event_name)
        .collect::<Vec<&Event>>()
        .is_empty());
    assert_eq!(
        names(&events),
        vec!["event_1", "event_2", "event_3", "published_event_name"]
    );
}

#[test]
fn joining_an_event() {
    let mut backend = Backend::new();
    let event = Event::new("some_event".to_owned());
    let id = event.id();
    backend.publish_event(event);

    let outcome = joined_with_token(&mut backend, &id_text(id), "Bearer valid_token");
    assert_eq!(outcome, Ok(()));

    let updated_event = backend.get_event(&id_text(id)).unwrap();
    assert!(updated_event.participants().contains(&"valid_user".to_owned()));
}

#[test]
fn joining_a_non_existing_event() {
    let mut backend = Backend::new();
    let id = uuid::Uuid::new_v4();
    assert!(backend.get_event(&format!("{}", id)).is_none());

    let outcome = joined_with_token(&mut backend, &format!("{}", id), "Bearer valid_token");
    assert_eq!(outcome, Err("event not found".to_owned()));
}

#[test]
fn joining_an_event_twice() {
    let mut backend = Backend::new();
    let event = Event::new("some_event".to_owned());
    let id = event.id();
    backend.publish_event(event);
    assert_eq!(
        joined_with_token(&mut backend, &id_text(id), "Bearer valid_token"),
        Ok(())
    );

    let outcome = joined_with_token(&mut backend, &id_text(id), "Bearer valid_token");
    assert_eq!(outcome, Ok(()));

    let updated_event = backend.get_event(&id_text(id)).unwrap();
    assert_eq!(updated_event.participants().len(), 1);
    assert!(updated_event.participants().contains(&"valid_user".to_owned()));
}

#[test]
fn the_event_published_first_cannot_be_joined() {
    let mut backend = Backend::new();
    let events = backend.get_events();
    let first = id_text(events[0].id());
    let second = id_text(events[1].id());
    assert!(matches!(
        backend.join_event(&first, "ann"),
        Err(JoinError::EventNotFound)
    ));
    assert!(backend.get_event(&first).unwrap().participants().is_empty());
    assert!(backend.join_event(&second, "ann").is_ok());
    assert_eq!(
        backend.get_event(&second).unwrap().participants(),
        &vec!["ann".to_owned()]
    );
    assert!(backend.get_events()[2].participants().is_empty());
}

#[test]
fn every_later_event_with_the_identifier_is_joined() {
    let mut backend = Backend::new();
    backend.publish_event(Event::with_id(EVENT_ID, "one".to_owned()));
    backend.publish_event(Event::with_id(EVENT_ID, "two".to_owned()));
    assert!(backend.join_event(&id_text(EVENT_ID), "ann").is_ok());
    let events = backend.get_events();
    assert_eq!(events[3].participants(), &vec!["ann".to_owned()]);
    assert_eq!(events[4].participants(), &vec!["ann".to_owned()]);
    assert_eq!(backend.get_event(&id_text(EVENT_ID)).unwrap().name(), "one");
}

#[test]
fn an_identifier_that_cannot_be_read_is_reported() {
    let mut backend = Backend::new();
    let outcome = backend.join_event("not-an-id", "ann");
    match outcome {
        Err(JoinError::InvalidId(reason)) => {
            assert_eq!(
                reason,
                uuid::Uuid::parse_str("not-an-id").unwrap_err().to_string()
            );
            assert_eq!(JoinError::InvalidId(reason.clone()).message(), reason);
        }
        other => panic!("unexpected outcome {:?}", other),
    }
    assert!(backend.get_event("not-an-id").is_none());
    assert_eq!(JoinError::EventNotFound.message(), "event not found");
}

#[test]
fn identifiers_are_read_in_every_form_that_a_uuid_has() {
    let mut backend = Backend::new();
    backend.publish_event(Event::with_id(EVENT_ID, "ride".to_owned()));
    assert!(backend
        .get_event("a1a2a3a4-b1b2-41c2-91d2-d3d4d5d6d7d8")
        .is_some());
    assert!(backend.get_event("a1a2a3a4b1b241c291d2d3d4d5d6d7d8").is_some());
    assert!(backend
        .get_event("A1A2A3A4-B1B2-41C2-91D2-D3D4D5D6D7D8")
        .is_some());
    assert!(backend
        .get_event("a1a2a3a4-b1b2-41c2-91d2-d3d4d5d6d7d9")
        .is_none());
}

#[test]
fn the_known_token_names_its_user() {
    assert_eq!(user_of_token("valid_token"), Some("valid_user".to_owned()));
    assert_eq!(user_of_token("valid_user"), None);
    assert_eq!(user_of_token(""), None);
}

#[test]
fn a_bearer_header_with_the_known_token_names_the_user() {
    assert_eq!(authenticate(Some("Bearer valid_token")).unwrap().name, "valid_user");
    assert_eq!(
        authenticate(Some("  Bearer valid_token\t\n")).unwrap().name,
        "valid_user"
    );
}

#[test]
fn a_request_without_a_usable_header_has_no_user() {
    assert_eq!(authenticate(None).unwrap_err(), AuthError::MissingHeader);
    for header in [
        "",
        "   ",
        "Bearer",
        "Bearer ",
        "valid_token",
        "bearer valid_token",
        "Basic valid_token",
        "Bearer  valid_token",
        "Bearer valid_token extra",
        "Bearer\tvalid_token",
        "Bearervalid_token",
    ] {
        assert_eq!(
            authenticate(Some(header)).unwrap_err(),
            AuthError::InvalidHeader,
            "{:?}",
            header
        );
    }
    assert_eq!(
        authenticate(Some("Bearer other_token")).unwrap_err(),
        AuthError::InvalidToken
    );
    assert_eq!(
        authenticate(Some("Bearer valid_token\u{a0}x")).unwrap_err(),
        AuthError::InvalidToken
    );
}

#[test]
fn white_space_around_a_header_is_what_has_the_unicode_property() {
    let spaces = [
        ('\u{9}', '\u{d}'),
        (' ', ' '),
        ('\u{85}', '\u{85}'),
        ('\u{a0}', '\u{a0}'),
        ('\u{1680}', '\u{1680}'),
        ('\u{2000}', '\u{200a}'),
        ('\u{2028}', '\u{2029}'),
        ('\u{202f}', '\u{202f}'),
        ('\u{205f}', '\u{205f}'),
        ('\u{3000}', '\u{3000}'),
    ];
    for c in ('\u{0}'..='\u{ffff}').chain(('\u{10000}'..=char::MAX).step_by(17)) {
        let space = spaces.iter().any(|(low, high)| *low <= c && c <= *high);
        let header = format!("{}Bearer valid_token{}", c, c);
        match authenticate(Some(header.as_str())) {
            Ok(user) => {
                assert!(space, "{:?}", c);
                assert_eq!(user.name, "valid_user");
            }
            Err(error) => {
                assert!(!space, "{:?}", c);
                assert_eq!(error, AuthError::InvalidHeader);
            }
        }
    }
}

#[test]
fn every_refusal_has_its_text() {
    assert_eq!(AuthError::MissingHeader.message(), "missing authorization header");
    assert_eq!(AuthError::InvalidHeader.message(), "invalid authorization header");
    assert_eq!(AuthError::InvalidToken.message(), "invalid token");
}

#[test]
fn a_token_follows_the_word_bearer_and_one_space() {
    assert_eq!(token_of("Bearer valid_token"), Some("valid_token"));
    assert_eq!(token_of("Bearer x"), Some("x"));
    assert_eq!(token_of("Bearer "), Some(""));
    assert_eq!(token_of("Bearer é"), Some("é"));
    assert_eq!(token_of("Bearer"), None);
    assert_eq!(token_of(""), None);
    assert_eq!(token_of("Bearer a b"), None);
    assert_eq!(token_of("Bearer  a"), None);
    assert_eq!(token_of(" Bearer a"), None);
    assert_eq!(token_of("Bearer a "), None);
    assert_eq!(token_of("bearer a"), None);
}

#[test]
fn events_are_found_and_joined_by_their_identifiers() {
    let mut backend = Backend::new();
    assert!(backend.find(EVENT_ID).is_none());
    assert!(!backend.join(EVENT_ID, "ann"));
    backend.publish_event(Event::with_id(EVENT_ID, "ride".to_owned()));
    assert_eq!(backend.find(EVENT_ID).unwrap().name(), "ride");
    assert!(backend.join(EVENT_ID, "ann"));
    assert!(backend.join(EVENT_ID, "ann"));
    assert_eq!(
        backend.find(EVENT_ID).unwrap().participants(),
        &vec!["ann".to_owned()]
    );
    let first = backend.get_events()[0].id();
    assert!(backend.find(first).is_some());
    assert!(!backend.join(first, "ann"));
}
