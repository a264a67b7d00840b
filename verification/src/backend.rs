use crate::event::{
    duplicate_all, is_random_id, parse_id, parsed_id, views, Event, EventView, Id,
};
use vstd::prelude::*;

verus! {

/// Why a user could not join an event.
#[derive(Debug)]
pub enum JoinError {
    /// The identifier could not be read; the text says why.
    InvalidId(String),
    /// No event that can be joined has the identifier.
    EventNotFound,
}

impl JoinError {
    /// The reason as the text that is shown to the caller.
    pub fn message(&self) -> (text: String)
        ensures
            match self {
                JoinError::InvalidId(reason) => text@ == reason@,
                JoinError::EventNotFound => text@ == "event not found"@,
            },
    {
        match self {
            JoinError::InvalidId(reason) => reason.clone(),
            JoinError::EventNotFound => "event not found".to_owned(),
        }
    }
}

/// The events that are known, in the order in which they were published.
pub struct Backend {
    events: Vec<Event>,
}

impl View for Backend {
    type V = Seq<EventView>;

    closed spec fn view(&self) -> Seq<EventView> {
        views(self.events@)
    }
}

/// What `events` become when `user` joins the event `id`: every event
/// after the first that has the identifier gains the participant.
pub open spec fn joined_by(events: Seq<EventView>, id: Id, user: Seq<char>) -> Seq<EventView> {
    Seq::new(
        events.len(),
        |i: int|
            if 1 <= i && events[i].id == id {
                EventView { participants: events[i].participants.insert(user), ..events[i] }
            } else {
                events[i]
            },
    )
}

/// Whether the event at `i` is the first of `events` under the identifier
/// `id`.
pub open spec fn is_first_with(events: Seq<EventView>, id: Id, i: int) -> bool {
    &&& 0 <= i < events.len()
    &&& events[i].id == id
    &&& forall|j: int| 0 <= j < i ==> events[j].id != id
}

/// An event that was looked up, as the contracts see it.
pub open spec fn seen(event: Option<Event>) -> Option<EventView> {
    match event {
        Some(found) => Some(found@),
        None => None,
    }
}

/// Whether `found` is what looking up `id` in `events` gives: the first
/// event under the identifier, or nothing if there is none.
pub open spec fn is_first_under(events: Seq<EventView>, id: Id, found: Option<EventView>) -> bool {
    match found {
        Some(event) => exists|i: int| #[trigger] is_first_with(events, id, i) && event == events[i],
        None => forall|i: int| 0 <= i < events.len() ==> (#[trigger] events[i]).id != id,
    }
}

/// Whether `user` can join the event `id`: an event after the first has
/// the identifier.
pub open spec fn can_join(events: Seq<EventView>, id: Id) -> bool {
    exists|i: int| 1 <= i < events.len() && #[trigger] events[i].id == id
}

impl Backend {
    /// The store as it starts out: three events without participants, each
    /// under a fresh random identifier.
    pub fn new() -> (backend: Backend)
        ensures
            backend@.len() == 3,
            backend@[0].name == "event_1"@,
            backend@[1].name == "event_2"@,
            backend@[2].name == "event_3"@,
            forall|i: int|
                0 <= i < 3 ==> (#[trigger] backend@[i]).participants == Set::<Seq<char>>::empty(),
            forall|i: int| 0 <= i < 3 ==> is_random_id((#[trigger] backend@[i]).id),
    {
        let mut events: Vec<Event> = Vec::new();
        events.push(Event::new("event_1".to_owned()));
        events.push(Event::new("event_2".to_owned()));
        events.push(Event::new("event_3".to_owned()));
        Backend { events }
    }

    /// A copy of every event, in the order of publication.
    pub fn get_events(&self) -> (events: Vec<Event>)
        ensures
            views(events@) == self@,
    {
        duplicate_all(&self.events)
    }

    /// The first event published under the identifier `id`, if there is one.
    pub fn find(&self, id: Id) -> (event: Option<Event>)
        ensures
            is_first_under(self@, id, seen(event)),
    {
        let mut i: usize = 0;
        while i < self.events.len()
            invariant
                i <= self.events.len(),
                forall|j: int| 0 <= j < i ==> self@[j].id != id,
            decreases self.events.len() - i,
        {
            if self.events[i].id() == id {
                let found = self.events[i].duplicate();
                assert(is_first_with(self@, id, i as int));
                return Some(found);
            }
            i += 1;
        }
        None
    }

    /// The first event published under the identifier that `id_str` reads
    /// as, if the text is an identifier and such an event exists.
    pub fn get_event(&self, id_str: &str) -> (event: Option<Event>)
        ensures
            match parsed_id(id_str@) {
                Ok(id) => is_first_under(self@, id, seen(event)),
                Err(_) => event is None,
            },
    {
        match parse_id(id_str) {
            Ok(id) => self.find(id),
            Err(_) => None,
        }
    }

    /// Adds `user_name` to the participants of every event under the
    /// identifier `id` but the one published first, and says whether there
    /// was such an event.
    pub fn join(&mut self, id: Id, user_name: &str) -> (joined: bool)
        ensures
            final(self)@ == joined_by(old(self)@, id, user_name@),
            joined == can_join(old(self)@, id),
    {
        let mut found = false;
        let mut i: usize = 1;
        let n = self.events.len();
        while i < n
            invariant
                1 <= i,
                n == self.events@.len(),
                n == old(self)@.len(),
                forall|j: int|
                    0 <= j < n && j < i ==> (#[trigger] self@[j]) == joined_by(
                        old(self)@,
                        id,
                        user_name@,
                    )[j],
                forall|j: int| i <= j < n ==> (#[trigger] self@[j]) == old(self)@[j],
                found <==> exists|j: int| 1 <= j < i && j < n && #[trigger] old(self)@[j].id == id,
            decreases n - i,
        {
            let ghost before = *self;
            let ghost target = joined_by(old(self)@, id, user_name@);
            assert(before@[i as int] == old(self)@[i as int]);
            if self.events[i].id() == id {
                found = true;
                self.events[i].join(user_name);
                assert(old(self)@[i as int].id == id);
            }
            proof {
                assert forall|j: int| 0 <= j < n && j != i implies #[trigger] self@[j]
                    == before@[j] by {
                    assert(self.events@[j] == before.events@[j]);
                }
                assert(self@[i as int] == target[i as int]);
                assert forall|j: int| 0 <= j < n && j < i + 1 implies #[trigger] self@[j]
                    == target[j] by {
                    if j != i {
                        assert(self@[j] == before@[j]);
                    }
                }
                assert forall|j: int| i + 1 <= j < n implies #[trigger] self@[j] == old(
                    self,
                )@[j] by {
                    assert(self@[j] == before@[j]);
                }
                if !found {
                    assert forall|j: int| 1 <= j < i + 1 && j < n implies #[trigger] old(
                        self,
                    )@[j].id != id by {
                        if j == i {
                        }
                    }
                }
            }
            i += 1;
        }
        assert(final(self)@ =~= joined_by(old(self)@, id, user_name@));
        found
    }

    /// Adds `user_name` to the participants of the event that `id_str`
    /// names. The event published first cannot be joined.
    pub fn join_event(&mut self, id_str: &str, user_name: &str) -> (outcome: Result<(), JoinError>)
        ensures
            match parsed_id(id_str@) {
                Ok(id) => {
                    &&& final(self)@ == joined_by(old(self)@, id, user_name@)
                    &&& can_join(old(self)@, id) ==> outcome is Ok
                    &&& !can_join(old(self)@, id) ==> outcome matches Err(JoinError::EventNotFound)
                },
                Err(reason) => {
                    &&& final(self)@ == old(self)@
                    &&& outcome matches Err(JoinError::InvalidId(text)) && text@ == reason
                },
            },
    {
        match parse_id(id_str) {
            Ok(id) => {
                if self.join(id, user_name) {
                    Ok(())
                } else {
                    Err(JoinError::EventNotFound)
                }
            },
            Err(reason) => Err(JoinError::InvalidId(reason)),
        }
    }

    /// Publishes `event` after the events that are known.
    pub fn publish_event(&mut self, event: Event)
        ensures
            final(self)@ == old(self)@.push(event@),
    {
        self.events.push(event);
        assert(self@ =~= old(self)@.push(event@));
    }
}

} // verus!
