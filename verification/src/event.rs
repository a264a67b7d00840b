use vstd::prelude::*;

verus! {

/// The identifier of an event: the 128 bits of a UUID.
pub type Id = u128;

/// What `uuid::Uuid::parse_str` makes of a text: the identifier it reads, or
/// the message of the error it reports.
pub uninterp spec fn parsed_id(text: Seq<char>) -> Result<Id, Seq<char>>;

/// Reads an identifier with `uuid::Uuid::parse_str`, the parser behind the
/// `FromStr` of a UUID.
///
/// Trusted: the outcome depends on the text alone, so it has a name,
/// `parsed_id`. An identifier comes back as its 128 bits, an error as the
/// text that the error displays.
#[verifier::external_body]
pub(crate) fn parse_id(text: &str) -> (id: Result<Id, String>)
    ensures
        match id {
            Ok(value) => parsed_id(text@) == Ok::<Id, Seq<char>>(value),
            Err(message) => parsed_id(text@) == Err::<Id, Seq<char>>(message@),
        },
{
    match uuid::Uuid::parse_str(text) {
        Ok(uuid) => Ok(uuid.as_u128()),
        Err(error) => Err(error.to_string()),
    }
}

/// Whether `id` carries the marks of a random UUID: version 4 in bits 76
/// to 79, and the two bits `10` of the variant in bits 62 and 63.
pub open spec fn is_random_id(id: Id) -> bool {
    (id >> 76) & 0xF == 4 && (id >> 62) & 0x3 == 2
}

/// Draws a fresh identifier with `uuid::Uuid::new_v4`.
///
/// Trusted: the bits are random but for the version and the variant, which
/// `new_v4` sets on every identifier it makes.
#[verifier::external_body]
pub(crate) fn new_id() -> (id: Id)
    ensures
        is_random_id(id),
{
    uuid::Uuid::new_v4().as_u128()
}

/// An event as the contracts see it.
pub struct EventView {
    pub id: Id,
    pub name: Seq<char>,
    pub participants: Set<Seq<char>>,
}

/// An event that users can join.
#[derive(Debug)]
pub struct Event {
    id: Id,
    name: String,
    participants: Vec<String>,
}

impl View for Event {
    type V = EventView;

    closed spec fn view(&self) -> EventView {
        EventView {
            id: self.id,
            name: self.name@,
            participants: self.participants.deep_view().to_set(),
        }
    }
}

impl Event {
    /// No participant is listed twice.
    #[verifier::type_invariant]
    pub closed spec fn wf(&self) -> bool {
        self.participants.deep_view().no_duplicates()
    }

    /// The number of participants.
    pub closed spec fn headcount(&self) -> nat {
        self.participants@.len()
    }

    /// A new event without participants, under a fresh random identifier.
    pub fn new(name: String) -> (event: Event)
        ensures
            is_random_id(event@.id),
            event@.name == name@,
            event@.participants == Set::<Seq<char>>::empty(),
    {
        Event::with_id(new_id(), name)
    }

    /// A new event without participants, under the identifier `id`.
    pub fn with_id(id: Id, name: String) -> (event: Event)
        ensures
            event@ == (EventView { id, name: name@, participants: Set::empty() }),
            event.headcount() == 0,
    {
        let participants: Vec<String> = Vec::new();
        assert(participants.deep_view() == Seq::<Seq<char>>::empty());
        let event = Event { id, name, participants };
        assert(event@.participants == Set::<Seq<char>>::empty());
        event
    }

    pub fn id(&self) -> (id: Id)
        ensures
            id == self@.id,
    {
        self.id
    }

    pub fn name(&self) -> (name: &str)
        ensures
            name@ == self@.name,
    {
        self.name.as_str()
    }

    /// The participants, each once, in the order in which they joined.
    pub fn participants(&self) -> (names: &Vec<String>)
        ensures
            names.deep_view().no_duplicates(),
            names.deep_view().to_set() == self@.participants,
            names@.len() == self.headcount(),
    {
        proof {
            use_type_invariant(self);
        }
        &self.participants
    }

    /// Whether `user` takes part.
    pub fn has_participant(&self, user: &str) -> (found: bool)
        ensures
            found == self@.participants.contains(user@),
    {
        let wanted = user.to_owned();
        let mut i: usize = 0;
        while i < self.participants.len()
            invariant
                i <= self.participants.len(),
                wanted@ == user@,
                forall|j: int| 0 <= j < i ==> self.participants.deep_view()[j] != user@,
            decreases self.participants.len() - i,
        {
            if self.participants[i] == wanted {
                assert(self.participants.deep_view()[i as int] == user@);
                return true;
            }
            i += 1;
        }
        false
    }

    /// Adds `user` to the participants. Joining twice changes nothing.
    pub fn join(&mut self, user: &str)
        ensures
            final(self)@ == (EventView {
                participants: old(self)@.participants.insert(user@),
                ..old(self)@
            }),
            final(self).headcount() == old(self).headcount() + if old(
                self,
            )@.participants.contains(user@) {
                0nat
            } else {
                1nat
            },
    {
        proof {
            use_type_invariant(&*self);
        }
        if !self.has_participant(user) {
            let ghost before = self.participants.deep_view();
            let mut participants: Vec<String> = Vec::new();
            assert(participants.deep_view() == Seq::<Seq<char>>::empty());
            core::mem::swap(&mut self.participants, &mut participants);
            participants.push(user.to_owned());
            proof {
                assert(participants.deep_view() == before.push(user@));
                assert(before.push(user@) == before + seq![user@]);
                Seq::lemma_to_set_insert_commutes(before, user@);
            }
            core::mem::swap(&mut self.participants, &mut participants);
        } else {
            assert(self@.participants.insert(user@) == self@.participants);
        }
    }

    /// A copy of the event.
    pub fn duplicate(&self) -> (copy: Event)
        ensures
            copy@ == self@,
            copy.headcount() == self.headcount(),
    {
        proof {
            use_type_invariant(self);
        }
        let mut participants: Vec<String> = Vec::new();
        let mut i: usize = 0;
        while i < self.participants.len()
            invariant
                i <= self.participants.len(),
                participants.deep_view() == self.participants.deep_view().take(i as int),
            decreases self.participants.len() - i,
        {
            let ghost before = participants.deep_view();
            participants.push(self.participants[i].clone());
            assert(participants.deep_view() == before.push(self.participants[i as int]@));
            assert(self.participants.deep_view().take(i + 1) == self.participants.deep_view().take(
                i as int,
            ).push(self.participants.deep_view()[i as int]));
            i += 1;
        }
        assert(self.participants.deep_view().take(self.participants.len() as int)
            == self.participants.deep_view());
        Event { id: self.id, name: self.name.clone(), participants }
    }

    /// Whether the two events agree in all but their identifiers.
    pub fn same_content(&self, other: &Event) -> (same: bool)
        ensures
            same == (self@.name == other@.name && self@.participants == other@.participants),
    {
        proof {
            use_type_invariant(self);
            use_type_invariant(other);
        }
        if !(self.name == other.name) {
            return false;
        }
        if self.participants.len() != other.participants.len() {
            proof {
                self.participants.deep_view().unique_seq_to_set();
                other.participants.deep_view().unique_seq_to_set();
            }
            return false;
        }
        let mut i: usize = 0;
        while i < self.participants.len()
            invariant
                i <= self.participants.len(),
                forall|j: int|
                    0 <= j < i ==> other@.participants.contains(
                        #[trigger] self.participants.deep_view()[j],
                    ),
            decreases self.participants.len() - i,
        {
            if !other.has_participant(self.participants[i].as_str()) {
                assert(self@.participants.contains(self.participants.deep_view()[i as int]));
                return false;
            }
            i += 1;
        }
        proof {
            let mine = self.participants.deep_view();
            let theirs = other.participants.deep_view();
            mine.unique_seq_to_set();
            theirs.unique_seq_to_set();
            assert(mine.to_set().subset_of(theirs.to_set()));
            vstd::set_lib::lemma_subset_equality(mine.to_set(), theirs.to_set());
        }
        true
    }
}

/// Events as the contracts see them.
pub open spec fn views(events: Seq<Event>) -> Seq<EventView> {
    events.map_values(|event: Event| event@)
}

/// A copy of every event, in the same order.
pub fn duplicate_all(events: &Vec<Event>) -> (copies: Vec<Event>)
    ensures
        views(copies@) == views(events@),
{
    let mut copies: Vec<Event> = Vec::new();
    let mut i: usize = 0;
    while i < events.len()
        invariant
            i <= events.len(),
            copies@.len() == i,
            forall|j: int| 0 <= j < i ==> (#[trigger] copies@[j])@ == events@[j]@,
        decreases events.len() - i,
    {
        copies.push(events[i].duplicate());
        i += 1;
    }
    assert(views(copies@) =~= views(events@));
    copies
}

} // verus!
