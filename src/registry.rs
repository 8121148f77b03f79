use vstd::prelude::*;

verus! {

/// Live sessions by id. Ids are handed out in order from 0 and never reused:
/// slot `id` holds the session's source while it is active and `None` once
/// it has been removed.
pub struct SessionRegistry {
    sessions: Vec<Option<String>>,
}

impl View for SessionRegistry {
    type V = Seq<Option<String>>;

    closed spec fn view(&self) -> Seq<Option<String>> {
        self.sessions@
    }
}

/// Whether `id` names an active session.
pub open spec fn is_active(sessions: Seq<Option<String>>, id: nat) -> bool {
    id < sessions.len() && sessions[id as int] is Some
}

/// Whether the slot holds an active session with the given source.
pub open spec fn holds_source(slot: Option<String>, source: Seq<char>) -> bool {
    slot is Some && slot->Some_0@ == source
}

/// The first active id whose source is `source`, if any.
pub open spec fn first_with_source(sessions: Seq<Option<String>>, source: Seq<char>, id: nat) -> bool {
    &&& id < sessions.len()
    &&& holds_source(sessions[id as int], source)
    &&& forall|j: int| 0 <= j < id ==> !holds_source(#[trigger] sessions[j], source)
}

/// The registry after removing `id`: removing an id that is not active
/// changes nothing.
pub open spec fn after_remove(sessions: Seq<Option<String>>, id: nat) -> Seq<Option<String>> {
    if is_active(sessions, id) {
        sessions.update(id as int, None)
    } else {
        sessions
    }
}

impl SessionRegistry {
    pub fn new() -> (r: SessionRegistry)
        ensures
            r@ == Seq::<Option<String>>::empty(),
    {
        SessionRegistry { sessions: Vec::new() }
    }

    /// The id the next `register` hands out.
    pub fn next_id(&self) -> (r: usize)
        ensures
            r == self@.len(),
    {
        self.sessions.len()
    }

    /// Whether another session can still get an id.
    pub fn has_room(&self) -> (r: bool)
        ensures
            r == (self@.len() < usize::MAX),
    {
        self.sessions.len() < usize::MAX
    }

    /// Allocates the next id for a session of `source` and makes it active.
    pub fn register(&mut self, source: String) -> (id: usize)
        requires
            old(self)@.len() < usize::MAX,
        ensures
            id == old(self)@.len(),
            final(self)@ == old(self)@.push(Some(source)),
    {
        let id = self.sessions.len();
        self.sessions.push(Some(source));
        id
    }

    /// Removes a session; an unknown or already removed id is left alone.
    pub fn remove(&mut self, session_id: usize)
        ensures
            final(self)@ == after_remove(old(self)@, session_id as nat),
    {
        if session_id < self.sessions.len() && self.sessions[session_id].is_some() {
            self.sessions[session_id] = None;
        }
    }

    /// Whether `session_id` is active.
    pub fn contains(&self, session_id: usize) -> (r: bool)
        ensures
            r == is_active(self@, session_id as nat),
    {
        session_id < self.sessions.len() && self.sessions[session_id].is_some()
    }

    /// The source of an active session, `None` for any other id.
    pub fn lookup(&self, session_id: usize) -> (r: Option<String>)
        ensures
            r is Some <==> is_active(self@, session_id as nat),
            r is Some ==> r == self@[session_id as int],
    {
        if session_id < self.sessions.len() {
            match &self.sessions[session_id] {
                Some(s) => Some(s.clone()),
                None => None,
            }
        } else {
            None
        }
    }

    /// The lowest active id whose source is `source`.
    pub fn find_source(&self, source: &String) -> (r: Option<usize>)
        ensures
            r is Some ==> first_with_source(self@, source@, r->Some_0 as nat),
            r is None ==> forall|j: int| 0 <= j < self@.len() ==> !holds_source(#[trigger] self@[j], source@),
    {
        let mut i: usize = 0;
        while i < self.sessions.len()
            invariant
                i <= self@.len(),
                forall|j: int| 0 <= j < i ==> !holds_source(#[trigger] self@[j], source@),
            decreases self@.len() - i,
        {
            match &self.sessions[i] {
                Some(s) => {
                    if *s == *source {
                        return Some(i);
                    }
                },
                None => {},
            }
            i = i + 1;
        }
        None
    }
}

} // verus!
