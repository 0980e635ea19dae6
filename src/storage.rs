//! Where sessions are kept between steps.

use vstd::prelude::*;
use dashmap::DashMap;
use crate::error::GraphError;
use crate::session::{same_session, Session};
use crate::store::{session_entries, sessions_get, sessions_insert, sessions_new, sessions_remove};

verus! {

/// A place that keeps sessions by id.
pub trait SessionStorage {
    /// The sessions kept, by id.
    spec fn sessions(&self) -> Map<Seq<char>, Session>;

    /// The store has no backend that can fail: every operation succeeds.
    spec fn never_fails(&self) -> bool;

    /// Keeps `session` under its id, replacing what was there.
    fn save(&mut self, session: Session) -> (r: Result<(), GraphError>)
        ensures
            old(self).never_fails() ==> r is Ok,
            final(self).never_fails() == old(self).never_fails(),
            r is Ok ==> final(self).sessions() == old(self).sessions().insert(session.id@, session),
            r is Err ==> final(self).sessions() == old(self).sessions(),
    ;

    /// A copy of the session kept under `id`, if any.
    fn get(&self, id: &str) -> (r: Result<Option<Session>, GraphError>)
        ensures
            self.never_fails() ==> r is Ok,
            r matches Ok(Some(s)) ==> self.sessions().contains_key(id@) && same_session(
                s,
                self.sessions()[id@],
            ),
            r matches Ok(None) ==> !self.sessions().contains_key(id@),
    ;

    /// Forgets the session kept under `id`.
    fn delete(&mut self, id: &str) -> (r: Result<(), GraphError>)
        ensures
            old(self).never_fails() ==> r is Ok,
            final(self).never_fails() == old(self).never_fails(),
            r is Ok ==> final(self).sessions() == old(self).sessions().remove(id@),
            r is Err ==> final(self).sessions() == old(self).sessions(),
    ;
}

/// A session store held in memory. Each read hands out an independent copy,
/// so that no context is shared between a stored session and its readers.
#[derive(Debug)]
pub struct InMemorySessionStorage {
    sessions: DashMap<String, Session>,
}

impl InMemorySessionStorage {
    /// An empty store.
    pub fn new() -> (r: Self)
        ensures
            r.sessions().dom() == Set::<Seq<char>>::empty(),
    {
        InMemorySessionStorage { sessions: sessions_new() }
    }
}

impl SessionStorage for InMemorySessionStorage {
    closed spec fn sessions(&self) -> Map<Seq<char>, Session> {
        session_entries(self.sessions)
    }

    open spec fn never_fails(&self) -> bool {
        true
    }

    fn save(&mut self, session: Session) -> (r: Result<(), GraphError>) {
        let key = session.id.clone();
        sessions_insert(&mut self.sessions, key, session);
        Ok(())
    }

    fn get(&self, id: &str) -> (r: Result<Option<Session>, GraphError>) {
        Ok(sessions_get(&self.sessions, id))
    }

    fn delete(&mut self, id: &str) -> (r: Result<(), GraphError>) {
        sessions_remove(&mut self.sessions, id);
        Ok(())
    }
}

} // verus!
