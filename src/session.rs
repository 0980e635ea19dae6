//! The persistent state of one run through a graph.

use vstd::prelude::*;
use crate::context::{entries_map, keys_unique, Context, ContextData, DEFAULT_MAX_MESSAGES, SerializableMessage};

verus! {

/// One run through a graph: which task comes next, the last status message,
/// and the context its tasks share.
#[derive(Debug)]
pub struct Session {
    pub id: String,
    /// The graph this session runs through.
    pub graph_id: String,
    /// The task that the next step runs.
    pub current_task_id: String,
    /// The status message of the last task that set one.
    pub status_message: Option<String>,
    pub context: Context,
}

/// What a session holds, laid out for serialization.
#[derive(Debug)]
pub struct SessionData {
    pub id: String,
    pub graph_id: String,
    pub current_task_id: String,
    pub status_message: Option<String>,
    pub context: ContextData,
}

/// `a` and `b` hold the same fields, and contexts with the same values and
/// the same chat history.
pub open spec fn same_session(a: Session, b: Session) -> bool {
    &&& a.id == b.id
    &&& a.graph_id == b.graph_id
    &&& a.current_task_id == b.current_task_id
    &&& a.status_message == b.status_message
    &&& a.context.values() == b.context.values()
    &&& a.context.history()@ == b.context.history()@
    &&& a.context.history().bound() == b.context.history().bound()
}

impl Session {
    /// A session of the default graph that starts at `task_name`, with an
    /// empty context.
    pub fn new_from_task(sid: String, task_name: &str) -> (r: Self)
        ensures
            r.id == sid,
            r.graph_id@ == "default"@,
            r.current_task_id@ == task_name@,
            r.status_message.is_none(),
            r.context.values().dom() == Set::<Seq<char>>::empty(),
            r.context.history()@ == Seq::<SerializableMessage>::empty(),
            r.context.history().bound() == Some(DEFAULT_MAX_MESSAGES),
    {
        Session {
            id: sid,
            graph_id: "default".to_owned(),
            current_task_id: task_name.to_owned(),
            status_message: None,
            context: Context::new(),
        }
    }

    /// An independent copy of this session: the same fields, and a context
    /// with the same values and chat history.
    pub fn duplicate(&self) -> (r: Session)
        ensures
            same_session(r, *self),
    {
        Session {
            id: self.id.clone(),
            graph_id: self.graph_id.clone(),
            current_task_id: self.current_task_id.clone(),
            status_message: self.status_message.clone(),
            context: self.context.duplicate(),
        }
    }

    /// What this session holds, laid out for serialization.
    pub fn to_data(&self) -> (r: SessionData)
        ensures
            r.id == self.id,
            r.graph_id == self.graph_id,
            r.current_task_id == self.current_task_id,
            r.status_message == self.status_message,
            keys_unique(r.context.data@),
            entries_map(r.context.data@) == self.context.values(),
            r.context.chat_history@ == self.context.history()@,
            r.context.chat_history.bound() == self.context.history().bound(),
    {
        SessionData {
            id: self.id.clone(),
            graph_id: self.graph_id.clone(),
            current_task_id: self.current_task_id.clone(),
            status_message: self.status_message.clone(),
            context: self.context.to_data(),
        }
    }

    /// The session that `d` lays out.
    pub fn from_data(d: SessionData) -> (r: Session)
        ensures
            r.id == d.id,
            r.graph_id == d.graph_id,
            r.current_task_id == d.current_task_id,
            r.status_message == d.status_message,
            r.context.values() == entries_map(d.context.data@),
            r.context.history() == d.context.chat_history,
    {
        let SessionData { id, graph_id, current_task_id, status_message, context } = d;
        Session { id, graph_id, current_task_id, status_message, context: Context::from_data(context) }
    }
}

} // verus!
