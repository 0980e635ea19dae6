//! One load → step → save cycle on a stored session, as a state machine.
//!
//! The caller performs each action the cycle asks for (loading a session,
//! running a step, saving a session) and hands back what came of it; the
//! cycle decides what comes next.

use vstd::prelude::*;
use crate::error::GraphError;
use crate::graph::ExecutionResult;
use crate::session::Session;

verus! {

/// Where a cycle stands.
#[derive(Debug, Clone, Copy, PartialEq, Eq, Structural)]
pub enum RunStage {
    /// Waiting for the session to be loaded.
    Loading,
    /// Waiting for the step to run.
    Stepping,
    /// Waiting for the session to be saved.
    Saving,
    /// The cycle has replied.
    Finished,
}

/// What the cycle asks its caller to do next.
#[derive(Debug)]
pub enum RunAction {
    /// Load the session with this id.
    Load(String),
    /// Run one step on this session.
    Step(Session),
    /// Save this session.
    Save(Session),
    /// Hand this to the caller of the cycle; the cycle is over.
    Reply(Result<ExecutionResult, GraphError>),
}

/// A load → step → save cycle for one session id. A successful reply comes
/// only once the stepped session has been saved.
#[derive(Debug)]
pub struct FlowCycle {
    session_id: String,
    stage: RunStage,
    pending: Option<ExecutionResult>,
}

impl FlowCycle {
    /// The stage the cycle is at.
    pub closed spec fn at(&self) -> RunStage {
        self.stage
    }

    /// The id of the session the cycle works on.
    pub closed spec fn target(&self) -> String {
        self.session_id
    }

    /// The result of the step, kept while the session is saved.
    pub closed spec fn kept(&self) -> Option<ExecutionResult> {
        self.pending
    }

    /// A cycle for `session_id`; its first action is to load that session.
    pub fn start(session_id: &str) -> (r: (FlowCycle, RunAction))
        ensures
            r.0.at() == RunStage::Loading,
            r.0.target()@ == session_id@,
            r.1 matches RunAction::Load(id) && id@ == session_id@,
    {
        let cycle = FlowCycle { session_id: session_id.to_owned(), stage: RunStage::Loading, pending: None };
        (cycle, RunAction::Load(session_id.to_owned()))
    }

    /// The stage the cycle is at.
    pub fn stage(&self) -> (r: RunStage)
        ensures
            r == self.at(),
    {
        self.stage
    }

    /// What came of loading: a session runs a step; a missing one ends the
    /// cycle with `SessionNotFound`; a failed load ends it with that error.
    pub fn on_loaded(&mut self, loaded: Result<Option<Session>, GraphError>) -> (r: RunAction)
        requires
            old(self).at() == RunStage::Loading,
        ensures
            final(self).target() == old(self).target(),
            match loaded {
                Ok(Some(s)) => r == RunAction::Step(s) && final(self).at() == RunStage::Stepping,
                Ok(None) => r == RunAction::Reply(Err(GraphError::SessionNotFound(old(self).target())))
                    && final(self).at() == RunStage::Finished,
                Err(e) => r == RunAction::Reply(Err(e)) && final(self).at() == RunStage::Finished,
            },
    {
        match loaded {
            Ok(Some(session)) => {
                self.stage = RunStage::Stepping;
                RunAction::Step(session)
            },
            Ok(None) => {
                self.stage = RunStage::Finished;
                RunAction::Reply(Err(GraphError::SessionNotFound(self.session_id.clone())))
            },
            Err(e) => {
                self.stage = RunStage::Finished;
                RunAction::Reply(Err(e))
            },
        }
    }

    /// What came of the step, with the session as the step left it: after a
    /// successful step that session is saved; a failed step ends the cycle
    /// with its error and saves nothing.
    pub fn on_stepped(&mut self, stepped: Result<ExecutionResult, GraphError>, session: Session) -> (r: RunAction)
        requires
            old(self).at() == RunStage::Stepping,
        ensures
            final(self).target() == old(self).target(),
            match stepped {
                Ok(result) => r == RunAction::Save(session) && final(self).at() == RunStage::Saving
                    && final(self).kept() == Some(result),
                Err(e) => r == RunAction::Reply(Err(e)) && final(self).at() == RunStage::Finished,
            },
    {
        match stepped {
            Ok(result) => {
                self.stage = RunStage::Saving;
                self.pending = Some(result);
                RunAction::Save(session)
            },
            Err(e) => {
                self.stage = RunStage::Finished;
                RunAction::Reply(Err(e))
            },
        }
    }

    /// What came of saving: once saved, the step's result is the reply; a
    /// failed save ends the cycle with its error.
    pub fn on_saved(&mut self, saved: Result<(), GraphError>) -> (r: RunAction)
        requires
            old(self).at() == RunStage::Saving,
            old(self).kept() is Some,
        ensures
            final(self).target() == old(self).target(),
            final(self).at() == RunStage::Finished,
            match saved {
                Ok(()) => r == RunAction::Reply(Ok(old(self).kept()->Some_0)),
                Err(e) => r == RunAction::Reply(Err(e)),
            },
    {
        self.stage = RunStage::Finished;
        match saved {
            Ok(()) => {
                let mut pending: Option<ExecutionResult> = None;
                std::mem::swap(&mut pending, &mut self.pending);
                match pending {
                    Some(result) => RunAction::Reply(Ok(result)),
                    None => RunAction::Reply(Err(GraphError::StorageError(String::new()))),
                }
            },
            Err(e) => RunAction::Reply(Err(e)),
        }
    }
}

} // verus!
