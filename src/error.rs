use vstd::prelude::*;

verus! {

/// The ways a step, a load or a save can fail.
#[derive(Debug, Clone, PartialEq, Eq)]
pub enum GraphError {
    /// No task with this id is registered in the graph.
    TaskNotFound(String),
    /// No session with this id is stored.
    SessionNotFound(String),
    /// A task expected a context key that was absent or of the wrong shape.
    ContextError(String),
    /// A task body failed.
    TaskExecutionFailed(String),
    /// The storage backend failed.
    StorageError(String),
}

impl GraphError {
    /// A human-readable description of the error.
    pub fn message(&self) -> (r: String)
        ensures
            r@ == match self {
                GraphError::TaskNotFound(s) => s@,
                GraphError::SessionNotFound(s) => s@,
                GraphError::ContextError(s) => s@,
                GraphError::TaskExecutionFailed(s) => s@,
                GraphError::StorageError(s) => s@,
            },
    {
        match self {
            GraphError::TaskNotFound(s) => s.clone(),
            GraphError::SessionNotFound(s) => s.clone(),
            GraphError::ContextError(s) => s.clone(),
            GraphError::TaskExecutionFailed(s) => s.clone(),
            GraphError::StorageError(s) => s.clone(),
        }
    }
}

} // verus!
