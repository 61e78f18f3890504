use vstd::prelude::*;

verus! {

/// Errors surfaced by the scheduling core to its callers.
#[derive(Debug)]
pub enum RuntimeError {
    /// The process table already holds its maximum number of live
    /// processes (or the pid space is exhausted); the creation request
    /// is denied and the table is left unchanged.
    TaskQueueFull,
    /// A gated operation was invoked before `init`; the caller should
    /// treat this as fatal for startup rather than continue rudderless.
    RuntimeNotInitialized,
    /// A running process faulted unrecoverably; the cause is recorded
    /// and the process is terminated, but scheduling of the others
    /// continues.
    TaskPanic(String),
}

impl RuntimeError {
    /// Human-readable description of the error, in place of `Display`.
    pub fn describe(&self) -> (r: &'static str)
        ensures
            r@ == match self {
                RuntimeError::TaskQueueFull => "Task queue is full"@,
                RuntimeError::RuntimeNotInitialized => "Runtime not initialized"@,
                RuntimeError::TaskPanic(_) => "Task panicked"@,
            },
    {
        match self {
            RuntimeError::TaskQueueFull => "Task queue is full",
            RuntimeError::RuntimeNotInitialized => "Runtime not initialized",
            RuntimeError::TaskPanic(_) => "Task panicked",
        }
    }
}

} // verus!
