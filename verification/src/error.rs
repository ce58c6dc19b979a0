use vstd::prelude::*;

verus! {

/// Error that crosses the bridge boundary: a human-readable message.
///
/// Every internal failure (parse, translation, planning, execution,
/// serialization, storage construction) is converted to its message text
/// before it reaches a caller.
#[derive(Debug, Clone)]
pub struct JavaGlueSQLError {
    pub message: String,
}

impl JavaGlueSQLError {
    pub fn new(message: String) -> (e: Self)
        ensures
            e.message@ == message@,
    {
        JavaGlueSQLError { message }
    }

    /// The message text of this error.
    pub fn message(&self) -> (m: &String)
        ensures
            m@ == self.message@,
    {
        &self.message
    }
}

} // verus!
