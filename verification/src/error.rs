use vstd::prelude::*;

verus! {

/// The failures this library reports.
///
/// Opening the bus and calling the remote service fail for different
/// reasons, and callers react differently to each, so the two are kept
/// apart as distinct variants.
pub enum ManagerError {
    /// The system bus was unreachable, or authentication with it failed,
    /// while the manager handle was being created.
    Connection { message: String },
    /// A remote call failed: the service rejected the arguments, the call
    /// timed out, permission was denied, or the reply did not carry the
    /// single file-descriptor value that was expected.
    Call { message: String },
}

impl ManagerError {
    /// The human-readable text carried by the error.
    pub open spec fn spec_message(self) -> Seq<char> {
        match self {
            ManagerError::Connection { message } => message@,
            ManagerError::Call { message } => message@,
        }
    }

    /// True exactly when this error arose while opening the bus connection.
    pub fn is_connection(&self) -> (r: bool)
        ensures
            r == (self is Connection),
    {
        match self {
            ManagerError::Connection { .. } => true,
            ManagerError::Call { .. } => false,
        }
    }

    /// True exactly when this error arose from a remote call.
    pub fn is_call(&self) -> (r: bool)
        ensures
            r == (self is Call),
    {
        match self {
            ManagerError::Connection { .. } => false,
            ManagerError::Call { .. } => true,
        }
    }

    /// The underlying message, as the bus library reported it.
    pub fn message(&self) -> (r: &String)
        ensures
            r@ == self.spec_message(),
    {
        match self {
            ManagerError::Connection { message } => message,
            ManagerError::Call { message } => message,
        }
    }
}

} // verus!
