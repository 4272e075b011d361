use vstd::prelude::*;
use crate::bus;
use crate::error::ManagerError;
use crate::request::InhibitRequest;

verus! {

/// An interface to the login manager: owns one live connection to the
/// system bus, opened on construction and closed when the handle is dropped.
pub struct LoginManager {
    conn: dbus::blocking::Connection,
}

impl LoginManager {
    /// The system-bus connection this manager owns.
    pub closed spec fn owned_connection(self) -> dbus::blocking::Connection {
        self.conn
    }

    /// Opens a connection to the system bus. When the bus is unreachable or
    /// authentication fails, the result is a connection error, never a call
    /// error and never a panic.
    pub fn new() -> (r: Result<LoginManager, ManagerError>)
        ensures
            r matches Err(e) ==> e is Connection,
    {
        match bus::connect_system_bus() {
            Ok(conn) => Ok(LoginManager { conn }),
            Err(e) => Err(ManagerError::Connection { message: message_text(&e) }),
        }
    }

    /// Explicit accessor to the very bus connection this manager owns.
    pub fn connection(&self) -> (r: &dbus::blocking::Connection)
        ensures
            *r == self.owned_connection(),
    {
        &self.conn
    }

    /// Binds a connection view to the fixed login-manager destination
    /// `org.freedesktop.login1`, its object path `/org/freedesktop/login1`,
    /// and the fixed 1000 ms call timeout, over this manager's own
    /// connection. No side effect: nothing is sent until a call is made.
    pub fn connect<'a>(&'a self) -> (r: LoginManagerConnection<'a>)
        ensures
            r.wf(),
            r.bound_connection() == self.owned_connection(),
    {
        LoginManagerConnection {
            conn: &self.conn,
            destination: "org.freedesktop.login1",
            object_path: "/org/freedesktop/login1",
            timeout_ms: 1000,
        }
    }
}

/// A borrowed view of a [`LoginManager`], bound to the fixed destination
/// service name, object path and call timeout, through which the `Inhibit`
/// API is reached. It cannot outlive the manager it was derived from.
pub struct LoginManagerConnection<'a> {
    conn: &'a dbus::blocking::Connection,
    destination: &'static str,
    object_path: &'static str,
    timeout_ms: u64,
}

impl<'a> LoginManagerConnection<'a> {
    /// The bus connection this view is bound to: the one its manager owns.
    pub closed spec fn bound_connection(self) -> dbus::blocking::Connection {
        *self.conn
    }

    /// Well-formed: bound to the fixed login-manager destination, its object
    /// path, and the fixed 1000 ms call timeout.
    pub closed spec fn wf(self) -> bool {
        &&& self.destination@ == "org.freedesktop.login1"@
        &&& self.object_path@ == "/org/freedesktop/login1"@
        &&& self.timeout_ms == 1000
    }

    /// Issues one synchronous `Inhibit` call on the interface
    /// `org.freedesktop.login1.Manager`, passing `what`, `who`, `why` and
    /// `mode` in order — exactly the argument set `inhibit_request(what@,
    /// who@, why@, mode@)` — and blocks until the reply or the timeout.
    ///
    /// `Ok` carries the owned file-descriptor handle whose lifetime is the
    /// held lock. Whether the call succeeds is decided by the remote
    /// service: arguments it rejects (an unknown lock type in `what`, a mode
    /// other than `"block"` or `"delay"`, a root session), a timeout, or a
    /// reply of an unexpected shape all surface as a call error — never a
    /// connection error, never a panic — and no lock is then held.
    pub fn inhibit(&self, what: &str, who: &str, why: &str, mode: &str) -> (r: Result<
        dbus::arg::OwnedFd,
        ManagerError,
    >)
        requires
            self.wf(),
        ensures
            r matches Err(e) ==> e is Call,
    {
        let request = InhibitRequest::new(what, who, why, mode);
        let proxy = bus::proxy_to(self.conn, self.destination, self.object_path, self.timeout_ms);
        match bus::call_inhibit(&proxy, "org.freedesktop.login1.Manager", "Inhibit", &request) {
            Ok(fd) => Ok(fd),
            Err(e) => Err(ManagerError::Call { message: message_text(&e) }),
        }
    }

    /// Convenience call for inhibiting suspension: exactly equivalent to
    /// `inhibit("idle:shutdown:sleep", who, why, "block")`, so the argument
    /// set it submits is `suspend_request(who@, why@)`.
    pub fn inhibit_suspend(&self, who: &str, why: &str) -> (r: Result<
        dbus::arg::OwnedFd,
        ManagerError,
    >)
        requires
            self.wf(),
        ensures
            r matches Err(e) ==> e is Call,
    {
        self.inhibit("idle:shutdown:sleep", who, why, "block")
    }
}

/// The text a bus error carries, or the empty string when it carries none.
fn message_text(e: &dbus::Error) -> String {
    match bus::error_message(e) {
        Some(s) => s.to_string(),
        None => String::new(),
    }
}

} // verus!
