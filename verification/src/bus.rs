use vstd::prelude::*;
use crate::request::InhibitRequest;

verus! {

#[verifier::external_type_specification]
#[verifier::external_body]
pub struct ExConnection(dbus::blocking::Connection);

#[verifier::external_type_specification]
#[verifier::external_body]
#[verifier::reject_recursive_types(C)]
pub struct ExProxy<'a, C>(dbus::blocking::Proxy<'a, C>);

#[verifier::external_type_specification]
#[verifier::external_body]
pub struct ExDbusError(dbus::Error);

#[verifier::external_type_specification]
#[verifier::external_body]
pub struct ExOwnedFd(dbus::arg::OwnedFd);

/// Relies on `dbus::blocking::Connection::new_system`: opens a new private
/// connection to the system-wide bus, and returns `Err` when the bus is
/// unreachable or authentication with it fails.
#[verifier::external_body]
pub(crate) fn connect_system_bus() -> (r: Result<dbus::blocking::Connection, dbus::Error>) {
    dbus::blocking::Connection::new_system()
}

/// Relies on `dbus::blocking::Connection::with_proxy`: builds a client-side
/// proxy bound to the destination `dest`, the object path `path`, and the
/// given call timeout. The conversions of `dest` and `path` to bus names
/// panic on malformed names, so the fixed, well-formed login-manager names
/// are required.
#[verifier::external_body]
pub(crate) fn proxy_to<'b>(
    conn: &'b dbus::blocking::Connection,
    dest: &'static str,
    path: &'static str,
    timeout_ms: u64,
) -> (p: dbus::blocking::Proxy<'static, &'b dbus::blocking::Connection>)
    requires
        dest@ == "org.freedesktop.login1"@,
        path@ == "/org/freedesktop/login1"@,
{
    conn.with_proxy(dest, path, std::time::Duration::from_millis(timeout_ms))
}

/// Relies on `dbus::blocking::Proxy::method_call`: sends one blocking call of
/// the method `member` on the interface `interface`, with the request's four
/// strings appended in order (what, who, why, mode), and waits for the reply
/// until the proxy's timeout. `Ok` carries the reply's single owned
/// file-descriptor; `Err` covers a failed call and a reply of another shape
/// alike. The conversions of `interface` and `member` panic on malformed
/// names, so the fixed, well-formed login-manager names are required.
#[verifier::external_body]
pub(crate) fn call_inhibit<'b>(
    p: &dbus::blocking::Proxy<'static, &'b dbus::blocking::Connection>,
    interface: &'static str,
    member: &'static str,
    request: &InhibitRequest<'_>,
) -> (r: Result<dbus::arg::OwnedFd, dbus::Error>)
    requires
        interface@ == "org.freedesktop.login1.Manager"@,
        member@ == "Inhibit"@,
{
    let reply: Result<(dbus::arg::OwnedFd,), dbus::Error> =
        p.method_call(interface, member, (request.what, request.who, request.why, request.mode));
    match reply {
        Ok((fd,)) => Ok(fd),
        Err(e) => Err(e),
    }
}

/// Relies on `dbus::Error::message`: yields the human-readable message the
/// error carries, if it carries one.
#[verifier::external_body]
pub(crate) fn error_message<'e>(e: &'e dbus::Error) -> (r: Option<&'e str>) {
    e.message()
}

} // verus!
