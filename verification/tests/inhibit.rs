use logind_dbus::InhibitRequest;
use logind_dbus::LoginManager;
use logind_dbus::ManagerError;

#[test]
fn request_carries_arguments_in_order() {
    let r = InhibitRequest::new(
        "idle:shutdown:sleep",
        "Package Updater",
        "Package Update in Progress",
        "block",
    );
    assert_eq!(r.what, "idle:shutdown:sleep");
    assert_eq!(r.who, "Package Updater");
    assert_eq!(r.why, "Package Update in Progress");
    assert_eq!(r.mode, "block");
}

#[test]
fn suspend_request_matches_inhibit_arguments() {
    let s = InhibitRequest::suspend("Package Updater", "Package Update in Progress");
    let i = InhibitRequest::new(
        "idle:shutdown:sleep",
        "Package Updater",
        "Package Update in Progress",
        "block",
    );
    assert_eq!(s.what, i.what);
    assert_eq!(s.who, i.who);
    assert_eq!(s.why, i.why);
    assert_eq!(s.mode, i.mode);
}

#[test]
fn suspend_request_uses_block_mode() {
    let s = InhibitRequest::suspend("who", "why");
    assert_eq!(s.what, "idle:shutdown:sleep");
    assert_eq!(s.mode, "block");
}

#[test]
fn error_kinds_are_distinct() {
    let c = ManagerError::Connection { message: String::from("bus unreachable") };
    assert!(c.is_connection());
    assert!(!c.is_call());
    assert_eq!(c.message().as_str(), "bus unreachable");

    let k = ManagerError::Call { message: String::from("permission denied") };
    assert!(k.is_call());
    assert!(!k.is_connection());
    assert_eq!(k.message().as_str(), "permission denied");
}

#[test]
fn new_without_reachable_bus_is_connection_error_not_panic() {
    // With no system bus in the environment this returns a connection
    // error; with one, a live manager handle. Neither way does it panic.
    match LoginManager::new() {
        Ok(manager) => {
            let _connection = manager.connect();
        }
        Err(e) => {
            assert!(e.is_connection());
        }
    }
}

#[test]
fn invalid_mode_is_call_error_not_panic() {
    // The mode is validated by the remote service, not locally, so this
    // needs a reachable bus to exercise; the service then rejects the
    // unknown mode and no lock is held. Without a bus, creation already
    // fails with a connection error.
    match LoginManager::new() {
        Ok(manager) => {
            let connection = manager.connect();
            let r = connection.inhibit("idle", "tester", "testing", "frobnicate");
            match r {
                Ok(_) => panic!("an unknown mode must be rejected"),
                Err(e) => assert!(e.is_call()),
            }
        }
        Err(e) => {
            assert!(e.is_connection());
        }
    }
}
