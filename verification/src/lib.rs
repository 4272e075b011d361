//! A thin, typed client for the `Inhibit` facility of the system login
//! manager: open the system bus, address the fixed login-manager object, and
//! take advisory locks that block or delay sleep, shutdown and related
//! transitions while the returned handle stays open.

mod bus;
mod error;
mod manager;
mod request;

pub use error::ManagerError;
pub use manager::LoginManager;
pub use manager::LoginManagerConnection;
pub use request::InhibitRequest;
pub use request::InhibitRequestView;
pub use request::inhibit_request;
pub use request::suspend_request;
pub use request::lemma_suspend_request_is_inhibit_request;
