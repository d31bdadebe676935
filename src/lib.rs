//! Turning the failure of a D-Bus method call into an error reply that
//! correlates to the call.
pub mod dbus_error;
pub mod error;
pub mod message;
pub mod names;
