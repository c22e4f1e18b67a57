//! Window-manager plumbing for talking to an X server.
//!
//! The verified part of the crate holds everything that decides: how raw X events become
//! [`xconnection::XEvent`]s, which requests each operation of an X connection sends, how
//! replies and randr outputs are turned into values, the table of interned atoms, the
//! client stack that hooks rearrange, and the in-memory [`xconnection::MockXConn`].
//! Talking to the server itself is left to the caller, who performs the requests that the
//! functions here describe.

pub mod atoms;
pub mod client_set;
pub mod data_types;
pub mod extensions;
pub mod replies;
pub mod requests;
pub mod text;
pub mod xconnection;
