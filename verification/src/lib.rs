//! Interactive control core of a terminal transit-search client.
//!
//! The crate models the shared application state of the client, the focus
//! navigation graph, the input-mode state machine, the wrap-around selection
//! cursor over the result table, and the decision logic of the background
//! fetch coordinator.  Terminal drawing, keyboard polling and the network
//! calls themselves live outside this crate; they hand plain values in and
//! take plain values back.

pub mod app;
pub mod coordination;
pub mod datetime;
pub mod departures;
pub mod focus;
pub mod networking;
pub mod notifications;
pub mod render_loop;
pub mod routes;
pub mod station;
pub mod table;
