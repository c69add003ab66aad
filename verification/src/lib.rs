//! Session core of a terminal wallet dashboard.
//!
//! The library models the interactive session as a state machine: the
//! active screen, the tab selected on the main screen, the field (if any)
//! that currently receives typed characters, the raw field values the user
//! is composing, and the table of account balances. Key events are routed
//! by [`router::handle_key`]; calls against the external wallet
//! client are requested through [`router::RouterOutcome`] and their
//! results folded back by the dispatcher methods on [`app::App`].

pub mod accounts;
pub mod app;
pub mod laws;
pub mod router;
