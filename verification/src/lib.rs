//! Interactive line-mode prompt widgets.
//!
//! Two widgets share one interaction shape: initialize state, consume input
//! events one at a time while mutating that state, and terminate on
//! confirmation, cancellation, or an unreadable input stream.
//!
//! - [`input::Input`] asks the user for a free-text answer; its core is
//!   [`input::EditState`], which owns the answer buffer and the logical
//!   insertion point.
//! - [`select::Select`] asks the user to pick one option from an ordered
//!   list; its core is [`select::SelectState`], which owns the sliding page
//!   window, the absolute selected index, and the on-screen cursor row.
//!
//! The state machines here are pure: they take decoded events and return the
//! next state and an outcome. Drawing to the terminal and reading raw events
//! belong to the embedding program, not to this crate.

pub mod events;
pub mod input;
pub mod select;
