//! A validated ticket title: a text of one to fifty characters, made only by
//! a conversion that checks both bounds and says why it refused.

pub mod decimal;
pub mod title;

pub use title::{ParseTitleError, TicketTitle};
