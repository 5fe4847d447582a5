//! Input handling for a terminal editor: a queue that carries decoded
//! terminal events from a reader to the main loop, and a dispatcher that turns
//! each event into at most one editor command.

pub mod event;
pub mod dispatch;
pub mod input;
