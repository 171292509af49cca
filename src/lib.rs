//! A terminal abstraction for line-oriented prompts: a backend-neutral key and
//! style model, and a virtualized terminal whose output goes to a channel and
//! whose input comes from an outside event source.
pub mod key;
pub mod native;
pub mod ansi;
pub mod style;
pub mod terminal;
pub mod no_tty;
