//! What the graphical front end is told and asks for.

pub mod commands;
pub mod events;
pub mod option_slot;
pub mod planning;
pub mod session_run;
