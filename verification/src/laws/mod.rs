//! What the operations of the library keep to as a whole, stated of their inputs and results.

pub mod api;
pub mod engine;
pub mod files;
pub mod front_end;
pub mod kinds;
pub mod listings;
pub mod notices;
pub mod plans;
pub mod requests;
pub mod resolver;
pub mod runs;
pub mod sessions;
pub mod stages;
pub mod steps;
pub mod talks;
pub mod texts;
pub mod turns;
pub mod words;
pub mod workflows;
