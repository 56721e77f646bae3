//! The state of the date and time inputs: what they hold, what they read
//! from the text, and how the user's actions change them.

pub mod date_input;
pub mod date_span_input;
pub mod date_time_input;
pub mod time_input;
