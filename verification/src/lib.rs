// A small counter service: one shared signed integer exposed through three
// named tools (increment, decrement, get_counter) behind a request dispatcher.
pub mod counter;
pub mod decimal;
pub mod dispatch;
pub mod laws;
