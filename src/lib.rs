//! A to-do list component: a fetch lifecycle state machine, and a
//! stateless list view that renders what the machine currently holds.
pub mod app;
pub mod list;
pub mod todo;
