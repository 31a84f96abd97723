pub mod actions;
pub mod shortcuts;
