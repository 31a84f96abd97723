pub mod automation;
pub mod integration;
pub mod midi_engine;
pub mod state;
