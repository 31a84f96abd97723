//! Core logic of a digital audio workstation: actions and shortcuts, MIDI
//! note utilities and recording, reading MIDI files, the track flags that
//! editing commands set, plugin URI checks, the engine's plugin chains,
//! mixer routing, ids, recovery points, performance history, settings and
//! error messages.

pub mod midi_utils;
pub mod midi_import;
pub mod input;
pub mod model;
pub mod command_processor;
pub mod error;
pub mod audio;
pub mod audio_export;
pub mod experiments;
pub mod idgen;
pub mod integration;
pub mod config;
pub mod mixer;
pub mod plugin_host;
pub mod plugin_facade;
pub mod backend_clap;
pub mod backend_lv2;
pub mod audio_state;
pub mod messages;
pub mod performance;
pub mod edit_actions;
pub mod android_picker;
pub mod file_picker;
pub mod midi_input;
