pub mod automation;
pub mod group;
pub mod plugin_api;
pub mod track;
