pub mod appservice;
pub mod cmdline;
pub mod compat;
pub mod control_room;
pub mod delta_events;
pub mod laws;
pub mod matrix_events;
pub mod matrix_intents;
pub mod numbers;
pub mod outside;
pub mod protocol;
pub mod run;
pub mod task;
pub mod text;
pub mod types;
pub mod util;
