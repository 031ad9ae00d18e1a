//! What holds of the bridge as a whole.
pub mod account_orders;
pub mod arguments;
pub mod authors;
pub mod bridging;
pub mod chat_orders;
pub mod chat_rooms;
pub mod commands;
pub mod contact_orders;
pub mod control;
pub mod effects;
pub mod failures;
pub mod hearing;
pub mod history;
pub mod imports;
pub mod lines;
pub mod listing;
pub mod members;
pub mod message_orders;
pub mod new_rooms;
pub mod obeying;
pub mod orders;
pub mod parts;
pub mod reactions;
pub mod readying;
pub mod replies;
pub mod reports;
pub mod room_states;
pub mod rooms;
pub mod settings;
pub mod users;
pub mod views;
pub mod words;
