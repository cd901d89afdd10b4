pub mod input;
pub mod chat;
pub mod status;
pub mod layout;
