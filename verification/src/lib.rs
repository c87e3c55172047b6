//! Backend logic of a sales role-play trainer: a greeting, and one coaching
//! turn that is prepared for, and read back from, a chat-completion service.

pub mod greeting;
pub mod json;
pub mod prompt;
pub mod text;
pub mod turn;
