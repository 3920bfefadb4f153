//! A terminal e-book reader's core: page text extraction, the reading
//! session's state machine and the persisted reading progress.

pub mod layout;
pub mod markup;
pub mod metadata;
pub mod progress;
pub mod session;
pub mod text;
