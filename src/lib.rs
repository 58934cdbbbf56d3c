//! A two-list todo editor: the todo model, cursor addressing, text editing
//! and the key dispatcher that drives them, with their contracts.

pub mod todo;
pub mod text;
pub mod editor;
pub mod laws;
pub mod file_manager;
