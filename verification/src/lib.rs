//! Decision logic of the canvas editor and of the file-creation request handler.

pub mod canvas;
pub mod create_file;
pub mod editor;
