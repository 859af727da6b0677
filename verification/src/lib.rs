pub mod buffer;
pub mod chars;
pub mod editor;
pub mod guide;
pub mod keys;
pub mod search;
pub mod style;
