//! Widget, style and event logic behind a small set of Lisp bindings for
//! drawing terminal user interfaces.
//!
//! - `lisp`: Lisp values as plain data, and the accessors the readers use.
//! - `text`: comparing and building text.
//! - `style`: colours, modifiers and styles, and the style alist readers.
//! - `content`: the lines and spans of paragraphs and list rows.
//! - `widget`: widget areas and the widget constructors.
//! - `event`: key and mouse events and the names they are handed out by.
//! - `laws`: properties of all of these, proved.
pub mod content;
pub mod event;
pub mod laws;
pub mod lisp;
pub mod style;
pub mod text;
pub mod widget;

pub use widget::{opt_string, Widget};
