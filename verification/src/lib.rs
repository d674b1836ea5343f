//! Environment-variable descriptions rendered as Markdown documentation and
//! as a `.env` file of defaults.
//!
//! A [`variables::Variable`] describes one configuration variable: its name,
//! its purpose, the values it accepts, its default and whether it has been
//! deprecated or removed. The [`render`] module turns a list of them into the
//! two documents, after checking that every default is one the variable
//! accepts.

pub mod arguments;
pub mod error;
pub mod model;
pub mod render;
pub mod text;
pub mod variables;
