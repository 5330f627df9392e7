//! A command-line argument declaration library: describe the arguments a
//! program accepts (flags, options with values, positionals), the relations
//! between them, and render their usage and help text.

pub mod arg;
pub mod caps;
pub mod config;
pub mod flag;
pub mod help_writer;
pub mod kind;
pub mod model;
pub mod option;
pub mod positional;
pub mod settings;
pub mod vmap;
