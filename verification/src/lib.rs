//! Web forms for command-line interfaces: derives a field model from the
//! definition of an argument parser and renders it as one self-contained page
//! whose script validates the form, turns it into an argument list and calls
//! the function that was compiled for the browser.

pub mod assets;
pub mod extract;
pub mod form;
pub mod introspect;
pub mod json;
pub mod markup;
pub mod model;
pub mod page;
pub mod render;
pub mod scan;
pub mod script;
pub mod session;
pub mod text;
