//! Core logic of a desktop viewer for `.riv` animation files: recognising
//! openable paths, handing them from the operating system to the user
//! interface, and producing a self-contained HTML demo page.

pub mod text;
pub mod paths;
pub mod escape;
pub mod error;
pub mod json;
pub mod template;
pub mod demo;
pub mod handoff;
pub mod reader;
