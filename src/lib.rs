//! A compiler from xdotool-style command pipelines to window-manager scripts.
//!
//! The argument vector is read into typed steps ([`step`], over the token
//! reader of [`parser`] and the registry of [`commands`]), each step is
//! rendered into a fragment ([`templates`]), and the fragments are framed
//! into one program ([`script`]). [`laws`] states what every compilation
//! obeys.

pub mod text;
pub mod parser;
pub mod commands;
pub mod step;
pub mod templates;
pub mod script;
pub mod laws;
