//! The deciding core of a gateway through which an automated agent works
//! on a workstation: it runs shell commands, edits files and looks at the
//! screen, and an access policy hides sensitive paths from it.
//!
//! This crate decides and does not act. It runs no command and touches no
//! file. A call proceeds in steps (`router`): each step ends the call, or
//! names an effect for the host to perform and waits for its report.
//!
//! - `policy`: which paths are hidden, by rule files in the ignore-file
//!   convention.
//! - `guard`: a look at a shell command line before it runs.
//! - `history`: the contents of files before each recorded edit, for undo.
//! - `editor`, `shell`, `screen`: what each tool answers.
//! - `router`: the tools on offer and the steps of a call.
//! - `laws`: what holds of the tools taken together.
//! - `input`: what a line typed at the prompt means.
//! - `text`, `search`, `lines`, `decimal`: character sequences.

pub mod arguments;
pub mod content;
pub mod decimal;
pub mod editor;
pub mod guard;
pub mod history;
pub mod input;
pub mod laws;
pub mod lines;
pub mod params;
pub mod paths;
pub mod policy;
pub mod router;
pub mod screen;
pub mod search;
pub mod shell;
pub mod text;
pub mod tools;
