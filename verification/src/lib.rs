//! Verified core of an interactive remote-command shell.
//!
//! The library holds the pure heart of the tool: building the exact command
//! strings that are handed to a remote transport (plain, privilege-escalated,
//! directory-scoped, database-scoped), classifying typed lines into mode
//! actions, and normalizing execution results into a uniform outcome.
//! Everything that touches the terminal, the environment or a process spawn
//! lives outside, in a thin unverified shell around this crate.
//!
//! A deliberate trust boundary, inherited from the tool's design: the secret
//! is interpolated in cleartext into constructed command strings, and no
//! shell-escaping of user input is performed. This is a single-operator tool
//! over a trusted transport; callers must treat all typed input as trusted.

pub mod builder;
pub mod laws;
pub mod modes;
pub mod outcome;
pub mod text;
