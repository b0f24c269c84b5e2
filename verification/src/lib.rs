//! A verified library for building a single-line shell prompt.
//!
//! The prompt is assembled from independent fragments — an exit-code
//! indicator, hostname, identity glyph, user, working-directory path
//! and a version-control status block — in a fixed order, wrapped in
//! terminal color escape sequences. Every fragment is a pure function
//! of its inputs; the functions here carry contracts stating exactly
//! which string each one produces, so that the final line is a
//! deterministic function of the gathered state no matter when each
//! probe finished. The probes themselves (environment variables, the
//! hostname fallback file, the repository scan) live outside the
//! library and hand their findings in as plain values.

pub mod assemble;
pub mod colors;
pub mod identity;
pub mod numfmt;
pub mod parse;
pub mod pathres;
pub mod status;
pub mod textops;
