//! Translate the streaming JSON-line output of a test runner into the
//! subunit v2 binary test-result reporting protocol.
//!
//! The pipeline has three stages: a parser that turns each raw line into a
//! typed test event ([`json_parser`]), an encoder that turns each event into
//! one checksummed binary packet ([`subunit_writer`]), and pure helpers for
//! the auxiliary list and filter-file modes ([`modes`]). The wire-format
//! primitives live in [`wire`].

pub mod json_parser;
pub mod modes;
pub mod subunit_writer;
pub mod wire;
