//! Decoding and hazard classification for METAR weather reports.
//!
//! A bulletin of newline-delimited reports is split, each report is
//! tokenized and its fixed-format fields (time group, wind group,
//! visibility, ceiling / vertical visibility) are decoded, the report's
//! observation time is reconstructed against a reference instant, and
//! threshold rules decide whether the report counts as hazardous.  The
//! raw text of the hazardous reports, in bulletin order, is the output.

pub mod classify;
pub mod decode;
pub mod pipeline;
pub mod text;
pub mod time;
pub mod tokens;
