//! Conversion helpers for TES3 plugin files: path validation, format
//! sniffing, output-format selection, the plan of a conversion run and
//! numbered backup naming.
pub mod backup;
pub mod format;
pub mod path;
pub mod pipeline;
