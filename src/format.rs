//! Choosing how to decode the input and how to encode the output.
use vstd::prelude::*;

use crate::path::{get_extension, has_binary_extension, is_binary_extension};

verus! {

/// How the input bytes are to be decoded.
#[derive(Clone, Copy, Debug, PartialEq, Eq, Structural)]
pub enum SourceFormat {
    /// A JSON array of records.
    Json,
    /// A binary TES3 plugin.
    Binary,
}

/// How the converted plugin is to be encoded.
#[derive(Clone, Copy, Debug, PartialEq, Eq, Structural)]
pub enum OutputFormat {
    /// A binary TES3 plugin.
    Binary,
    /// JSON text, indented unless `compact`.
    Json { compact: bool },
}

/// Failures that this library decides itself.
#[derive(Clone, Copy, Debug, PartialEq, Eq, Structural)]
pub enum ConvertError {
    /// The input begins with a byte that neither format starts with.
    UnrecognizedFormat,
    /// Every numbered backup slot is taken.
    BackupExhausted,
}

impl ConvertError {
    /// A human-readable description of the failure.
    pub fn message(&self) -> (r: String)
        ensures
            *self == ConvertError::UnrecognizedFormat ==> r@ == "Invalid input."@,
            *self == ConvertError::BackupExhausted ==> r@ == "Failed to create backup."@,
    {
        match self {
            ConvertError::UnrecognizedFormat => String::from_str("Invalid input."),
            ConvertError::BackupExhausted => String::from_str("Failed to create backup."),
        }
    }
}

/// The first byte of a JSON array, `[`.
pub const JSON_LEAD: u8 = 0x5b;

/// The first byte of a binary plugin's `TES3` signature, `T`.
pub const BINARY_LEAD: u8 = 0x54;

/// The decoding that the first byte of `bytes` calls for.
pub open spec fn sniff_spec(bytes: Seq<u8>) -> Result<SourceFormat, ConvertError> {
    if bytes.len() > 0 && bytes[0] == JSON_LEAD {
        Ok(SourceFormat::Json)
    } else if bytes.len() > 0 && bytes[0] == BINARY_LEAD {
        Ok(SourceFormat::Binary)
    } else {
        Err(ConvertError::UnrecognizedFormat)
    }
}

/// Decide from the first byte whether the input is JSON or a binary plugin.
pub fn sniff(bytes: &[u8]) -> (r: Result<SourceFormat, ConvertError>)
    ensures
        r == sniff_spec(bytes@),
{
    if bytes.len() == 0 {
        Err(ConvertError::UnrecognizedFormat)
    } else if bytes[0] == JSON_LEAD {
        Ok(SourceFormat::Json)
    } else if bytes[0] == BINARY_LEAD {
        Ok(SourceFormat::Binary)
    } else {
        Err(ConvertError::UnrecognizedFormat)
    }
}

/// The encoding that an output path calls for: binary for the plugin
/// extensions, JSON for anything else, the empty path included.
pub open spec fn output_format_spec(output: Seq<char>, compact: bool) -> OutputFormat {
    if has_binary_extension(output) {
        OutputFormat::Binary
    } else {
        OutputFormat::Json { compact }
    }
}

/// Choose the encoding of the output from its path's extension.
pub fn select_output_format(output: &str, compact: bool) -> (r: OutputFormat)
    ensures
        r == output_format_spec(output@, compact),
{
    let ext = get_extension(output);
    if is_binary_extension(ext.as_str()) {
        OutputFormat::Binary
    } else {
        OutputFormat::Json { compact }
    }
}

/// A backup is made exactly when the destination exists and overwriting
/// was not asked for.
pub fn needs_backup(output_exists: bool, overwrite: bool) -> (r: bool)
    ensures
        r == (output_exists && !overwrite),
{
    output_exists && !overwrite
}

} // verus!
