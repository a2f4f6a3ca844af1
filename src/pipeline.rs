//! The decisions of one conversion run, in the order the run takes them.
use vstd::prelude::*;

use crate::format::{
    needs_backup, output_format_spec, select_output_format, sniff, sniff_spec, ConvertError,
    OutputFormat, SourceFormat,
};

verus! {

/// What a conversion run does once its input bytes are read.
#[derive(Clone, Copy, Debug, PartialEq, Eq, Structural)]
pub struct Plan {
    /// How to decode the input.
    pub source: SourceFormat,
    /// Whether the existing destination is copied aside first.
    pub backup: bool,
    /// How to encode the sorted plugin.
    pub target: OutputFormat,
    /// Whether the encoded bytes go to standard output rather than a file.
    pub to_stdout: bool,
}

/// The plan for input bytes `raw` and destination `output`, or the error
/// that stops the run before anything is decoded or written.
pub open spec fn plan_spec(
    raw: Seq<u8>,
    output: Seq<char>,
    compact: bool,
    overwrite: bool,
    output_exists: bool,
) -> Result<Plan, ConvertError> {
    match sniff_spec(raw) {
        Ok(source) => Ok(
            Plan {
                source,
                backup: output.len() > 0 && output_exists && !overwrite,
                target: output_format_spec(output, compact),
                to_stdout: output.len() == 0,
            },
        ),
        Err(e) => Err(e),
    }
}

/// Decide how to convert `raw` into `output`; `output_exists` tells whether
/// a file is already at `output`. The empty output means standard output,
/// which is never backed up.
pub fn plan_conversion(
    raw: &[u8],
    output: &str,
    compact: bool,
    overwrite: bool,
    output_exists: bool,
) -> (r: Result<Plan, ConvertError>)
    ensures
        r == plan_spec(raw@, output@, compact, overwrite, output_exists),
{
    let source = sniff(raw)?;
    let to_stdout = output.is_empty();
    Ok(
        Plan {
            source,
            backup: !to_stdout && needs_backup(output_exists, overwrite),
            target: select_output_format(output, compact),
            to_stdout,
        },
    )
}

} // verus!
