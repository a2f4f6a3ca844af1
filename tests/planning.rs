use tes3conv::format::{
    needs_backup, select_output_format, sniff, ConvertError, OutputFormat, SourceFormat,
};
use tes3conv::pipeline::{plan_conversion, Plan};

#[test]
fn sniff_by_first_byte() {
    assert_eq!(sniff(b"[]"), Ok(SourceFormat::Json));
    assert_eq!(sniff(b"TES3\x00\x00"), Ok(SourceFormat::Binary));
    assert_eq!(sniff(b""), Err(ConvertError::UnrecognizedFormat));
    assert_eq!(sniff(b" []"), Err(ConvertError::UnrecognizedFormat));
    assert_eq!(sniff(b"tes3"), Err(ConvertError::UnrecognizedFormat));
}

#[test]
fn output_format_follows_extension() {
    assert_eq!(select_output_format("a.esp", false), OutputFormat::Binary);
    assert_eq!(select_output_format("a.ESM", true), OutputFormat::Binary);
    assert_eq!(select_output_format("a.omwaddon", false), OutputFormat::Binary);
    assert_eq!(select_output_format("a.tmp", false), OutputFormat::Binary);
    assert_eq!(select_output_format("a.json", true), OutputFormat::Json { compact: true });
    assert_eq!(select_output_format("", false), OutputFormat::Json { compact: false });
}

#[test]
fn backup_only_when_destination_exists_and_not_overwriting() {
    assert!(needs_backup(true, false));
    assert!(!needs_backup(true, true));
    assert!(!needs_backup(false, false));
    assert!(!needs_backup(false, true));
}

#[test]
fn plugin_to_json_pretty_then_compact() {
    let raw = b"TES3\x00\x01";
    let pretty = plan_conversion(raw, "plugin.json", false, false, false);
    assert_eq!(
        pretty,
        Ok(Plan {
            source: SourceFormat::Binary,
            backup: false,
            target: OutputFormat::Json { compact: false },
            to_stdout: false,
        })
    );
    let compact = plan_conversion(raw, "plugin.json", true, false, true);
    assert_eq!(
        compact,
        Ok(Plan {
            source: SourceFormat::Binary,
            backup: true,
            target: OutputFormat::Json { compact: true },
            to_stdout: false,
        })
    );
}

#[test]
fn empty_json_to_plugin() {
    assert_eq!(
        plan_conversion(b"[]", "a.esp", false, false, false),
        Ok(Plan {
            source: SourceFormat::Json,
            backup: false,
            target: OutputFormat::Binary,
            to_stdout: false,
        })
    );
}

#[test]
fn stdout_is_never_backed_up() {
    assert_eq!(
        plan_conversion(b"[]", "", true, false, true),
        Ok(Plan {
            source: SourceFormat::Json,
            backup: false,
            target: OutputFormat::Json { compact: true },
            to_stdout: true,
        })
    );
}

#[test]
fn unrecognized_input_stops_the_plan() {
    assert_eq!(
        plan_conversion(b"{}", "a.json", false, false, true),
        Err(ConvertError::UnrecognizedFormat)
    );
    assert_eq!(
        plan_conversion(b"", "a.esp", false, true, false),
        Err(ConvertError::UnrecognizedFormat)
    );
}

#[test]
fn overwrite_skips_backup() {
    let plan = plan_conversion(b"[", "x.json", false, true, true).unwrap();
    assert!(!plan.backup);
}
