use dmm_logger::cli::PKG_VERSION;
use dmm_logger::csvfile::CsvFile;
use dmm_logger::scpi::Identification;
use dmm_logger::text::{repeat, trim_trailing};

fn ident() -> Identification {
    Identification {
        manufacturer: "ACME".to_string(),
        model: "Model7".to_string(),
        serial: "SN123".to_string(),
        firmware: "FW2.0".to_string(),
    }
}

fn pair(label: &str, value: &str) -> (String, String) {
    (label.to_string(), value.to_string())
}

#[test]
fn comment_line_starts_with_a_comment_sign() {
    let file = CsvFile::new();
    assert_eq!(file.write_comment("3: Too late! 0.25"), "# 3: Too late! 0.25");
    assert_eq!(file.write_comment(""), "# ");
}

#[test]
fn column_headers_name_the_seven_columns() {
    assert_eq!(
        CsvFile::new().write_column_headers(),
        "sequence,date,time,moment,delay,latency,reading"
    );
}

#[test]
fn ensure_width_only_grows() {
    let mut file = CsvFile::new();
    file.ensure_width(5);
    assert_eq!(file.width, 5);
    file.ensure_width(3);
    assert_eq!(file.width, 5);
    file.ensure_width(9);
    assert_eq!(file.width, 9);
}

#[test]
fn label_is_padded_to_the_width() {
    let file = CsvFile { width: 8 };
    assert_eq!(file.write_label_value("Model", "X"), "# Model    : X");
    assert_eq!(file.write_label_value("Firmware", "1"), "# Firmware : 1");
    assert_eq!(file.write_label_value("A longer label", "1"), "# A longer label : 1");
    assert_eq!(file.write_label_value("", ""), "#          : ");
    assert_eq!(CsvFile::new().write_label_value("a", "b"), "# a : b");
    assert_eq!(file.write_label_value("Größe", "1"), format!("# {:8} : {}", "Größe", "1"));
}

#[test]
fn title_names_the_version_and_the_time() {
    assert_eq!(
        CsvFile::new().write_title("2024-05-06 07:08:09 (+02:00)"),
        vec![
            format!("# File created by DMM logger ({PKG_VERSION}) on 2024-05-06 07:08:09 (+02:00)"),
            "#".to_string(),
        ]
    );
}

#[test]
fn user_message_stands_between_rules() {
    let file = CsvFile::new();
    assert_eq!(
        file.write_user_message(Some("  first line  \r\nsecond\n\n  indented \n")),
        vec!["# ----------", "# first line", "# second", "# ", "#   indented", "# ----------", "#"]
    );
}

#[test]
fn user_message_rule_counts_grapheme_clusters() {
    let file = CsvFile::new();
    assert_eq!(
        file.write_user_message(Some("e\u{301}\u{301}x")),
        vec!["# --", "# e\u{301}\u{301}x", "# --", "#"]
    );
}

#[test]
fn user_message_of_white_space_gives_nothing() {
    let file = CsvFile::new();
    assert!(file.write_user_message(None).is_empty());
    assert!(file.write_user_message(Some("")).is_empty());
    assert!(file.write_user_message(Some(" \n\t\r\n ")).is_empty());
}

#[test]
fn settings_block_is_empty_without_settings() {
    assert!(CsvFile::new().write_settings_description(&vec![]).is_empty());
}

#[test]
fn settings_block_lists_each_setting() {
    let file = CsvFile { width: 6 };
    assert_eq!(
        file.write_settings_description(&vec![pair("Rate", "1 Hz"), pair("NPLC", "10")]),
        vec!["# Settings", "# --------", "# Rate   : 1 Hz", "# NPLC   : 10", "#"]
    );
}

#[test]
fn identification_block_lists_the_four_fields() {
    let file = CsvFile { width: 12 };
    assert_eq!(
        file.write_instrument_identification(&ident()),
        vec![
            "# Instrument",
            "# ----------",
            "# Manufacturer : ACME",
            "# Model        : Model7",
            "# Serial       : SN123",
            "# Firmware     : FW2.0",
            "#",
        ]
    );
}

#[test]
fn column_description_explains_the_seven_columns() {
    let lines = CsvFile { width: 8 }.write_column_description();
    assert_eq!(lines.len(), 10);
    assert_eq!(lines[0], "# Fields");
    assert_eq!(lines[1], "# ------");
    assert_eq!(lines[2], "# sequence : Sequential sample number starting at 0");
    assert_eq!(lines[3], "# date     : Local date of measurement: YEAR-MONTH-DAY");
    assert_eq!(
        lines[4],
        "# time     : Local clock time of measurement: HOURS:MINUTES:SECONDS.MILLISECONDS"
    );
    assert_eq!(lines[5], "# moment   : Time in seconds since first measurement");
    assert_eq!(
        lines[6],
        "# delay    : Delay of the measurement in seconds, caused by non-real-time behavior or fast logging rate"
    );
    assert_eq!(
        lines[7],
        "# latency  : Measurement duration in seconds including network roundtrip time"
    );
    assert_eq!(lines[8], "# reading  : Measured value returned from instrument");
    assert_eq!(lines[9], "#");
}

#[test]
fn header_is_padded_to_the_longest_label() {
    let mut file = CsvFile::new();
    let settings = vec![pair("Sampling interval", "1 seconds"), pair("Sample rate", "1 Hz")];
    let lines = file.write_header(&settings, &ident(), Some("bench 3"), "2024-05-06 07:08:09 (UTC)");
    assert_eq!(file.width, 17);
    let expected = vec![
        format!("# File created by DMM logger ({PKG_VERSION}) on 2024-05-06 07:08:09 (UTC)"),
        "#".to_string(),
        "# -------".to_string(),
        "# bench 3".to_string(),
        "# -------".to_string(),
        "#".to_string(),
        "# Settings".to_string(),
        "# --------".to_string(),
        "# Sampling interval : 1 seconds".to_string(),
        "# Sample rate       : 1 Hz".to_string(),
        "#".to_string(),
        "# Instrument".to_string(),
        "# ----------".to_string(),
        "# Manufacturer      : ACME".to_string(),
        "# Model             : Model7".to_string(),
        "# Serial            : SN123".to_string(),
        "# Firmware          : FW2.0".to_string(),
        "#".to_string(),
        "# Fields".to_string(),
        "# ------".to_string(),
    ];
    assert_eq!(lines[..20], expected[..]);
    assert_eq!(lines[20], "# sequence          : Sequential sample number starting at 0");
    assert_eq!(lines.len(), 2 + 4 + 5 + 7 + 10 + 1);
    assert_eq!(lines[27], "#");
    assert_eq!(lines[28], "sequence,date,time,moment,delay,latency,reading");
}

#[test]
fn header_without_settings_is_as_wide_as_the_identification() {
    let mut file = CsvFile::new();
    let lines = file.write_header(&vec![], &ident(), None, "now");
    assert_eq!(file.width, 12);
    assert_eq!(lines[2], "# Instrument");
    assert_eq!(lines[4], "# Manufacturer : ACME");
    assert_eq!(lines.len(), 2 + 7 + 10 + 1);
}

#[test]
fn header_width_goes_by_bytes_and_padding_by_characters() {
    let mut file = CsvFile::new();
    let lines = file.write_header(&vec![pair("Größenordnung", "1")], &ident(), None, "now");
    assert_eq!(file.width, 15);
    assert_eq!(lines[4], "# Größenordnung   : 1");
    assert_eq!(lines[8], "# Manufacturer    : ACME");
}

#[test]
fn header_keeps_a_larger_width() {
    let mut file = CsvFile { width: 20 };
    file.write_header(&vec![pair("a", "1")], &ident(), None, "now");
    assert_eq!(file.width, 20);
}

#[test]
fn repeat_and_trim_trailing() {
    assert_eq!(repeat("-", 3), "---");
    assert_eq!(repeat("ab", 2), "abab");
    assert_eq!(repeat("x", 0), "");
    assert_eq!(trim_trailing("  a \t\r\n"), "  a");
    assert_eq!(trim_trailing("\u{a0}"), "");
}

#[test]
fn progress_template_with_and_without_a_limit() {
    assert_eq!(
        dmm_logger::status::progress_template(u32::MAX, "{spinner}", "{msg}", "({eta})"),
        "{spinner} [{elapsed_precise}] #{pos}: {msg}"
    );
    assert_eq!(
        dmm_logger::status::progress_template(100, "{spinner}", "{msg}", "({eta})"),
        "{spinner} [{elapsed_precise}] {bar:40.cyan/blue} #{pos}/{len}: {msg} ({eta})"
    );
}
