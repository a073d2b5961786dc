use ytdl_supervisor::progress::{parse_progress_line, monitor_step, MonitorStep};

#[test]
fn parses_typical_progress_line() {
    let line = "[download]  45.2% of 10.00MiB at 1.00MiB/s ETA 00:05";
    assert_eq!(parse_progress_line(line), Some(45200));
}

#[test]
fn line_without_percent_sign_gives_nothing() {
    let line = "[download] Destination: My Video.mp4";
    assert_eq!(parse_progress_line(line), None);
}

#[test]
fn marker_without_digits_gives_nothing() {
    let line = "[download] % of nothing";
    assert_eq!(parse_progress_line(line), None);
}

#[test]
fn percent_without_marker_gives_nothing() {
    let line = "progress 45.2% of 10MiB";
    assert_eq!(parse_progress_line(line), None);
}

#[test]
fn parses_whole_number_percent() {
    assert_eq!(parse_progress_line("[download] 100% of 3.00MiB"), Some(100000));
    assert_eq!(parse_progress_line("[download]   0.0% of 3.00MiB"), Some(0));
}

#[test]
fn tolerates_blanks_before_percent_sign() {
    assert_eq!(parse_progress_line("[download]  45.2 % of x"), Some(45200));
}

#[test]
fn keeps_up_to_three_fractional_digits() {
    assert_eq!(parse_progress_line("[download] 45.255% of x"), Some(45255));
    assert_eq!(parse_progress_line("[download] 45.2559% of x"), Some(45255));
    assert_eq!(parse_progress_line("[download] 7.5% of x"), Some(7500));
}

#[test]
fn malformed_numbers_are_ignored() {
    // a second decimal point spoils the token
    assert_eq!(parse_progress_line("[download] 4.5.2% of x"), None);
    // a stray letter between the digits and the percent sign
    assert_eq!(parse_progress_line("[download] 4e2% of x"), None);
}

#[test]
fn trailing_dot_reads_as_whole_number() {
    assert_eq!(parse_progress_line("[download] 45.% of x"), Some(45000));
}

#[test]
fn oversized_value_is_ignored() {
    let line = "[download] 99999999999999999999999999% of x";
    assert_eq!(parse_progress_line(line), None);
}

#[test]
fn run_between_first_digit_and_percent_must_be_numeric() {
    // extraction starts at the first digit after the bracket; the stray "3"
    // makes the run up to the percent sign non-numeric
    assert_eq!(parse_progress_line("[download] frag 3 12.5% done"), None);
}

#[test]
fn monitor_stops_on_cancellation_before_parsing() {
    let line = "[download]  45.2% of 10.00MiB at 1.00MiB/s ETA 00:05";
    assert_eq!(monitor_step(true, line), MonitorStep::Stop);
}

#[test]
fn monitor_emits_parsed_percentage() {
    let line = "[download]  45.2% of 10.00MiB at 1.00MiB/s ETA 00:05";
    assert_eq!(monitor_step(false, line), MonitorStep::Emit(45200));
    assert_eq!(monitor_step(false, "noise"), MonitorStep::Ignore);
}
