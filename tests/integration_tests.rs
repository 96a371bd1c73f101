use docker_stats::data::DockerStats;
use docker_stats::display::StatsDisplay;
use docker_stats::error::AppError;
use docker_stats::escape::EscapeSequenceCleaner;
use docker_stats::utils;
use docker_stats::utils::Severity;
use std::io::{Error as IoError, ErrorKind};

#[test]
fn display_docker_not_found() {
    let error = AppError::DockerNotFound;
    assert_eq!(error.message(), "Docker command not found. Please install Docker.");
}

#[test]
fn display_docker_not_running() {
    let error = AppError::DockerNotRunning;
    assert_eq!(error.message(), "Docker daemon is not running. Please start Docker.");
}

#[test]
fn display_json_parse_error() {
    let error = AppError::JsonParseError("invalid syntax".to_string());
    assert_eq!(error.message(), "Failed to parse Docker stats: invalid syntax");
}

#[test]
fn display_terminal_error() {
    let error = AppError::TerminalError("terminal size unknown".to_string());
    assert_eq!(error.message(), "Terminal error: terminal size unknown");
}

#[test]
fn convert_io_error_not_found() {
    let io_error = IoError::new(ErrorKind::NotFound, "docker command not found");
    let app_error = AppError::from(io_error);

    match app_error {
        AppError::DockerNotFound => {}
        _ => panic!("Expected DockerNotFound error"),
    }
}

#[test]
fn convert_io_error_connection_refused() {
    let io_error = IoError::new(ErrorKind::ConnectionRefused, "connection refused");
    let app_error = AppError::from(io_error);

    match app_error {
        AppError::DockerNotRunning => {}
        _ => panic!("Expected DockerNotRunning error"),
    }
}

#[test]
fn convert_generic_io_error() {
    let io_error = IoError::new(ErrorKind::PermissionDenied, "permission denied");
    let app_error = AppError::from(io_error);

    match app_error {
        AppError::IoError(_) => {}
        _ => panic!("Expected IoError variant"),
    }
}

#[test]
fn integration_tests_usize_to_status() {
    // Should be low
    assert_eq!(utils::usize_to_status(0, 10), ("".to_string(), Severity::Low));
    assert_eq!(utils::usize_to_status(4, 10), ("████".to_string(), Severity::Low));

    // Should be medium
    assert_eq!(utils::usize_to_status(5, 10), ("█████".to_string(), Severity::Medium));
    assert_eq!(utils::usize_to_status(7, 10), ("███████".to_string(), Severity::Medium));

    // Should be high
    assert_eq!(utils::usize_to_status(8, 10), ("████████".to_string(), Severity::High));
    assert_eq!(utils::usize_to_status(10, 10), ("██████████".to_string(), Severity::High));
}

#[test]
fn integration_tests_scale_between() {
    // Pitfalls
    assert_eq!(utils::scale_between(vec![0, 0], 1, 10), None);

    // Common cases
    assert_eq!(utils::scale_between(vec![1, 2], 1, 10), Some(vec![1, 10]));
    assert_eq!(utils::scale_between(vec![1, 2, 3], 1, 10), Some(vec![1, 5, 10]));

    // Should be squished in the range
    assert_eq!(utils::scale_between(vec![1, 2], 1, 1), Some(vec![1, 1]));
    assert_eq!(utils::scale_between(vec![1, 3, 2], 1, 1), Some(vec![1, 1, 1]));
}

#[test]
fn integration_tests_fill_on_even() {
    // Pitfalls
    assert_eq!(utils::fill_on_even("-", 0, 0), "");
    assert_eq!(utils::fill_on_even("-", 0, 5), "");

    // Common cases
    assert_eq!(utils::fill_on_even("-", 5, 0), "- - -");
    assert_eq!(utils::fill_on_even("-", 5, 1), "- - ");
}

#[test]
fn integration_tests_balanced_split() {
    assert_eq!(utils::balanced_split(0), vec![0, 0]);
    assert_eq!(utils::balanced_split(1), vec![0, 1]);
    assert_eq!(utils::balanced_split(2), vec![1, 1]);
    assert_eq!(utils::balanced_split(3), vec![1, 2]);
}

fn create_test_stats() -> DockerStats {
    DockerStats {
        block_io: "1.2kB / 0B".to_string(),
        cpu_perc: "25.5%".to_string(),
        id: "abc123".to_string(),
        mem_perc: "50.0%".to_string(),
        mem_usage: "512MB / 1GB".to_string(),
        name: "test-container".to_string(),
        net_io: "10kB / 5kB".to_string(),
    }
}

#[test]
fn stats_display_creation() {
    let _display = StatsDisplay::new(80, false, false);
}

#[test]
fn stats_display_with_different_modes() {
    let _display1 = StatsDisplay::new(80, true, false); // compact mode
    let _display2 = StatsDisplay::new(80, false, true); // full mode
    let _display3 = StatsDisplay::new(120, true, true); // both modes
}

#[test]
fn stats_display_with_various_widths() {
    let _display1 = StatsDisplay::new(40, false, false); // narrow
    let _display2 = StatsDisplay::new(80, false, false); // standard
    let _display3 = StatsDisplay::new(200, false, false); // wide
}

#[test]
fn docker_stats_creation() {
    let stats = create_test_stats();
    assert_eq!(stats.name, "test-container");
    assert_eq!(stats.cpu_perc, "25.5%");
    assert_eq!(stats.mem_perc, "50.0%");
}

#[test]
fn process_clean_json_line() {
    let mut cleaner = EscapeSequenceCleaner::new();
    let result = cleaner.process_line(r#"{"Name":"test","CPUPerc":"1.0%"}"#.to_string());
    assert_eq!(result, Some(r#"{"Name":"test","CPUPerc":"1.0%"}"#.to_string()));
}

#[test]
fn process_line_with_trailing_escape() {
    let mut cleaner = EscapeSequenceCleaner::new();
    let result = cleaner.process_line("{\"Name\":\"test\",\"CPUPerc\":\"1.0%\"}\u{1b}[K".to_string());
    assert_eq!(result, Some(r#"{"Name":"test","CPUPerc":"1.0%"}"#.to_string()));
}

#[test]
fn detect_screen_clear_events() {
    assert!(EscapeSequenceCleaner::is_screen_clear_event("\u{1b}[J\u{1b}[H"));
    assert!(EscapeSequenceCleaner::is_screen_clear_event("\u{1b}[J\u{1b}[H additional text"));
    assert!(!EscapeSequenceCleaner::is_screen_clear_event("normal text"));
    assert!(!EscapeSequenceCleaner::is_screen_clear_event("\u{1b}[K"));
    assert!(!EscapeSequenceCleaner::is_screen_clear_event("\u{1b}[H"));
}
