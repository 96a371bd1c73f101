use docker_stats::utils;
use docker_stats::utils::Severity;

#[test]
fn misc_empty() {
    let command = utils::build_command(vec![]);

    assert_eq!(command, vec!["stats", "--format", "json"]);
}

#[test]
fn misc_containers() {
    let command = utils::build_command(vec!["123".to_string(), "456".to_string()]);

    assert_eq!(command, vec!["stats", "--format", "json", "123", "456"]);
}

#[test]
fn misc_containers_with_flags() {
    // "ds 123 -c 456 -f": the flags leave the containers 123 and 456.
    let command = utils::build_command(vec!["123".to_string(), "456".to_string()]);

    assert_eq!(command, vec!["stats", "--format", "json", "123", "456"]);
}

#[test]
fn misc_usize_to_status() {
    // Should be low
    assert_eq!(utils::usize_to_status(0, 10), ("".to_string(), Severity::Low));
    assert_eq!(utils::usize_to_status(4, 10), ("████".to_string(), Severity::Low));

    // Should be medium
    assert_eq!(utils::usize_to_status(5, 10), ("█████".to_string(), Severity::Medium));
    assert_eq!(utils::usize_to_status(7, 10), ("███████".to_string(), Severity::Medium));

    // Should be high
    assert_eq!(utils::usize_to_status(8, 10), ("████████".to_string(), Severity::High));
    assert_eq!(utils::usize_to_status(10, 10), ("██████████".to_string(), Severity::High));
}

#[test]
fn misc_scale_between() {
    // Pitfalls
    assert_eq!(utils::scale_between(vec![0, 0], 1, 10), None);

    // Common cases
    assert_eq!(utils::scale_between(vec![1, 2], 1, 10), Some(vec![1, 10]));
    assert_eq!(utils::scale_between(vec![1, 2, 3], 1, 10), Some(vec![1, 5, 10]));

    // Should be squished in the range
    assert_eq!(utils::scale_between(vec![1, 2], 1, 1), Some(vec![1, 1]));
    assert_eq!(utils::scale_between(vec![1, 3, 2], 1, 1), Some(vec![1, 1, 1]));
}

#[test]
fn misc_fill_on_even() {
    // Pitfalls
    assert_eq!(utils::fill_on_even("-", 0, 0), "");
    assert_eq!(utils::fill_on_even("-", 0, 5), "");

    // Common cases
    assert_eq!(utils::fill_on_even("-", 5, 0), "- - -");
    assert_eq!(utils::fill_on_even("-", 5, 1), "- - ");
}

#[test]
fn misc_balanced_split() {
    assert_eq!(utils::balanced_split(0), vec![0, 0]);
    assert_eq!(utils::balanced_split(1), vec![0, 1]);
    assert_eq!(utils::balanced_split(2), vec![1, 1]);
    assert_eq!(utils::balanced_split(3), vec![1, 2]);
}
