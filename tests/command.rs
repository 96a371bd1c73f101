use docker_stats::utils;

#[test]
fn command_empty() {
    let command = utils::build_command(vec![]);

    assert_eq!(command, vec!["stats", "--format", "json"]);
}

#[test]
fn command_containers() {
    let command = utils::build_command(vec!["123".to_string(), "456".to_string()]);

    assert_eq!(command, vec!["stats", "--format", "json", "123", "456"]);
}

#[test]
fn command_containers_with_flags() {
    // "ds 123 -c 456 -f": the flags leave the containers 123 and 456.
    let command = utils::build_command(vec!["123".to_string(), "456".to_string()]);

    assert_eq!(command, vec!["stats", "--format", "json", "123", "456"]);
}
