use phoenixd_supervisor::docker_manager::{parse_container_status, ContainerStatus};

fn status(name: &str, state: &str, health: Option<&str>) -> ContainerStatus {
    ContainerStatus {
        name: name.to_string(),
        status: state.to_string(),
        health: health.map(|h| h.to_string()),
    }
}

#[test]
fn two_records_are_parsed() {
    let input = "{\"Name\":\"x\",\"State\":\"running\",\"Health\":\"healthy\"}\n{\"Name\":\"y\",\"State\":\"exited\"}";
    let statuses = parse_container_status(input);
    assert_eq!(statuses.len(), 2);
    assert_eq!(statuses[0], status("x", "running", Some("healthy")));
    assert_eq!(statuses[1], status("y", "exited", None));
    assert_eq!(statuses[1].health, None);
}

#[test]
fn malformed_lines_are_skipped() {
    let input = "{\"Name\":\"a\",\"State\":\"running\"}\nnot json at all\n{\"Name\":\"b\",\"State\":\"exited\"}\n{\"Name\":\n";
    let statuses = parse_container_status(input);
    assert_eq!(statuses, vec![status("a", "running", None), status("b", "exited", None)]);
}

#[test]
fn empty_output_has_no_status() {
    assert_eq!(parse_container_status(""), Vec::<ContainerStatus>::new());
}

#[test]
fn blank_lines_are_skipped() {
    let input = "\n{\"Name\":\"a\",\"State\":\"running\"}\n\n   \n";
    assert_eq!(parse_container_status(input), vec![status("a", "running", None)]);
}

#[test]
fn missing_name_and_state_are_unknown() {
    assert_eq!(parse_container_status("{}"), vec![status("unknown", "unknown", None)]);
    assert_eq!(
        parse_container_status("{\"Health\":\"starting\"}"),
        vec![status("unknown", "unknown", Some("starting"))]
    );
}

#[test]
fn members_that_are_no_strings_count_as_absent() {
    let input = "{\"Name\":7,\"State\":null,\"Health\":true}\n{\"Name\":[\"x\"],\"State\":{\"a\":1},\"Health\":\"\"}";
    assert_eq!(
        parse_container_status(input),
        vec![status("unknown", "unknown", None), status("unknown", "unknown", Some(""))]
    );
}

#[test]
fn documents_that_are_no_objects_are_unknown_containers() {
    let input = "42\n\"text\"\n[1,2]\nnull\ntrue";
    let statuses = parse_container_status(input);
    assert_eq!(statuses.len(), 5);
    for s in statuses {
        assert_eq!(s, status("unknown", "unknown", None));
    }
}

#[test]
fn keys_are_case_sensitive() {
    let input = "{\"name\":\"x\",\"state\":\"running\",\"health\":\"healthy\"}";
    assert_eq!(parse_container_status(input), vec![status("unknown", "unknown", None)]);
}

#[test]
fn other_members_are_ignored() {
    let input = "{\"ID\":\"abc\",\"Name\":\"web-1\",\"Service\":\"web\",\"State\":\"running\",\"Health\":\"\",\"ExitCode\":0}";
    assert_eq!(parse_container_status(input), vec![status("web-1", "running", Some(""))]);
}

#[test]
fn strings_are_unescaped() {
    let input = "{\"Name\":\"a\\\"b\\u00e9\\n\",\"State\":\"run\\\\ning\"}";
    assert_eq!(parse_container_status(input), vec![status("a\"b\u{e9}\n", "run\\ning", None)]);
}

#[test]
fn later_duplicate_member_wins() {
    let input = "{\"Name\":\"first\",\"Name\":\"second\",\"State\":\"running\"}";
    assert_eq!(parse_container_status(input), vec![status("second", "running", None)]);
}

#[test]
fn carriage_returns_end_lines_too() {
    let input = "{\"Name\":\"a\",\"State\":\"running\"}\r\n{\"Name\":\"b\",\"State\":\"exited\"}\r\n";
    assert_eq!(
        parse_container_status(input),
        vec![status("a", "running", None), status("b", "exited", None)]
    );
}

#[test]
fn a_record_over_two_lines_is_no_record() {
    let input = "{\"Name\":\"a\",\n\"State\":\"running\"}";
    assert_eq!(parse_container_status(input), Vec::<ContainerStatus>::new());
}

#[test]
fn status_from_members_fills_in_unknown() {
    assert_eq!(
        ContainerStatus::from_members(Some("x".to_string()), Some("running".to_string()), None),
        status("x", "running", None)
    );
    assert_eq!(
        ContainerStatus::from_members(None, None, Some("healthy".to_string())),
        status("unknown", "unknown", Some("healthy"))
    );
    assert_eq!(
        ContainerStatus::from_members(None, Some("".to_string()), None),
        status("unknown", "", None)
    );
}
