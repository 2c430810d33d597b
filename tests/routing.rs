use dive_service::echo::echo_outcome;
use dive_service::envelope::{Content, ErrorKind};
use dive_service::fetch::fetch_outcome;
use dive_service::router::{Field, ParamValue, ToolKind, ToolRegistry};
use dive_service::service::DiveDefaultService;

fn text_field(name: &str, value: &str) -> Field {
    Field { name: name.to_string(), value: ParamValue::Text(value.to_string()) }
}

#[test]
fn service_lists_seven_tools() {
    let service = DiveDefaultService::new();
    let names: Vec<&str> = service.list_tools().iter().map(|d| d.name.as_str()).collect();
    assert_eq!(
        names,
        vec!["echo", "fetch", "read_file", "write_file", "list_directory", "create_directory", "delete_file"]
    );
}

#[test]
fn unknown_tool_is_not_found_even_with_bad_payload() {
    let service = DiveDefaultService::new();
    let payload = vec![Field { name: "path".to_string(), value: ParamValue::Other }];
    let e = service.dispatch("no_such_tool", &payload).unwrap_err();
    assert_eq!(e.kind, ErrorKind::ToolNotFound);
    assert_eq!(e.message, "tool not found");
}

#[test]
fn dispatch_write_file_reads_args_in_schema_order() {
    let service = DiveDefaultService::new();
    let payload = vec![text_field("content", "hello"), text_field("path", "/tmp/t.txt")];
    let inv = service.dispatch("write_file", &payload).unwrap();
    assert_eq!(inv.kind, ToolKind::WriteFile);
    assert_eq!(inv.args, vec!["/tmp/t.txt".to_string(), "hello".to_string()]);
}

#[test]
fn dispatch_takes_first_field_of_a_name() {
    let service = DiveDefaultService::new();
    let payload = vec![text_field("path", "/first"), text_field("path", "/second")];
    let inv = service.dispatch("read_file", &payload).unwrap();
    assert_eq!(inv.kind, ToolKind::ReadFile);
    assert_eq!(inv.args, vec!["/first".to_string()]);
}

#[test]
fn missing_parameter_is_invalid() {
    let service = DiveDefaultService::new();
    let e = service.dispatch("write_file", &vec![text_field("path", "/tmp/t.txt")]).unwrap_err();
    assert_eq!(e.kind, ErrorKind::InvalidParameters);
    assert_eq!(e.message, "missing field `content`");
}

#[test]
fn non_text_parameter_is_invalid() {
    let service = DiveDefaultService::new();
    let payload = vec![Field { name: "path".to_string(), value: ParamValue::Other }];
    let e = service.dispatch("delete_file", &payload).unwrap_err();
    assert_eq!(e.kind, ErrorKind::InvalidParameters);
    assert_eq!(e.message, "invalid type for field `path`");
}

#[test]
fn duplicate_names_are_rejected() {
    let a = ToolRegistry::from_tools(dive_service::echo::tool_list()).unwrap();
    let b = ToolRegistry::from_tools(dive_service::echo::tool_list()).unwrap();
    assert_eq!(a.compose(b).unwrap_err(), "echo");
    let mut twice = dive_service::fetch::tool_list();
    twice.extend(dive_service::fetch::tool_list());
    assert_eq!(ToolRegistry::from_tools(twice).unwrap_err(), "fetch");
}

#[test]
fn composition_keeps_order() {
    let a = ToolRegistry::from_tools(dive_service::fetch::tool_list()).unwrap();
    let b = ToolRegistry::from_tools(dive_service::echo::tool_list()).unwrap();
    let all = a.compose(b).unwrap();
    let names: Vec<&str> = all.tools().iter().map(|d| d.name.as_str()).collect();
    assert_eq!(names, vec!["fetch", "echo"]);
}

#[test]
fn echo_returns_message_unchanged() {
    let out = echo_outcome("ping \u{1F600}".to_string());
    assert!(out.success);
    assert_eq!(out.content, vec![Content::Text("ping \u{1F600}".to_string())]);
}

#[test]
fn fetch_outcomes() {
    let out = fetch_outcome(Ok("<html></html>".to_string())).unwrap();
    assert_eq!(out.content, vec![Content::Text("<html></html>".to_string())]);
    let e = fetch_outcome(Err("error sending request".to_string())).unwrap_err();
    assert_eq!(e.kind, ErrorKind::InternalError);
    assert_eq!(e.message, "Failed to fetch: error sending request");
}

#[test]
fn server_description() {
    let info = DiveDefaultService::new().get_info();
    assert_eq!(info.instructions.as_deref(), Some("default mcp server for dive client"));
    assert!(info.supports_tools);
    assert!(info.notifies_tool_list_changed);
}
