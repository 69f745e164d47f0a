use notify_mcp::handler::{CallToolRequest, NotifyServerHandler};
use notify_mcp::registry::{Registry, RegistryError};
use notify_mcp::schema::{FieldType, ParamProblem};
use notify_mcp::session::{server_details, server_options, DEFAULT_PORT, PING_INTERVAL_SECS};
use notify_mcp::tools::{
    CallResult, CallToolError, ContentBlock, NotificationTools, NotifyError, NotifyTool, ToolKind,
};
use notify_mcp::value::{find_field, Value};

fn text(s: &str) -> Value {
    Value::Text(s.to_string())
}

fn args(pairs: Vec<(&str, Value)>) -> Vec<(String, Value)> {
    pairs.into_iter().map(|(k, v)| (k.to_string(), v)).collect()
}

fn request(name: &str, arguments: Option<Vec<(String, Value)>>) -> CallToolRequest {
    CallToolRequest { name: name.to_string(), arguments }
}

fn only_text(r: &CallResult) -> &str {
    assert_eq!(r.content.len(), 1);
    match &r.content[0] {
        ContentBlock::Text(t) => t.as_str(),
    }
}

#[test]
fn test_notify_error_display() {
    let dbus_error_msg = "D-Bus connection failed";
    let notify_error = NotifyError(format!("Failed to send notification: {}", dbus_error_msg));
    assert_eq!(
        notify_error.to_string(),
        "Failed to send notification: D-Bus connection failed"
    );
}

#[test]
fn test_notify_tool_success_message_formatting() {
    let tool = NotifyTool::new("Test Title".to_string(), "Test Message".to_string());
    let expected_success_output = CallResult::text_content(
        "Notification sent successfully with title: \"Test Title\" and message: \"Test Message\""
            .to_string(),
    );
    let actual_result = tool.call_tool(Ok(())).unwrap();
    assert_eq!(only_text(&actual_result), only_text(&expected_success_output));
}

#[test]
fn list_tools_gives_one_descriptor_per_tool_on_every_call() {
    let h = NotifyServerHandler::new();
    let first = h.handle_list_tools_request();
    let second = h.handle_list_tools_request();
    assert_eq!(first.tools.len(), 1);
    assert_eq!(format!("{:?}", first.tools), format!("{:?}", second.tools));
    let d = &first.tools[0];
    assert_eq!(d.name, "notify");
    assert_eq!(d.description, "Sends a desktop notification with the given title and message");
    let fields = &d.parameter_schema.fields;
    assert_eq!(fields.len(), 2);
    assert_eq!(fields[0].name, "title");
    assert_eq!(fields[0].description, "The title of the notification.");
    assert_eq!(fields[1].name, "message");
    assert_eq!(fields[1].description, "The message body of the notification.");
    assert!(fields.iter().all(|f| f.required && f.field_type == FieldType::Text));
    assert_eq!(fields[0].field_type.schema_name(), "string");
}

#[test]
fn valid_call_is_confirmed_with_one_text_block() {
    let h = NotifyServerHandler::new();
    let req = request("notify", Some(args(vec![("title", text("Build")), ("message", text("Done"))])));
    let call = h.handle_call_tool_request(&req).unwrap();
    assert_eq!(call.tool_name(), "notify");
    let answer = call.call_tool(Ok(())).unwrap();
    assert!(!answer.is_error);
    assert_eq!(
        only_text(&answer),
        "Notification sent successfully with title: \"Build\" and message: \"Done\""
    );
}

#[test]
fn decoded_call_copies_the_fields() {
    let h = NotifyServerHandler::new();
    let req = request(
        "notify",
        Some(args(vec![("message", text("Body")), ("extra", Value::Bool(true)), ("title", text("Head"))])),
    );
    match h.handle_call_tool_request(&req).unwrap() {
        NotificationTools::NotifyTool(t) => {
            assert_eq!(t.title(), "Head");
            assert_eq!(t.message(), "Body");
        }
    }
}

#[test]
fn unknown_tool_is_refused() {
    let h = NotifyServerHandler::new();
    let req = request("alert", Some(args(vec![("title", text("a")), ("message", text("b"))])));
    match h.handle_call_tool_request(&req) {
        Err(e) => {
            assert!(matches!(&e, CallToolError::UnknownTool(n) if n == "alert"));
            assert_eq!(e.message(), "Unknown tool: alert");
        }
        Ok(_) => panic!("an unknown tool was decoded"),
    }
}

#[test]
fn missing_message_is_invalid_params() {
    let h = NotifyServerHandler::new();
    let req = request("notify", Some(args(vec![("title", text("Build"))])));
    match h.handle_call_tool_request(&req) {
        Err(CallToolError::InvalidParams(p)) => {
            assert_eq!(p.field, "message");
            assert_eq!(p.problem, ParamProblem::Missing);
            assert_eq!(p.message(), "missing field `message`");
        }
        other => panic!("expected invalid params, got {:?}", other),
    }
}

#[test]
fn wrong_typed_title_is_invalid_params() {
    let h = NotifyServerHandler::new();
    let req = request(
        "notify",
        Some(args(vec![("title", Value::Number("5".to_string())), ("message", text("Done"))])),
    );
    match h.handle_call_tool_request(&req) {
        Err(e) => {
            assert!(matches!(&e, CallToolError::InvalidParams(p)
                if p.field == "title" && p.problem == ParamProblem::WrongType));
            assert_eq!(e.message(), "invalid type for field `title`: expected a string");
        }
        Ok(_) => panic!("a number was taken as a title"),
    }
}

#[test]
fn null_for_a_required_field_is_a_wrong_type() {
    let h = NotifyServerHandler::new();
    let req = request("notify", Some(args(vec![("title", text("a")), ("message", Value::Null)])));
    match h.handle_call_tool_request(&req) {
        Err(CallToolError::InvalidParams(p)) => {
            assert_eq!(p.field, "message");
            assert_eq!(p.problem, ParamProblem::WrongType);
        }
        other => panic!("expected invalid params, got {:?}", other),
    }
}

#[test]
fn absent_arguments_read_as_empty() {
    let h = NotifyServerHandler::new();
    match h.handle_call_tool_request(&request("notify", None)) {
        Err(CallToolError::InvalidParams(p)) => {
            assert_eq!(p.field, "title");
            assert_eq!(p.problem, ParamProblem::Missing);
        }
        other => panic!("expected invalid params, got {:?}", other),
    }
}

#[test]
fn notifier_failure_is_execution_failed() {
    let tool = NotifyTool::new("Build".to_string(), "Done".to_string());
    match tool.call_tool(Err("D-Bus connection failed".to_string())) {
        Err(e) => {
            assert!(matches!(&e, CallToolError::ExecutionFailed(_)));
            let m = e.message();
            assert_eq!(m, "Failed to send notification: D-Bus connection failed");
            assert!(m.contains("D-Bus connection failed"));
        }
        Ok(_) => panic!("a failed notification was confirmed"),
    }
}

#[test]
fn registering_notify_twice_fails() {
    match NotifyServerHandler::with_tools(&vec![ToolKind::Notify, ToolKind::Notify]) {
        Err(RegistryError::DuplicateRegistration(n)) => assert_eq!(n, "notify"),
        Ok(_) => panic!("a duplicate registration was accepted"),
    }
    let h = NotifyServerHandler::with_tools(&vec![ToolKind::Notify]).unwrap();
    assert_eq!(h.handle_list_tools_request().tools.len(), 1);
}

#[test]
fn registry_keeps_registration_order_and_refuses_duplicates() {
    let mut r = Registry::new();
    assert_eq!(r.describe_all().len(), 0);
    assert!(r.register(ToolKind::Notify).is_ok());
    assert!(matches!(r.register(ToolKind::Notify), Err(RegistryError::DuplicateRegistration(_))));
    let all = r.describe_all();
    assert_eq!(all.len(), 1);
    assert_eq!(all[0].name, "notify");
    let params = args(vec![("title", text("x")), ("message", text("y"))]);
    assert!(r.decode(&"notify".to_string(), &params).is_ok());
    assert!(matches!(
        r.decode(&"nope".to_string(), &params),
        Err(CallToolError::UnknownTool(_))
    ));
}

#[test]
fn field_lookup_takes_the_first_entry() {
    let params = args(vec![("a", text("1")), ("b", Value::Bool(false)), ("a", text("2"))]);
    assert!(matches!(find_field(&params, &"a".to_string()), Some(Value::Text(s)) if s == "1"));
    assert!(matches!(find_field(&params, &"b".to_string()), Some(Value::Bool(false))));
    assert!(find_field(&params, &"c".to_string()).is_none());
}

#[test]
fn identity_and_options() {
    let id = server_details("2025-06-18".to_string());
    assert_eq!(id.name, "Notify MCP Server");
    assert_eq!(id.version, "0.1.0");
    assert_eq!(id.protocol_version, "2025-06-18");
    assert!(id.capabilities.tools_supported);
    assert_eq!(id.instructions.as_deref(), Some("MCP server for sending desktop notifications"));
    let o = server_options(DEFAULT_PORT);
    assert_eq!(o.host, "0.0.0.0");
    assert_eq!(o.port, 3000);
    assert_eq!(o.ping_interval_secs, PING_INTERVAL_SECS);
    assert_eq!(PING_INTERVAL_SECS, 15);
}
