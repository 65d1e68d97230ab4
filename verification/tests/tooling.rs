use neural_pulse::tool_router::detect_tool_call;
use neural_pulse::tools::{Tool, ToolRegistry};

fn call(name: &str, argument: &str) -> Option<(String, String)> {
    Some((name.to_string(), argument.to_string()))
}

#[test]
fn detects_a_plain_tool_call() {
    assert_eq!(detect_tool_call("tool:write_file:hello"), call("write_file", "hello"));
}

#[test]
fn argument_keeps_further_colons() {
    assert_eq!(detect_tool_call("tool:write_file:a:b"), call("write_file", "a:b"));
    assert_eq!(detect_tool_call("tool:x:::"), call("x", "::"));
}

#[test]
fn text_without_marker_is_no_call() {
    assert_eq!(detect_tool_call("not a tool call"), None);
    assert_eq!(detect_tool_call(""), None);
    assert_eq!(detect_tool_call("tool"), None);
    assert_eq!(detect_tool_call("Tool:write_file:x"), None);
    assert_eq!(detect_tool_call(" tool:write_file:x"), None);
    assert_eq!(detect_tool_call("a tool:write_file:x"), None);
}

#[test]
fn marker_without_second_colon_is_no_call() {
    assert_eq!(detect_tool_call("tool:"), None);
    assert_eq!(detect_tool_call("tool:write_file"), None);
}

#[test]
fn empty_name_and_empty_argument_are_kept() {
    assert_eq!(detect_tool_call("tool::"), call("", ""));
    assert_eq!(detect_tool_call("tool:read_file:"), call("read_file", ""));
    assert_eq!(detect_tool_call("tool::x"), call("", "x"));
}

#[test]
fn tool_call_with_wide_characters() {
    assert_eq!(detect_tool_call("tool:écrire:héllo €:ok"), call("écrire", "héllo €:ok"));
}

#[test]
fn registry_calls_write_file() {
    let registry = ToolRegistry::new();
    assert_eq!(
        registry.call("write_file", "x".to_string()),
        Some("File written successfully in workspace vault.".to_string())
    );
}

#[test]
fn registry_calls_read_file() {
    let registry = ToolRegistry::new();
    assert_eq!(
        registry.call("read_file", "x".to_string()),
        Some("Sample file content from neural vault.".to_string())
    );
}

#[test]
fn registry_gives_nothing_for_an_unknown_name() {
    let registry = ToolRegistry::new();
    assert_eq!(registry.call("unknown_tool", "x".to_string()), None);
    assert_eq!(registry.call("", "x".to_string()), None);
    assert_eq!(registry.call("WRITE_FILE", "x".to_string()), None);
    assert_eq!(registry.call("write_file ", "x".to_string()), None);
}

#[test]
fn tools_answer_with_their_fixed_message() {
    assert_eq!(Tool::WriteFile.run(String::new()), "File written successfully in workspace vault.");
    assert_eq!(Tool::ReadFile.run("ignored".to_string()), "Sample file content from neural vault.");
}

#[test]
fn detected_call_is_dispatched() {
    let registry = ToolRegistry::new();
    let (name, argument) = detect_tool_call("tool:write_file:hello").unwrap();
    assert_eq!(
        registry.call(&name, argument),
        Some("File written successfully in workspace vault.".to_string())
    );
    let (name, argument) = detect_tool_call("tool:format_disk:now").unwrap();
    assert_eq!(registry.call(&name, argument), None);
}
