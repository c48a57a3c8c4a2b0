use counter_server::counter::Counter;
use counter_server::dispatch::call_tool;
use counter_server::dispatch::get_info;
use counter_server::dispatch::list_tools;
use counter_server::dispatch::parse_tool;
use counter_server::dispatch::tool_descriptors;
use counter_server::dispatch::Tool;
use counter_server::dispatch::ToolError;

#[test]
fn get_counter_on_fresh_counter_is_zero_text() {
    let mut c = Counter::new();
    let r = call_tool(&mut c, "get_counter");
    assert_eq!(r.unwrap(), "0");
}

#[test]
fn increment_twice_gives_one_then_two() {
    let mut c = Counter::new();
    assert_eq!(call_tool(&mut c, "increment").unwrap(), "1");
    assert_eq!(call_tool(&mut c, "increment").unwrap(), "2");
}

#[test]
fn decrement_three_times_from_two() {
    let mut c = Counter::new();
    call_tool(&mut c, "increment").unwrap();
    call_tool(&mut c, "increment").unwrap();
    assert_eq!(call_tool(&mut c, "decrement").unwrap(), "1");
    assert_eq!(call_tool(&mut c, "decrement").unwrap(), "0");
    assert_eq!(call_tool(&mut c, "decrement").unwrap(), "-1");
}

#[test]
fn discovery_lists_exactly_the_three_tools() {
    let ts = tool_descriptors();
    assert_eq!(ts.len(), 3);
    assert_eq!(ts[0].name, "increment");
    assert_eq!(ts[1].name, "decrement");
    assert_eq!(ts[2].name, "get_counter");
    for t in &ts {
        assert!(!t.description.is_empty());
    }
}

#[test]
fn discovery_page_has_no_next_cursor() {
    let page = list_tools(None);
    assert_eq!(page.tools.len(), 3);
    assert!(page.next_cursor.is_none());
    let paged = list_tools(Some("anything".to_string()));
    assert_eq!(paged.tools.len(), 3);
    assert!(paged.next_cursor.is_none());
}

#[test]
fn unknown_tool_is_method_not_found_and_state_is_kept() {
    let mut c = Counter::new();
    call_tool(&mut c, "increment").unwrap();
    let r = call_tool(&mut c, "reset");
    assert_eq!(r, Err(ToolError::MethodNotFound));
    assert_eq!(call_tool(&mut c, "get_counter").unwrap(), "1");
}

#[test]
fn method_not_found_has_code_and_message() {
    let e = ToolError::MethodNotFound;
    assert_eq!(e.code(), -32601);
    assert_eq!(e.message(), "method not found");
}

#[test]
fn parse_tool_resolves_each_name_and_nothing_else() {
    assert_eq!(parse_tool("increment"), Some(Tool::Increment));
    assert_eq!(parse_tool("decrement"), Some(Tool::Decrement));
    assert_eq!(parse_tool("get_counter"), Some(Tool::GetCounter));
    assert_eq!(parse_tool(""), None);
    assert_eq!(parse_tool("Increment"), None);
    assert_eq!(parse_tool("increment "), None);
}

#[test]
fn server_info_is_the_fixed_identity() {
    let info = get_info();
    assert_eq!(info.protocol_version, "2024-11-05");
    assert!(info.tools_supported);
    assert_eq!(info.server_name, "counter_server");
    assert_eq!(info.server_version, "0.1.0");
    assert!(!info.instructions.is_empty());
    assert!(info.instructions.contains("increment"));
}
