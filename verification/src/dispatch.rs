use vstd::prelude::*;
use crate::counter::Counter;
use crate::counter::wrap_dec;
use crate::counter::wrap_inc;
use crate::decimal::dec_string;
use crate::decimal::to_decimal;

verus! {

/// The three operations the server exposes, one per tool name.
#[derive(Clone, Copy, Debug, PartialEq, Eq, Structural)]
pub enum Tool {
    Increment,
    Decrement,
    GetCounter,
}

/// The effect of one tool call on the counter value.
pub open spec fn apply_tool(v: int, t: Tool) -> int {
    match t {
        Tool::Increment => wrap_inc(v),
        Tool::Decrement => wrap_dec(v),
        Tool::GetCounter => v,
    }
}

/// The tool, if any, that a request name denotes.
pub open spec fn tool_of(name: Seq<char>) -> Option<Tool> {
    if name == "increment"@ {
        Some(Tool::Increment)
    } else if name == "decrement"@ {
        Some(Tool::Decrement)
    } else if name == "get_counter"@ {
        Some(Tool::GetCounter)
    } else {
        None
    }
}

/// Relies on str's PartialEq: string slices are equal exactly when their
/// character sequences are.
#[verifier::external_body]
fn str_eq(a: &str, b: &str) -> (r: bool)
    ensures
        r == (a@ == b@),
{
    a == b
}

/// Resolves a request name to one of the three tools.
pub fn parse_tool(name: &str) -> (t: Option<Tool>)
    ensures
        t == tool_of(name@),
{
    if str_eq(name, "increment") {
        Some(Tool::Increment)
    } else if str_eq(name, "decrement") {
        Some(Tool::Decrement)
    } else if str_eq(name, "get_counter") {
        Some(Tool::GetCounter)
    } else {
        None
    }
}

/// The one per-call failure the dispatcher reports: the request named a tool
/// that is not in the fixed set of three.
#[derive(Clone, Copy, Debug, PartialEq, Eq, Structural)]
pub enum ToolError {
    MethodNotFound,
}

impl ToolError {
    /// The machine-readable code of the error, as the wire protocol numbers
    /// it.
    pub fn code(&self) -> (c: i32)
        ensures
            c == -32601,
    {
        -32601
    }

    /// A human-readable message for the error.
    pub fn message(&self) -> (m: String)
        ensures
            m@ == "method not found"@,
    {
        "method not found".to_owned()
    }
}

/// One entry of the discovery list: a tool's name and a human-readable
/// description.
pub struct ToolDescriptor {
    pub name: String,
    pub description: String,
}

/// What the discovery list must hold: exactly the three tools, each under
/// its name, each with its fixed description.
pub open spec fn is_tool_list(ts: Seq<ToolDescriptor>) -> bool {
    &&& ts.len() == 3
    &&& ts[0].name@ == "increment"@
    &&& ts[0].description@ == "Tool that increments and decrements a counter"@
    &&& ts[1].name@ == "decrement"@
    &&& ts[1].description@ == "Tool that decrements a counter"@
    &&& ts[2].name@ == "get_counter"@
    &&& ts[2].description@ == "Tool that returns the current value of the counter"@
}

/// Builds the static list of tool descriptors.
pub fn tool_descriptors() -> (ts: Vec<ToolDescriptor>)
    ensures
        is_tool_list(ts@),
{
    let mut ts: Vec<ToolDescriptor> = Vec::new();
    ts.push(ToolDescriptor {
        name: "increment".to_owned(),
        description: "Tool that increments and decrements a counter".to_owned(),
    });
    ts.push(ToolDescriptor {
        name: "decrement".to_owned(),
        description: "Tool that decrements a counter".to_owned(),
    });
    ts.push(ToolDescriptor {
        name: "get_counter".to_owned(),
        description: "Tool that returns the current value of the counter".to_owned(),
    });
    ts
}

/// One page of the discovery response: every tool, and no further page.
pub struct ToolsPage {
    pub tools: Vec<ToolDescriptor>,
    pub next_cursor: Option<String>,
}

/// The discovery operation. A pagination cursor is accepted but unused:
/// every tool fits in the first page, so no next cursor is ever handed out.
pub fn list_tools(_cursor: Option<String>) -> (page: ToolsPage)
    ensures
        is_tool_list(page.tools@),
        page.next_cursor is None,
{
    ToolsPage { tools: tool_descriptors(), next_cursor: None }
}

/// The static server identity: protocol version, capability flag, build
/// identity and usage instructions.
pub struct ServerInfoData {
    pub protocol_version: String,
    pub tools_supported: bool,
    pub server_name: String,
    pub server_version: String,
    pub instructions: String,
}

/// Builds the fixed server identity record.
pub fn get_info() -> (info: ServerInfoData)
    ensures
        info.protocol_version@ == "2024-11-05"@,
        info.tools_supported,
        info.server_name@ == "counter_server"@,
        info.server_version@ == "0.1.0"@,
        info.instructions@
            == "This server provide counter tools that can increment, decrement, and retrieve the current value of a counter. Use the 'increment', 'decrement', and 'get_counter' tools to interact with the counter."@,
{
    ServerInfoData {
        protocol_version: "2024-11-05".to_owned(),
        tools_supported: true,
        server_name: "counter_server".to_owned(),
        server_version: "0.1.0".to_owned(),
        instructions:
            "This server provide counter tools that can increment, decrement, and retrieve the current value of a counter. Use the 'increment', 'decrement', and 'get_counter' tools to interact with the counter."
                .to_owned(),
    }
}

/// The invocation operation: routes a request name to the counter operation
/// it denotes and formats the resulting value as decimal text. The three
/// tools take no parameters, so any argument payload a transport may carry
/// is ignored; an unknown name changes nothing and reports an error.
pub fn call_tool(counter: &mut Counter, name: &str) -> (r: Result<String, ToolError>)
    ensures
        final(counter)@ == (match tool_of(name@) {
            Some(t) => apply_tool(old(counter)@, t),
            None => old(counter)@,
        }),
        r is Ok <==> tool_of(name@) is Some,
        r matches Ok(text) ==> text@ == dec_string(final(counter)@),
        r matches Err(e) ==> e == ToolError::MethodNotFound && final(counter)@ == old(counter)@,
{
    match parse_tool(name) {
        Some(Tool::Increment) => {
            let v = counter.increment();
            Ok(to_decimal(v))
        },
        Some(Tool::Decrement) => {
            let v = counter.decrement();
            Ok(to_decimal(v))
        },
        Some(Tool::GetCounter) => {
            let v = counter.get_counter();
            Ok(to_decimal(v))
        },
        None => Err(ToolError::MethodNotFound),
    }
}

} // verus!
