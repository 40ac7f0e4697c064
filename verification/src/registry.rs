//! The tool registry: the immutable set of tools attached to an agent,
//! queried to advertise definitions to the completion provider and to
//! dispatch an invocation by name. Lookup failure, argument failure and
//! tool failure are kept apart so a session can tell them apart and
//! continue.

use vstd::prelude::*;
use crate::json::{str_eq, Json};
use crate::tools::{
    adder_fits, adder_sum, definition_matches, parse_host_query_args, parse_operation_args,
    parse_weather_args, required_fields, tool_name, Adder, ArgError, HostQuery, HostQueryArgs,
    HostQueryError, MathError, OperationArgs, ToolDefinition, ToolKind, Weather, WeatherArgs,
    WeatherError, host_reply, weather_reply,
};

verus! {

/// A tool-specific execution failure, tagged by the tool it came from.
#[derive(Clone, Copy, Debug, PartialEq, Eq, Structural)]
pub enum ToolError {
    Math(MathError),
    Weather(WeatherError),
    HostQuery(HostQueryError),
}

/// Why a dispatch failed: the name is not registered, the payload did
/// not read as the tool's arguments, or the tool itself failed.
#[derive(Debug)]
pub enum DispatchError {
    ToolNotFound(String),
    ArgDeserialization(ToolKind, ArgError),
    ToolFailed(ToolKind, ToolError),
}

/// Which registered tool answers to `name`: the tool whose identifier
/// reads `name`, if it is registered.
pub open spec fn lookup_in(tools: Seq<ToolKind>, name: Seq<char>) -> Option<ToolKind> {
    if name == tool_name(ToolKind::Adder) && tools.contains(ToolKind::Adder) {
        Some(ToolKind::Adder)
    } else if name == tool_name(ToolKind::Weather) && tools.contains(ToolKind::Weather) {
        Some(ToolKind::Weather)
    } else if name == tool_name(ToolKind::HostQuery) && tools.contains(ToolKind::HostQuery) {
        Some(ToolKind::HostQuery)
    } else {
        None
    }
}

/// Distinct tools answer to distinct identifiers.
pub proof fn lemma_tool_names_distinct(k1: ToolKind, k2: ToolKind)
    requires
        k1 != k2,
    ensures
        tool_name(k1) != tool_name(k2),
{
    reveal_strlit("add");
    reveal_strlit("weather");
    reveal_strlit("host_query");
    assert("add"@.len() == 3);
    assert("weather"@.len() == 7);
    assert("host_query"@.len() == 10);
}

/// Lookup by a registered tool's own identifier finds exactly that tool.
pub proof fn lemma_lookup_registered(tools: Seq<ToolKind>, k: ToolKind)
    requires
        tools.contains(k),
    ensures
        lookup_in(tools, tool_name(k)) == Some(k),
{
    lemma_tool_names_distinct(ToolKind::Adder, ToolKind::Weather);
    lemma_tool_names_distinct(ToolKind::Adder, ToolKind::HostQuery);
    lemma_tool_names_distinct(ToolKind::Weather, ToolKind::HostQuery);
}

/// Everything a dispatch outcome must satisfy: an unregistered name is
/// reported as a lookup failure carrying that name; a registered tool
/// first has its arguments read, and a malformed payload is reported as
/// that tool's deserialization failure; well-formed arguments reach the
/// tool, whose result or error is passed through.
pub open spec fn dispatch_post(
    tools: Seq<ToolKind>,
    name: Seq<char>,
    args: Json,
    r: Result<Json, DispatchError>,
) -> bool {
    match lookup_in(tools, name) {
        Option::None => r matches Err(e) && e matches DispatchError::ToolNotFound(n) && n@
            == name,
        Option::Some(k) => match k {
            ToolKind::Adder => match parse_operation_args(args) {
                Result::Err(e) => r == Err::<Json, DispatchError>(
                    DispatchError::ArgDeserialization(ToolKind::Adder, e),
                ),
                Result::Ok(a) => if adder_fits(a.x as int, a.y as int) {
                    r == Ok::<Json, DispatchError>(
                        Json::Int(adder_sum(a.x as int, a.y as int) as i64),
                    )
                } else {
                    r == Err::<Json, DispatchError>(
                        DispatchError::ToolFailed(ToolKind::Adder, ToolError::Math(MathError)),
                    )
                },
            },
            ToolKind::Weather => match parse_weather_args(args) {
                Result::Err(e) => r == Err::<Json, DispatchError>(
                    DispatchError::ArgDeserialization(ToolKind::Weather, e),
                ),
                Result::Ok(a) => r matches Ok(j) && j matches Json::Text(s) && s@
                    == weather_reply(a.city@),
            },
            ToolKind::HostQuery => match parse_host_query_args(args) {
                Result::Err(e) => r == Err::<Json, DispatchError>(
                    DispatchError::ArgDeserialization(ToolKind::HostQuery, e),
                ),
                Result::Ok(a) => r matches Ok(j) && j matches Json::Text(s) && s@
                    == host_reply(a.host@),
            },
        },
    }
}

/// Dispatch by an unregistered tool name fails with the lookup error
/// carrying that name — never a deserialization or execution error.
pub proof fn lemma_unknown_name_is_lookup_error(
    tools: Seq<ToolKind>,
    name: Seq<char>,
    args: Json,
    r: Result<Json, DispatchError>,
)
    requires
        lookup_in(tools, name) is None,
        dispatch_post(tools, name, args, r),
    ensures
        r matches Err(e) && e matches DispatchError::ToolNotFound(n) && n@ == name,
{
}

/// A payload that misses one of a tool's required fields fails with a
/// deserialization error attributed to that tool; the tool is never run.
pub proof fn lemma_missing_field_is_deserialization_error(
    tools: Seq<ToolKind>,
    name: Seq<char>,
    args: Json,
    f: Seq<char>,
    k: ToolKind,
    r: Result<Json, DispatchError>,
)
    requires
        lookup_in(tools, name) == Some(k),
        required_fields(k).contains(f),
        args.field_spec(f) is None,
        dispatch_post(tools, name, args, r),
    ensures
        r matches Err(e) && e matches DispatchError::ArgDeserialization(k2, _) && k2 == k,
{
}

/// Every advertised definition carries the identifier of the tool it
/// came from, whatever the prompt context was.
pub proof fn lemma_definition_name_is_tool_name(k: ToolKind, d: ToolDefinition)
    requires
        definition_matches(k, d),
    ensures
        d.name@ == tool_name(k),
{
}

/// Where no tool is registered twice, no two registered tools share an
/// advertised name.
pub proof fn lemma_registered_names_unique(tools: Seq<ToolKind>, i: int, j: int)
    requires
        forall|a: int, b: int| 0 <= a < b < tools.len() ==> tools[a] != tools[b],
        0 <= i < j < tools.len(),
    ensures
        tool_name(tools[i]) != tool_name(tools[j]),
{
    lemma_tool_names_distinct(tools[i], tools[j]);
}

/// The immutable collection of tools available to one agent.
pub struct Registry {
    kinds: Vec<ToolKind>,
}

impl Registry {
    /// The tools registered, in registration order.
    pub closed spec fn registered(self) -> Seq<ToolKind> {
        self.kinds@
    }

    /// No tool is registered twice, so advertised names are unique.
    pub open spec fn wf(self) -> bool {
        forall|i: int, j: int|
            0 <= i < j < self.registered().len() ==> self.registered()[i] != self.registered()[j]
    }

    /// An empty registry.
    pub fn new() -> (r: Registry)
        ensures
            r.registered() == Seq::<ToolKind>::empty(),
            r.wf(),
    {
        Registry { kinds: Vec::new() }
    }

    /// The registry the demo agent is built with: all three tools.
    pub fn with_default_tools() -> (r: Registry)
        ensures
            r.registered() =~= seq![ToolKind::Adder, ToolKind::Weather, ToolKind::HostQuery],
            r.wf(),
    {
        let mut kinds: Vec<ToolKind> = Vec::new();
        kinds.push(ToolKind::Adder);
        kinds.push(ToolKind::Weather);
        kinds.push(ToolKind::HostQuery);
        Registry { kinds }
    }

    /// Whether `k` is registered.
    pub fn contains_kind(&self, k: ToolKind) -> (r: bool)
        ensures
            r == self.registered().contains(k),
    {
        let n = self.kinds.len();
        let mut i: usize = 0;
        while i < n
            invariant
                n == self.kinds@.len(),
                0 <= i <= n,
                forall|j: int| 0 <= j < i ==> self.kinds@[j] != k,
            decreases n - i,
        {
            if self.kinds[i] == k {
                return true;
            }
            i += 1;
        }
        false
    }

    /// Adds a tool. A tool already present is refused, which keeps the
    /// registered names unique.
    pub fn register(&mut self, k: ToolKind) -> (added: bool)
        ensures
            added == !old(self).registered().contains(k),
            added ==> final(self).registered() == old(self).registered().push(k),
            !added ==> final(self).registered() == old(self).registered(),
            old(self).wf() ==> final(self).wf(),
    {
        if self.contains_kind(k) {
            false
        } else {
            self.kinds.push(k);
            true
        }
    }

    /// Resolves a tool name, exactly as `lookup_in` reads it.
    pub fn lookup(&self, name: &str) -> (r: Option<ToolKind>)
        ensures
            r == lookup_in(self.registered(), name@),
    {
        proof {
            lemma_tool_names_distinct(ToolKind::Adder, ToolKind::Weather);
            lemma_tool_names_distinct(ToolKind::Adder, ToolKind::HostQuery);
            lemma_tool_names_distinct(ToolKind::Weather, ToolKind::HostQuery);
        }
        if str_eq(name, "add") {
            if self.contains_kind(ToolKind::Adder) {
                return Some(ToolKind::Adder);
            }
            return None;
        }
        if str_eq(name, "weather") {
            if self.contains_kind(ToolKind::Weather) {
                return Some(ToolKind::Weather);
            }
            return None;
        }
        if str_eq(name, "host_query") {
            if self.contains_kind(ToolKind::HostQuery) {
                return Some(ToolKind::HostQuery);
            }
            return None;
        }
        None
    }

    /// Calls `definition` on every registered tool, in order, for the
    /// given prompt context.
    pub fn list_definitions(&self, prompt: &str) -> (ds: Vec<ToolDefinition>)
        ensures
            ds@.len() == self.registered().len(),
            forall|i: int|
                0 <= i < ds@.len() ==> definition_matches(self.registered()[i], #[trigger] ds@[i]),
    {
        let mut ds: Vec<ToolDefinition> = Vec::new();
        let n = self.kinds.len();
        let mut i: usize = 0;
        while i < n
            invariant
                n == self.kinds@.len(),
                0 <= i <= n,
                ds@.len() == i,
                forall|j: int|
                    0 <= j < i ==> definition_matches(self.kinds@[j], #[trigger] ds@[j]),
            decreases n - i,
        {
            let d = match self.kinds[i] {
                ToolKind::Adder => (Adder).definition(prompt),
                ToolKind::Weather => (Weather).definition(prompt),
                ToolKind::HostQuery => (HostQuery).definition(prompt),
            };
            ds.push(d);
            i += 1;
        }
        ds
    }

    /// Resolves `name` and invokes the tool on the JSON payload. The
    /// outcome satisfies `dispatch_post` in every case.
    pub fn dispatch(&self, name: &str, args: &Json) -> (r: Result<Json, DispatchError>)
        ensures
            dispatch_post(self.registered(), name@, *args, r),
    {
        let k = match self.lookup(name) {
            Option::None => {
                return Err(DispatchError::ToolNotFound(String::from_str(name)));
            },
            Option::Some(k) => k,
        };
        match k {
            ToolKind::Adder => match OperationArgs::from_json(args) {
                Result::Err(e) => Err(DispatchError::ArgDeserialization(ToolKind::Adder, e)),
                Result::Ok(a) => match (Adder).call(&a) {
                    Result::Ok(v) => Ok(Json::Int(v as i64)),
                    Result::Err(me) => Err(
                        DispatchError::ToolFailed(ToolKind::Adder, ToolError::Math(me)),
                    ),
                },
            },
            ToolKind::Weather => match WeatherArgs::from_json(args) {
                Result::Err(e) => Err(DispatchError::ArgDeserialization(ToolKind::Weather, e)),
                Result::Ok(a) => match (Weather).call(&a) {
                    Result::Ok(s) => Ok(Json::Text(s)),
                    Result::Err(we) => Err(
                        DispatchError::ToolFailed(ToolKind::Weather, ToolError::Weather(we)),
                    ),
                },
            },
            ToolKind::HostQuery => match HostQueryArgs::from_json(args) {
                Result::Err(e) => Err(DispatchError::ArgDeserialization(ToolKind::HostQuery, e)),
                Result::Ok(a) => match (HostQuery).call(&a) {
                    Result::Ok(s) => Ok(Json::Text(s)),
                    Result::Err(he) => Err(
                        DispatchError::ToolFailed(ToolKind::HostQuery, ToolError::HostQuery(he)),
                    ),
                },
            },
        }
    }
}

} // verus!
