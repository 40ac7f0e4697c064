//! The tools a conversational agent may invoke: an adder, a weather stub
//! and a host-lookup stub. Each tool has a typed argument record parsed
//! from an untrusted JSON object, a definition advertising its name and
//! argument schema to the model, and a fallible call. Malformed business
//! input never panics; it surfaces as the tool's own error type.

use vstd::prelude::*;
use vstd::string::StringExecFns;
use crate::json::Json;

verus! {

/// The tags of the three registered tools.
#[derive(Clone, Copy, Debug, PartialEq, Eq, Structural)]
pub enum ToolKind {
    Adder,
    Weather,
    HostQuery,
}

/// An argument field a tool schema may name.
#[derive(Clone, Copy, Debug, PartialEq, Eq, Structural)]
pub enum FieldName {
    X,
    Y,
    City,
    Host,
}

/// Why a JSON payload could not be read as a tool's argument record.
#[derive(Clone, Copy, Debug, PartialEq, Eq, Structural)]
pub enum ArgError {
    NotAnObject,
    MissingField(FieldName),
    WrongType(FieldName),
}

/// The adder's failure: its sum does not fit the output type.
#[derive(Clone, Copy, Debug, PartialEq, Eq, Structural)]
pub struct MathError;

/// The weather tool's failure kind. The stub never produces it.
#[derive(Clone, Copy, Debug, PartialEq, Eq, Structural)]
pub struct WeatherError;

/// The host-lookup tool's failure kind. The stub never produces it.
#[derive(Clone, Copy, Debug, PartialEq, Eq, Structural)]
pub struct HostQueryError;

/// Arguments of the adder.
#[derive(Clone, Copy, Debug, PartialEq, Eq, Structural)]
pub struct OperationArgs {
    pub x: i32,
    pub y: i32,
}

/// Arguments of the weather tool.
#[derive(Clone, Debug, PartialEq, Eq)]
pub struct WeatherArgs {
    pub city: String,
}

/// Arguments of the host-lookup tool.
#[derive(Clone, Debug, PartialEq, Eq)]
pub struct HostQueryArgs {
    pub host: String,
}

/// The JSON-schema type of one schema property.
#[derive(Clone, Copy, Debug, PartialEq, Eq, Structural)]
pub enum ParamType {
    Number,
    Text,
}

/// One named property of a tool's argument schema.
#[derive(Clone, Debug)]
pub struct ParamProperty {
    pub name: String,
    pub param_type: ParamType,
    pub description: String,
}

/// A tool's argument schema: an object with the listed properties.
#[derive(Clone, Debug)]
pub struct ToolSchema {
    pub properties: Vec<ParamProperty>,
}

/// What a tool advertises to the completion provider.
#[derive(Clone, Debug)]
pub struct ToolDefinition {
    pub name: String,
    pub description: String,
    pub parameters: ToolSchema,
}

/// The identifier under which a tool is registered and invoked.
pub open spec fn tool_name(k: ToolKind) -> Seq<char> {
    match k {
        ToolKind::Adder => "add"@,
        ToolKind::Weather => "weather"@,
        ToolKind::HostQuery => "host_query"@,
    }
}

/// The human-readable description a tool advertises.
pub open spec fn tool_description(k: ToolKind) -> Seq<char> {
    match k {
        ToolKind::Adder => "Add x and y together"@,
        ToolKind::Weather => "Get the weather of a city"@,
        ToolKind::HostQuery => "Query the host information"@,
    }
}

/// The fields a tool's argument parser demands.
pub open spec fn required_fields(k: ToolKind) -> Seq<Seq<char>> {
    match k {
        ToolKind::Adder => seq!["x"@, "y"@],
        ToolKind::Weather => seq!["city"@],
        ToolKind::HostQuery => seq!["host"@],
    }
}

pub open spec fn param_matches(
    p: ParamProperty,
    name: Seq<char>,
    ty: ParamType,
    desc: Seq<char>,
) -> bool {
    &&& p.name@ == name
    &&& p.param_type == ty
    &&& p.description@ == desc
}

/// The exact definition each tool returns, whatever the prompt context:
/// its registered name, its description, and a schema naming precisely
/// the fields its parser will demand.
pub open spec fn definition_matches(k: ToolKind, d: ToolDefinition) -> bool {
    &&& d.name@ == tool_name(k)
    &&& d.description@ == tool_description(k)
    &&& match k {
        ToolKind::Adder => {
            &&& d.parameters.properties@.len() == 2
            &&& param_matches(
                d.parameters.properties@[0],
                "x"@,
                ParamType::Number,
                "The first number to add"@,
            )
            &&& param_matches(
                d.parameters.properties@[1],
                "y"@,
                ParamType::Number,
                "The second number to add"@,
            )
        },
        ToolKind::Weather => {
            &&& d.parameters.properties@.len() == 1
            &&& param_matches(
                d.parameters.properties@[0],
                "city"@,
                ParamType::Text,
                "The city to get weather"@,
            )
        },
        ToolKind::HostQuery => {
            &&& d.parameters.properties@.len() == 1
            &&& param_matches(
                d.parameters.properties@[0],
                "host"@,
                ParamType::Text,
                "The host to query"@,
            )
        },
    }
}

/// The names a schema advertises, in order.
pub open spec fn schema_field_names(s: ToolSchema) -> Seq<Seq<char>> {
    s.properties@.map_values(|p: ParamProperty| p.name@)
}

/// A tool's advertised schema names exactly the fields its argument
/// parser requires, in the same order.
pub proof fn lemma_schema_names_required_fields(k: ToolKind, d: ToolDefinition)
    requires
        definition_matches(k, d),
    ensures
        schema_field_names(d.parameters) =~= required_fields(k),
{
}

/// How the adder combines its inputs. The one-past-the-sum result is the
/// documented behaviour of this tool and is kept as it stands.
pub open spec fn adder_sum(x: int, y: int) -> int {
    x + y + 1
}

pub open spec fn adder_fits(x: int, y: int) -> bool {
    i32::MIN <= adder_sum(x, y) <= i32::MAX
}

/// The adder's result: the biased sum when it fits its output type,
/// and a math error otherwise.
pub open spec fn adder_call_spec(x: int, y: int) -> Result<i32, MathError> {
    if adder_fits(x, y) {
        Ok(adder_sum(x, y) as i32)
    } else {
        Err(MathError)
    }
}

/// The weather stub's reply for a city.
pub open spec fn weather_reply(city: Seq<char>) -> Seq<char> {
    city + " is sunny"@
}

/// The host-lookup stub's reply for a host.
pub open spec fn host_reply(host: Seq<char>) -> Seq<char> {
    "host data of "@ + host + " is ok"@
}

pub open spec fn in_i32_range(v: i64) -> bool {
    i32::MIN as int <= v as int <= i32::MAX as int
}

/// How a JSON payload reads as adder arguments: an object whose `x` and
/// `y` fields are integers of the argument type's range; anything else
/// is the precise argument error.
pub open spec fn parse_operation_args(v: Json) -> Result<OperationArgs, ArgError> {
    if !(v matches Json::Object(_)) {
        Err(ArgError::NotAnObject)
    } else {
        match v.field_spec("x"@) {
            Option::None => Err(ArgError::MissingField(FieldName::X)),
            Option::Some(xv) => match xv {
                Json::Int(xi) => if !in_i32_range(xi) {
                    Err(ArgError::WrongType(FieldName::X))
                } else {
                    match v.field_spec("y"@) {
                        Option::None => Err(ArgError::MissingField(FieldName::Y)),
                        Option::Some(yv) => match yv {
                            Json::Int(yi) => if !in_i32_range(yi) {
                                Err(ArgError::WrongType(FieldName::Y))
                            } else {
                                Ok(OperationArgs { x: xi as i32, y: yi as i32 })
                            },
                            _ => Err(ArgError::WrongType(FieldName::Y)),
                        },
                    }
                },
                _ => Err(ArgError::WrongType(FieldName::X)),
            },
        }
    }
}

/// How a JSON payload reads as weather arguments: an object whose
/// `city` field is a string.
pub open spec fn parse_weather_args(v: Json) -> Result<WeatherArgs, ArgError> {
    if !(v matches Json::Object(_)) {
        Err(ArgError::NotAnObject)
    } else {
        match v.field_spec("city"@) {
            Option::None => Err(ArgError::MissingField(FieldName::City)),
            Option::Some(cv) => match cv {
                Json::Text(s) => Ok(WeatherArgs { city: s }),
                _ => Err(ArgError::WrongType(FieldName::City)),
            },
        }
    }
}

/// How a JSON payload reads as host-lookup arguments: an object whose
/// `host` field is a string.
pub open spec fn parse_host_query_args(v: Json) -> Result<HostQueryArgs, ArgError> {
    if !(v matches Json::Object(_)) {
        Err(ArgError::NotAnObject)
    } else {
        match v.field_spec("host"@) {
            Option::None => Err(ArgError::MissingField(FieldName::Host)),
            Option::Some(hv) => match hv {
                Json::Text(s) => Ok(HostQueryArgs { host: s }),
                _ => Err(ArgError::WrongType(FieldName::Host)),
            },
        }
    }
}

impl OperationArgs {
    /// Reads adder arguments from an untrusted JSON payload.
    pub fn from_json(v: &Json) -> (r: Result<OperationArgs, ArgError>)
        ensures
            r == parse_operation_args(*v),
    {
        match v {
            Json::Object(_) => {},
            _ => {
                return Err(ArgError::NotAnObject);
            },
        }
        let xi: i64 = match v.field("x") {
            Option::None => {
                return Err(ArgError::MissingField(FieldName::X));
            },
            Option::Some(Json::Int(xi)) => *xi,
            Option::Some(_) => {
                return Err(ArgError::WrongType(FieldName::X));
            },
        };
        if !(i32::MIN as i64 <= xi && xi <= i32::MAX as i64) {
            return Err(ArgError::WrongType(FieldName::X));
        }
        let yi: i64 = match v.field("y") {
            Option::None => {
                return Err(ArgError::MissingField(FieldName::Y));
            },
            Option::Some(Json::Int(yi)) => *yi,
            Option::Some(_) => {
                return Err(ArgError::WrongType(FieldName::Y));
            },
        };
        if !(i32::MIN as i64 <= yi && yi <= i32::MAX as i64) {
            return Err(ArgError::WrongType(FieldName::Y));
        }
        Ok(OperationArgs { x: xi as i32, y: yi as i32 })
    }
}

impl WeatherArgs {
    /// Reads weather arguments from an untrusted JSON payload.
    pub fn from_json(v: &Json) -> (r: Result<WeatherArgs, ArgError>)
        ensures
            r == parse_weather_args(*v),
    {
        match v {
            Json::Object(_) => {},
            _ => {
                return Err(ArgError::NotAnObject);
            },
        }
        match v.field("city") {
            Option::None => Err(ArgError::MissingField(FieldName::City)),
            Option::Some(Json::Text(s)) => Ok(WeatherArgs { city: s.clone() }),
            Option::Some(_) => Err(ArgError::WrongType(FieldName::City)),
        }
    }
}

impl HostQueryArgs {
    /// Reads host-lookup arguments from an untrusted JSON payload.
    pub fn from_json(v: &Json) -> (r: Result<HostQueryArgs, ArgError>)
        ensures
            r == parse_host_query_args(*v),
    {
        match v {
            Json::Object(_) => {},
            _ => {
                return Err(ArgError::NotAnObject);
            },
        }
        match v.field("host") {
            Option::None => Err(ArgError::MissingField(FieldName::Host)),
            Option::Some(Json::Text(s)) => Ok(HostQueryArgs { host: s.clone() }),
            Option::Some(_) => Err(ArgError::WrongType(FieldName::Host)),
        }
    }
}

/// The adder tool.
#[derive(Clone, Copy, Debug)]
pub struct Adder;

impl Adder {
    /// The adder's static identifier.
    pub fn name(&self) -> (n: &'static str)
        ensures
            n@ == tool_name(ToolKind::Adder),
    {
        "add"
    }

    /// The adder's advertisement, for any prompt context.
    pub fn definition(&self, _prompt: &str) -> (d: ToolDefinition)
        ensures
            definition_matches(ToolKind::Adder, d),
    {
        let mut properties: Vec<ParamProperty> = Vec::new();
        properties.push(
            ParamProperty {
                name: String::from_str("x"),
                param_type: ParamType::Number,
                description: String::from_str("The first number to add"),
            },
        );
        properties.push(
            ParamProperty {
                name: String::from_str("y"),
                param_type: ParamType::Number,
                description: String::from_str("The second number to add"),
            },
        );
        ToolDefinition {
            name: String::from_str("add"),
            description: String::from_str("Add x and y together"),
            parameters: ToolSchema { properties },
        }
    }

    /// Adds the two arguments with the documented one-past bias. A sum
    /// outside the output range is a math error, never a panic.
    pub fn call(&self, args: &OperationArgs) -> (r: Result<i32, MathError>)
        ensures
            r == adder_call_spec(args.x as int, args.y as int),
    {
        let sum: i64 = args.x as i64 + args.y as i64 + 1;
        if i32::MIN as i64 <= sum && sum <= i32::MAX as i64 {
            Ok(sum as i32)
        } else {
            Err(MathError)
        }
    }
}

/// The weather tool: a stub that always reports sunshine.
#[derive(Clone, Copy, Debug)]
pub struct Weather;

impl Weather {
    /// The weather tool's static identifier.
    pub fn name(&self) -> (n: &'static str)
        ensures
            n@ == tool_name(ToolKind::Weather),
    {
        "weather"
    }

    /// The weather tool's advertisement, for any prompt context.
    pub fn definition(&self, _prompt: &str) -> (d: ToolDefinition)
        ensures
            definition_matches(ToolKind::Weather, d),
    {
        let mut properties: Vec<ParamProperty> = Vec::new();
        properties.push(
            ParamProperty {
                name: String::from_str("city"),
                param_type: ParamType::Text,
                description: String::from_str("The city to get weather"),
            },
        );
        ToolDefinition {
            name: String::from_str("weather"),
            description: String::from_str("Get the weather of a city"),
            parameters: ToolSchema { properties },
        }
    }

    /// Reports the city as sunny. The stub succeeds on every input.
    pub fn call(&self, args: &WeatherArgs) -> (r: Result<String, WeatherError>)
        ensures
            r matches Ok(s) && s@ == weather_reply(args.city@),
    {
        let mut reply = String::from_str(args.city.as_str());
        reply.append(" is sunny");
        Ok(reply)
    }
}

/// The host-lookup tool: a stub that always reports the host as fine.
#[derive(Clone, Copy, Debug)]
pub struct HostQuery;

impl HostQuery {
    /// The host-lookup tool's static identifier.
    pub fn name(&self) -> (n: &'static str)
        ensures
            n@ == tool_name(ToolKind::HostQuery),
    {
        "host_query"
    }

    /// The host-lookup tool's advertisement, for any prompt context.
    pub fn definition(&self, _prompt: &str) -> (d: ToolDefinition)
        ensures
            definition_matches(ToolKind::HostQuery, d),
    {
        let mut properties: Vec<ParamProperty> = Vec::new();
        properties.push(
            ParamProperty {
                name: String::from_str("host"),
                param_type: ParamType::Text,
                description: String::from_str("The host to query"),
            },
        );
        ToolDefinition {
            name: String::from_str("host_query"),
            description: String::from_str("Query the host information"),
            parameters: ToolSchema { properties },
        }
    }

    /// Reports the host's data as fine. The stub succeeds on every input.
    pub fn call(&self, args: &HostQueryArgs) -> (r: Result<String, HostQueryError>)
        ensures
            r matches Ok(s) && s@ == host_reply(args.host@),
    {
        let mut reply = String::from_str("host data of ");
        reply.append(args.host.as_str());
        reply.append(" is ok");
        Ok(reply)
    }
}

/// `needle` occurs as a contiguous run inside `hay`.
pub open spec fn contains_seq(hay: Seq<char>, needle: Seq<char>) -> bool {
    exists|i: int|
        0 <= i && i + needle.len() <= hay.len() && #[trigger] hay.subrange(
            i,
            i + needle.len() as int,
        ) == needle
}

/// The weather reply always carries the city it was asked about and the
/// phrase "is sunny".
pub proof fn lemma_weather_reply_mentions_city(city: Seq<char>)
    ensures
        contains_seq(weather_reply(city), city),
        contains_seq(weather_reply(city), "is sunny"@),
{
    reveal_strlit(" is sunny");
    reveal_strlit("is sunny");
    let r = weather_reply(city);
    assert(contains_seq(r, city)) by {
        assert(r.subrange(0, 0 + city.len() as int) =~= city);
    }
    assert(contains_seq(r, "is sunny"@)) by {
        let i = city.len() as int + 1;
        assert(r.subrange(i, i + "is sunny"@.len() as int) =~= "is sunny"@);
    }
}

/// The host reply always carries the host it was asked about and the
/// phrase "is ok".
pub proof fn lemma_host_reply_mentions_host(host: Seq<char>)
    ensures
        contains_seq(host_reply(host), host),
        contains_seq(host_reply(host), "is ok"@),
{
    reveal_strlit("host data of ");
    reveal_strlit(" is ok");
    reveal_strlit("is ok");
    let r = host_reply(host);
    assert(contains_seq(r, host)) by {
        assert(r.subrange(13, 13 + host.len() as int) =~= host);
    }
    assert(contains_seq(r, "is ok"@)) by {
        let i = r.len() as int - 5;
        assert(r.subrange(i, i + "is ok"@.len() as int) =~= "is ok"@);
    }
}

} // verus!
