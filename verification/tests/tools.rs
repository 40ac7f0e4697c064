use rig_play::json::Json;
use rig_play::tools::{
    Adder, ArgError, FieldName, HostQuery, HostQueryArgs, MathError, OperationArgs, ParamType,
    Weather, WeatherArgs,
};

#[test]
fn adder_keeps_its_biased_sum() {
    // The one-past-the-sum result is the tool's documented behaviour.
    let r = Adder.call(&OperationArgs { x: 2, y: 2 });
    assert_eq!(r, Ok(5));
    let r = Adder.call(&OperationArgs { x: -1, y: -1 });
    assert_eq!(r, Ok(-1));
    let r = Adder.call(&OperationArgs { x: 0, y: 0 });
    assert_eq!(r, Ok(1));
}

#[test]
fn adder_overflow_is_a_math_error() {
    let r = Adder.call(&OperationArgs { x: i32::MAX, y: 0 });
    assert_eq!(r, Err(MathError));
    let r = Adder.call(&OperationArgs { x: i32::MIN, y: -2 });
    assert_eq!(r, Err(MathError));
    // The largest sum that still fits.
    let r = Adder.call(&OperationArgs { x: i32::MAX - 1, y: 0 });
    assert_eq!(r, Ok(i32::MAX));
}

#[test]
fn weather_stub_mentions_city_and_sunshine() {
    let r = Weather.call(&WeatherArgs { city: String::from("Paris") }).unwrap();
    assert_eq!(r, "Paris is sunny");
    assert!(r.contains("Paris"));
    assert!(r.contains("is sunny"));
}

#[test]
fn host_query_stub_mentions_host_and_ok() {
    let r = HostQuery
        .call(&HostQueryArgs { host: String::from("example.org") })
        .unwrap();
    assert_eq!(r, "host data of example.org is ok");
    assert!(r.contains("example.org"));
    assert!(r.contains("is ok"));
}

#[test]
fn tool_names_are_static() {
    assert_eq!(Adder.name(), "add");
    assert_eq!(Weather.name(), "weather");
    assert_eq!(HostQuery.name(), "host_query");
}

#[test]
fn definitions_carry_static_names_for_any_prompt() {
    assert_eq!(Adder.definition("").name, "add");
    assert_eq!(Adder.definition("what is 2 + 2").name, "add");
    assert_eq!(Weather.definition("").name, "weather");
    assert_eq!(Weather.definition("weather in Oslo").name, "weather");
    assert_eq!(HostQuery.definition("").name, "host_query");
    assert_eq!(HostQuery.definition("check example.org").name, "host_query");
}

#[test]
fn adder_schema_lists_x_and_y_as_numbers() {
    let d = Adder.definition("");
    assert_eq!(d.description, "Add x and y together");
    let props = &d.parameters.properties;
    assert_eq!(props.len(), 2);
    assert_eq!(props[0].name, "x");
    assert_eq!(props[0].param_type, ParamType::Number);
    assert_eq!(props[0].description, "The first number to add");
    assert_eq!(props[1].name, "y");
    assert_eq!(props[1].param_type, ParamType::Number);
    assert_eq!(props[1].description, "The second number to add");
}

#[test]
fn string_tool_schemas_list_their_one_field() {
    let d = Weather.definition("");
    assert_eq!(d.description, "Get the weather of a city");
    assert_eq!(d.parameters.properties.len(), 1);
    assert_eq!(d.parameters.properties[0].name, "city");
    assert_eq!(d.parameters.properties[0].param_type, ParamType::Text);

    let d = HostQuery.definition("");
    assert_eq!(d.description, "Query the host information");
    assert_eq!(d.parameters.properties.len(), 1);
    assert_eq!(d.parameters.properties[0].name, "host");
    assert_eq!(d.parameters.properties[0].param_type, ParamType::Text);
}

#[test]
fn operation_args_read_x_and_y() {
    let v = Json::Object(vec![
        (String::from("x"), Json::Int(2)),
        (String::from("y"), Json::Int(40)),
    ]);
    let a = OperationArgs::from_json(&v).unwrap();
    assert_eq!(a.x, 2);
    assert_eq!(a.y, 40);
}

#[test]
fn operation_args_reject_bad_payloads() {
    let empty = Json::Object(vec![]);
    assert_eq!(
        OperationArgs::from_json(&empty),
        Err(ArgError::MissingField(FieldName::X))
    );

    let only_x = Json::Object(vec![(String::from("x"), Json::Int(2))]);
    assert_eq!(
        OperationArgs::from_json(&only_x),
        Err(ArgError::MissingField(FieldName::Y))
    );

    let not_object = Json::Int(3);
    assert_eq!(OperationArgs::from_json(&not_object), Err(ArgError::NotAnObject));

    let text_x = Json::Object(vec![
        (String::from("x"), Json::Text(String::from("two"))),
        (String::from("y"), Json::Int(2)),
    ]);
    assert_eq!(
        OperationArgs::from_json(&text_x),
        Err(ArgError::WrongType(FieldName::X))
    );

    let huge_y = Json::Object(vec![
        (String::from("x"), Json::Int(1)),
        (String::from("y"), Json::Int(3_000_000_000)),
    ]);
    assert_eq!(
        OperationArgs::from_json(&huge_y),
        Err(ArgError::WrongType(FieldName::Y))
    );
}

#[test]
fn string_args_read_their_field() {
    let v = Json::Object(vec![(String::from("city"), Json::Text(String::from("Oslo")))]);
    assert_eq!(WeatherArgs::from_json(&v).unwrap().city, "Oslo");
    let missing = Json::Object(vec![]);
    assert_eq!(
        WeatherArgs::from_json(&missing),
        Err(ArgError::MissingField(FieldName::City))
    );

    let v = Json::Object(vec![(String::from("host"), Json::Text(String::from("example.org")))]);
    assert_eq!(HostQueryArgs::from_json(&v).unwrap().host, "example.org");
    let wrong = Json::Object(vec![(String::from("host"), Json::Int(4))]);
    assert_eq!(
        HostQueryArgs::from_json(&wrong),
        Err(ArgError::WrongType(FieldName::Host))
    );
}
