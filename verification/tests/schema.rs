use da_harness::schema::{
    argument_schema, combined_schema, combined_schema_text, generate_tool_schema, join_schemas,
    ToolDescription,
};
use schemars::schema::{
    InstanceType, Metadata, ObjectValidation, Schema, SchemaObject, SingleOrVec,
};
use schemars::{JsonSchema, SchemaGenerator};

fn text_schema(description: Option<&str>) -> Schema {
    let mut object = SchemaObject::default();
    object.instance_type = Some(SingleOrVec::Single(Box::new(InstanceType::String)));
    if let Some(d) = description {
        object.metadata =
            Some(Box::new(Metadata { description: Some(d.to_string()), ..Metadata::default() }));
    }
    Schema::Object(object)
}

fn struct_schema(metadata: Metadata, properties: Vec<(&str, Schema)>) -> Schema {
    let mut object = SchemaObject::default();
    object.instance_type = Some(SingleOrVec::Single(Box::new(InstanceType::Object)));
    object.metadata = Some(Box::new(metadata));
    let mut validation = ObjectValidation::default();
    for (name, schema) in properties {
        validation.required.insert(name.to_string());
        validation.properties.insert(name.to_string(), schema);
    }
    object.object = Some(Box::new(validation));
    Schema::Object(object)
}

/// Looks up the current weather for a given location.
struct GetWeather;

impl JsonSchema for GetWeather {
    fn schema_name() -> String {
        "GetWeather".to_string()
    }

    fn json_schema(_: &mut SchemaGenerator) -> Schema {
        struct_schema(
            Metadata {
                title: Some("GetWeather".to_string()),
                description: Some("Looks up the current weather for a given location.".to_string()),
                ..Metadata::default()
            },
            vec![
                (
                    "location",
                    text_schema(Some("The city and country, e.g. \"London, UK\" or \"Tokyo, Japan\".")),
                ),
                (
                    "unit",
                    text_schema(Some("The temperature unit to use: \"celsius\" or \"fahrenheit\".")),
                ),
            ],
        )
    }
}

enum SharedAction {}

impl JsonSchema for SharedAction {
    fn schema_name() -> String {
        "SharedAction".to_string()
    }

    fn json_schema(_: &mut SchemaGenerator) -> Schema {
        let mut object = SchemaObject::default();
        object.instance_type = Some(SingleOrVec::Single(Box::new(InstanceType::String)));
        object.enum_values = Some(vec![
            serde_json::Value::String("Query".to_string()),
            serde_json::Value::String("Stop".to_string()),
        ]);
        Schema::Object(object)
    }
}

struct TestRequest;

impl JsonSchema for TestRequest {
    fn schema_name() -> String {
        "TestRequest".to_string()
    }

    fn json_schema(generator: &mut SchemaGenerator) -> Schema {
        let action = generator.subschema_for::<SharedAction>();
        struct_schema(Metadata::default(), vec![("action", action), ("data", text_schema(None))])
    }
}

struct TestResponse;

impl JsonSchema for TestResponse {
    fn schema_name() -> String {
        "TestResponse".to_string()
    }

    fn json_schema(generator: &mut SchemaGenerator) -> Schema {
        let action = generator.subschema_for::<SharedAction>();
        struct_schema(Metadata::default(), vec![("action", action), ("result", text_schema(None))])
    }
}

fn describe<T: JsonSchema>(path: &str) -> ToolDescription {
    let mut generator = SchemaGenerator::default();
    let schema = T::json_schema(&mut generator);
    generate_tool_schema(path, &schema, &mut generator).unwrap()
}

#[test]
fn test_tool_schema() {
    let tool = describe::<GetWeather>("da_harness::tests::test_tool_schema::GetWeather");
    println!("{}", serde_json::to_string_pretty(&tool.parameters).unwrap());

    assert_eq!(tool.name, "GetWeather");
    assert_eq!(
        tool.description.as_deref(),
        Some("Looks up the current weather for a given location.")
    );
    let parameters = tool.parameters.as_object().unwrap();
    assert!(!parameters.contains_key("title"));
    assert!(!parameters.contains_key("description"));
    assert!(!parameters.contains_key("definitions"));
    assert_eq!(
        parameters["$schema"],
        serde_json::Value::String("http://json-schema.org/draft-07/schema#".to_string())
    );
    assert_eq!(parameters["type"], serde_json::Value::String("object".to_string()));
    // What describes the arguments themselves stays.
    assert_eq!(
        parameters["properties"]["unit"]["description"],
        serde_json::Value::String(
            "The temperature unit to use: \"celsius\" or \"fahrenheit\".".to_string()
        )
    );
}

#[test]
fn test_shared_type_deduplicated() {
    let mut schema_gen = SchemaGenerator::default();
    let request_schema = TestRequest::json_schema(&mut schema_gen);
    let response_schema = TestResponse::json_schema(&mut schema_gen);

    assert!(
        schema_gen.definitions().contains_key("SharedAction"),
        "SharedAction should be in definitions"
    );

    let combined = combined_schema(&request_schema, &response_schema, &mut schema_gen).unwrap();
    let schema_obj = combined.as_object().unwrap();
    println!("{}", serde_json::to_string_pretty(&combined).unwrap());

    assert_eq!(schema_obj.len(), 3);
    assert_eq!(schema_obj["definitions"].as_object().unwrap().len(), 1);
    assert!(schema_obj["definitions"].get("SharedAction").is_some());
    assert!(schema_gen.definitions().is_empty());

    let req_str = serde_json::to_string(&schema_obj["Request"]).unwrap();
    let resp_str = serde_json::to_string(&schema_obj["Response"]).unwrap();

    assert!(
        req_str.contains("SharedAction"),
        "Request should reference SharedAction: {}",
        req_str
    );
    assert!(
        resp_str.contains("SharedAction"),
        "Response should reference SharedAction: {}",
        resp_str
    );
}

#[test]
fn tool_schema_holds_the_definitions_it_refers_to() {
    let tool = describe::<TestRequest>("TestRequest");
    assert_eq!(tool.name, "TestRequest");
    assert_eq!(tool.description, None);
    let parameters = tool.parameters.as_object().unwrap();
    assert!(parameters["definitions"].get("SharedAction").is_some());
    assert_eq!(
        parameters["properties"]["action"]["$ref"],
        serde_json::Value::String("#/definitions/SharedAction".to_string())
    );
}

#[test]
fn boolean_schema_makes_an_empty_object() {
    let mut generator = SchemaGenerator::default();
    let tool = generate_tool_schema("a::Any", &Schema::Bool(true), &mut generator).unwrap();
    assert_eq!(tool.name, "Any");
    assert_eq!(tool.description, None);
    let parameters = tool.parameters.as_object().unwrap();
    assert_eq!(parameters.len(), 1);
    assert!(parameters.contains_key("$schema"));
}

#[test]
fn argument_schema_without_a_meta_schema() {
    let v: serde_json::Value =
        serde_json::from_str(r#"{"title":"T","description":"D","type":"object","x":1}"#).unwrap();
    let plain = argument_schema(&v, None, None);
    assert_eq!(plain, serde_json::from_str::<serde_json::Value>(r#"{"type":"object","x":1}"#).unwrap());
    let defs = serde_json::Value::Bool(true);
    let full = argument_schema(&v, Some(defs), Some("url".to_string()));
    assert_eq!(
        full,
        serde_json::from_str::<serde_json::Value>(
            r#"{"type":"object","x":1,"definitions":true,"$schema":"url"}"#
        )
        .unwrap()
    );
}

#[test]
fn schemas_are_joined_under_their_names() {
    let q = serde_json::Value::Bool(true);
    let a = serde_json::Value::Null;
    let joined = join_schemas(q, a, None);
    assert_eq!(
        joined,
        serde_json::from_str::<serde_json::Value>(r#"{"Request":true,"Response":null}"#).unwrap()
    );
}

#[test]
fn combined_schema_as_text() {
    let mut generator = SchemaGenerator::default();
    let text =
        combined_schema_text(&Schema::Bool(true), &Schema::Bool(false), &mut generator).unwrap();
    assert_eq!(text, "{\n  \"Request\": true,\n  \"Response\": false\n}");
}
