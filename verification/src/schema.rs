//! Tool descriptions and their JSON schemas.

use std::collections::BTreeMap;

use schemars::schema::Schema;
use schemars::SchemaGenerator;
use vstd::prelude::*;
use vstd::string::*;

use crate::json;
use crate::json::{
    as_object, insert_member, new_object, object_value, pretty_text, remove_member, text_value,
    JsonContents,
};
use crate::multi_tool::message::Comparable;
use crate::text;
use crate::text::final_segment;

verus! {

/// A tool as it is described to the model: its name, its documentation and the schema of its
/// arguments.
#[derive(Clone, Debug)]
pub struct ToolDescription {
    pub name: String,
    pub description: Option<String>,
    pub parameters: serde_json::Value,
}

/// Deep view of [`ToolDescription`].
pub struct ToolDescriptionView {
    pub name: Seq<char>,
    pub description: Option<Seq<char>>,
    pub parameters: serde_json::Value,
}

impl DeepView for ToolDescription {
    type V = ToolDescriptionView;

    open spec fn deep_view(&self) -> ToolDescriptionView {
        ToolDescriptionView {
            name: self.name.deep_view(),
            description: self.description.deep_view(),
            parameters: self.parameters,
        }
    }
}

impl ToolDescription {
    /// A copy of this description.
    pub fn duplicate(&self) -> (r: Self)
        ensures
            r.deep_view() == self.deep_view(),
    {
        ToolDescription {
            name: self.name.clone(),
            description: self.description.duplicate(),
            parameters: self.parameters.clone(),
        }
    }
}

/// Makes `schemars::schema::Schema` known as an opaque type.
#[verifier::external_type_specification]
#[verifier::external_body]
pub struct ExSchema(schemars::schema::Schema);

/// Makes `schemars::SchemaGenerator` known as an opaque type.
#[verifier::external_type_specification]
#[verifier::external_body]
pub struct ExSchemaGenerator(schemars::SchemaGenerator);

/// The JSON form of a schema; `None` where it has none.
pub uninterp spec fn schema_json(schema: Schema) -> Option<serde_json::Value>;

/// The JSON form of a collection of schemas by their names; `None` where it has none.
pub uninterp spec fn definitions_json(definitions: Map<String, Schema>) -> Option<
    serde_json::Value,
>;

/// The documentation that a schema carries.
pub uninterp spec fn schema_doc(schema: Schema) -> Option<Seq<char>>;

/// The schemas that a generator has collected, by their names.
pub uninterp spec fn collected(generator: SchemaGenerator) -> Map<String, Schema>;

/// The URL of the meta-schema that a generator is set up with.
pub uninterp spec fn meta_schema(generator: SchemaGenerator) -> Option<Seq<char>>;

/// Calls `serde_json::to_value` on a schema. The result depends on the schema alone.
#[verifier::external_body]
pub(crate) fn schema_value(schema: &Schema) -> (r: Result<serde_json::Value, serde_json::Error>)
    ensures
        match r {
            Ok(v) => schema_json(*schema) == Some(v),
            Err(_) => schema_json(*schema) is None,
        },
{
    serde_json::to_value(schema)
}

/// Calls `serde_json::to_value` on a collection of schemas. The result depends on the collection
/// alone.
#[verifier::external_body]
pub(crate) fn definitions_value(definitions: &BTreeMap<String, Schema>) -> (r: Result<
    serde_json::Value,
    serde_json::Error,
>)
    ensures
        match r {
            Ok(v) => definitions_json(definitions@) == Some(v),
            Err(_) => definitions_json(definitions@) is None,
        },
{
    serde_json::to_value(definitions)
}

/// Reads the `description` in the metadata of a `Schema::Object`; any other schema has none.
#[verifier::external_body]
pub(crate) fn schema_description(schema: &Schema) -> (r: Option<String>)
    ensures
        r.deep_view() == schema_doc(*schema),
{
    match schema {
        Schema::Object(object) => object.metadata.as_ref().and_then(|m| m.description.clone()),
        Schema::Bool(_) => None,
    }
}

/// Calls `SchemaGenerator::take_definitions`: hands out the schemas that the generator has
/// collected and leaves it without any. Its settings stay as they are.
#[verifier::external_body]
pub(crate) fn take_definitions(generator: &mut SchemaGenerator) -> (r: BTreeMap<String, Schema>)
    ensures
        r@ == collected(*old(generator)),
        collected(*final(generator)).is_empty(),
        meta_schema(*final(generator)) == meta_schema(*old(generator)),
{
    generator.take_definitions()
}

/// Calls `SchemaGenerator::settings` and reads `meta_schema` in the settings.
#[verifier::external_body]
pub(crate) fn meta_schema_url(generator: &SchemaGenerator) -> (r: Option<String>)
    ensures
        r.deep_view() == meta_schema(*generator),
{
    generator.settings().meta_schema.clone()
}

/// The members of `v`, where it is an object; else none.
pub open spec fn members(v: serde_json::Value) -> Map<Seq<char>, serde_json::Value> {
    match json::json_contents(v) {
        JsonContents::Object(entries) => entries,
        _ => Map::empty(),
    }
}

/// The members of `v` with the definitions, where there are any, and without what a tool description
/// says itself.
pub open spec fn argument_members(
    v: serde_json::Value,
    definitions: Option<serde_json::Value>,
) -> Map<Seq<char>, serde_json::Value> {
    let all = match definitions {
        Some(d) => members(v).insert("definitions"@, d),
        None => members(v),
    };
    all.remove("description"@).remove("title"@)
}

/// `r` is an object with the argument members and, where there is a meta-schema, its URL under
/// `$schema`.
pub open spec fn is_argument_schema(
    r: serde_json::Value,
    v: serde_json::Value,
    definitions: Option<serde_json::Value>,
    meta: Option<Seq<char>>,
) -> bool {
    json::json_contents(r) matches JsonContents::Object(found) && match meta {
        Some(url) => {
            &&& found.remove("$schema"@) == argument_members(v, definitions).remove("$schema"@)
            &&& found.contains_key("$schema"@)
            &&& json::json_text(found["$schema"@]) == Some(url)
        },
        None => found == argument_members(v, definitions),
    }
}

/// The schema of a tool's arguments: the schema `v` of their type, with the definitions that it
/// refers to and the URL of the meta-schema, and without the description and the title.
pub fn argument_schema(
    v: &serde_json::Value,
    definitions: Option<serde_json::Value>,
    meta: Option<String>,
) -> (r: serde_json::Value)
    ensures
        is_argument_schema(r, *v, definitions, meta.deep_view()),
{
    let mut object: serde_json::Map<String, serde_json::Value> = match as_object(v) {
        Some(object) => object,
        None => new_object(),
    };
    if let Some(d) = definitions {
        insert_member(&mut object, "definitions", d);
    }
    remove_member(&mut object, "description");
    remove_member(&mut object, "title");
    let ghost base = json::object_entries(object);
    assert(base == argument_members(*v, definitions));
    if let Some(url) = meta {
        insert_member(&mut object, "$schema", text_value(url));
        assert(json::object_entries(object).remove("$schema"@) =~= base.remove("$schema"@));
    }
    object_value(object)
}

/// Why a tool cannot be described.
#[derive(Clone, Copy, Debug, PartialEq, Eq, Structural)]
pub enum SchemaError {
    /// The schema of the arguments has no JSON form.
    Schema,
    /// The definitions that the schema refers to have no JSON form.
    Definitions,
    /// The combined schema has no text.
    Text,
}

/// The JSON form of the definitions, if there are any.
pub open spec fn definitions_member(definitions: Map<String, Schema>) -> Option<
    serde_json::Value,
> {
    if definitions.is_empty() {
        None
    } else {
        definitions_json(definitions)
    }
}

/// Describes a tool whose arguments are of the type with the given name and schema, the schema made
/// by the given generator.
///
/// The tool has the last segment of the type's name and the documentation of the schema.
pub fn generate_tool_schema(type_path: &str, schema: &Schema, generator: &mut SchemaGenerator) -> (r:
    Result<ToolDescription, SchemaError>)
    ensures
        collected(*final(generator)).is_empty(),
        meta_schema(*final(generator)) == meta_schema(*old(generator)),
        match r {
            Ok(tool) => {
                &&& schema_json(*schema) is Some
                &&& collected(*old(generator)).is_empty() || definitions_json(
                    collected(*old(generator)),
                ) is Some
                &&& tool.name@ == text::last_segment(type_path@)
                &&& tool.description.deep_view() == schema_doc(*schema)
                &&& is_argument_schema(
                    tool.parameters,
                    schema_json(*schema)->0,
                    definitions_member(collected(*old(generator))),
                    meta_schema(*old(generator)),
                )
            },
            Err(SchemaError::Schema) => schema_json(*schema) is None,
            Err(SchemaError::Definitions) => schema_json(*schema) is Some && !collected(
                *old(generator),
            ).is_empty() && definitions_json(collected(*old(generator))) is None,
            Err(SchemaError::Text) => false,
        },
{
    let definitions: BTreeMap<String, Schema> = take_definitions(generator);
    let v: serde_json::Value = match schema_value(schema) {
        Ok(v) => v,
        Err(_) => return Err(SchemaError::Schema),
    };
    let member: Option<serde_json::Value> = if definitions.is_empty() {
        None
    } else {
        match definitions_value(&definitions) {
            Ok(d) => Some(d),
            Err(_) => return Err(SchemaError::Definitions),
        }
    };
    Ok(
        ToolDescription {
            name: final_segment(type_path).to_owned(),
            description: schema_description(schema),
            parameters: argument_schema(&v, member, meta_schema_url(generator)),
        },
    )
}

/// The members of the combined schema of a request and a response: both schemas, and the definitions
/// that they share, where there are any.
pub open spec fn combined_members(
    request: serde_json::Value,
    response: serde_json::Value,
    definitions: Option<serde_json::Value>,
) -> Map<Seq<char>, serde_json::Value> {
    let base = match definitions {
        Some(d) => Map::<Seq<char>, serde_json::Value>::empty().insert("definitions"@, d),
        None => Map::empty(),
    };
    base.insert("Request"@, request).insert("Response"@, response)
}

/// Joins the schemas of a request and a response and the definitions that they share.
pub fn join_schemas(
    request: serde_json::Value,
    response: serde_json::Value,
    definitions: Option<serde_json::Value>,
) -> (r: serde_json::Value)
    ensures
        json::json_contents(r) == JsonContents::Object(
            combined_members(request, response, definitions),
        ),
{
    let mut object: serde_json::Map<String, serde_json::Value> = new_object();
    if let Some(d) = definitions {
        insert_member(&mut object, "definitions", d);
    }
    insert_member(&mut object, "Request", request);
    insert_member(&mut object, "Response", response);
    object_value(object)
}

/// The combined schema of a request and a response, both made by the given generator. What both
/// refer to is defined once.
pub fn combined_schema(request: &Schema, response: &Schema, generator: &mut SchemaGenerator) -> (r:
    Result<serde_json::Value, SchemaError>)
    ensures
        collected(*final(generator)).is_empty(),
        meta_schema(*final(generator)) == meta_schema(*old(generator)),
        match r {
            Ok(combined) => {
                &&& schema_json(*request) is Some
                &&& schema_json(*response) is Some
                &&& collected(*old(generator)).is_empty() || definitions_json(
                    collected(*old(generator)),
                ) is Some
                &&& json::json_contents(combined) == JsonContents::Object(
                    combined_members(
                        schema_json(*request)->0,
                        schema_json(*response)->0,
                        definitions_member(collected(*old(generator))),
                    ),
                )
            },
            Err(SchemaError::Definitions) => !collected(*old(generator)).is_empty()
                && definitions_json(collected(*old(generator))) is None,
            Err(SchemaError::Schema) => (collected(*old(generator)).is_empty() || definitions_json(
                collected(*old(generator)),
            ) is Some) && (schema_json(*request) is None || schema_json(*response) is None),
            Err(SchemaError::Text) => false,
        },
{
    let definitions: BTreeMap<String, Schema> = take_definitions(generator);
    let member: Option<serde_json::Value> = if definitions.is_empty() {
        None
    } else {
        match definitions_value(&definitions) {
            Ok(d) => Some(d),
            Err(_) => return Err(SchemaError::Definitions),
        }
    };
    match (schema_value(request), schema_value(response)) {
        (Ok(q), Ok(a)) => Ok(join_schemas(q, a, member)),
        _ => Err(SchemaError::Schema),
    }
}

/// The combined schema of a request and a response as a JSON text, for a prompt.
pub fn combined_schema_text(request: &Schema, response: &Schema, generator: &mut SchemaGenerator) -> (r:
    Result<String, SchemaError>)
    ensures
        collected(*final(generator)).is_empty(),
        meta_schema(*final(generator)) == meta_schema(*old(generator)),
        match r {
            Ok(text) => schema_json(*request) is Some && schema_json(*response) is Some && (
            collected(*old(generator)).is_empty() || definitions_json(
                collected(*old(generator)),
            ) is Some) && exists|combined: serde_json::Value|
                #![trigger json::json_contents(combined)]
                json::json_contents(combined) == JsonContents::Object(
                    combined_members(
                        schema_json(*request)->0,
                        schema_json(*response)->0,
                        definitions_member(collected(*old(generator))),
                    ),
                ) && json::json_pretty(combined) == Some(text@),
            Err(SchemaError::Definitions) => !collected(*old(generator)).is_empty()
                && definitions_json(collected(*old(generator))) is None,
            Err(SchemaError::Schema) => (collected(*old(generator)).is_empty() || definitions_json(
                collected(*old(generator)),
            ) is Some) && (schema_json(*request) is None || schema_json(*response) is None),
            Err(SchemaError::Text) => schema_json(*request) is Some && schema_json(*response) is Some
                && (collected(*old(generator)).is_empty() || definitions_json(
                collected(*old(generator)),
            ) is Some) && exists|combined: serde_json::Value|
                #![trigger json::json_contents(combined)]
                json::json_contents(combined) == JsonContents::Object(
                    combined_members(
                        schema_json(*request)->0,
                        schema_json(*response)->0,
                        definitions_member(collected(*old(generator))),
                    ),
                ) && json::json_pretty(combined) is None,
        },
{
    match combined_schema(request, response, generator) {
        Ok(combined) => match pretty_text(&combined) {
            Ok(text) => Ok(text),
            Err(_) => Err(SchemaError::Text),
        },
        Err(e) => Err(e),
    }
}

/// The schema of a tool's arguments has neither a description nor a title of its own.
pub proof fn law_argument_schema_is_untitled(
    r: serde_json::Value,
    v: serde_json::Value,
    definitions: Option<serde_json::Value>,
    meta: Option<Seq<char>>,
)
    requires
        is_argument_schema(r, v, definitions, meta),
    ensures
        json::json_member(r, "description"@) is None,
        json::json_member(r, "title"@) is None,
        meta matches Some(url) ==> (json::json_member(r, "$schema"@) matches Some(m)
            && json::json_text(m) == Some(url)),
{
    reveal_strlit("description");
    reveal_strlit("title");
    reveal_strlit("$schema");
    let found = json::json_contents(r)->Object_0;
    let base = argument_members(v, definitions);
    assert("description"@.len() == 11 && "title"@.len() == 5 && "$schema"@.len() == 7);
    if meta is Some {
        assert(!base.remove("$schema"@).contains_key("description"@));
        assert(!base.remove("$schema"@).contains_key("title"@));
        assert(!found.remove("$schema"@).contains_key("description"@));
        assert(!found.remove("$schema"@).contains_key("title"@));
    }
}

} // verus!
