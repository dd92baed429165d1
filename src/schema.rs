use vstd::prelude::*;
use crate::fault::Fault;

verus! {

/// The JSON schema that an unencrypted export must follow.
///
/// It asks for `folders` and `items`, both arrays of objects, and types the
/// usual fields of folders and items where they occur. Any other field is
/// allowed, so that later export formats still pass.
pub const EXPORT_SCHEMA: &'static str = r##"{
  "$schema": "http://json-schema.org/draft-07/schema#",
  "title": "Unencrypted password vault export",
  "type": "object",
  "required": ["folders", "items"],
  "properties": {
    "encrypted": { "type": "boolean" },
    "folders": { "type": "array", "items": { "$ref": "#/definitions/folder" } },
    "items": { "type": "array", "items": { "$ref": "#/definitions/item" } },
    "collections": { "type": "array", "items": { "type": "object" } }
  },
  "definitions": {
    "nullableString": { "type": ["string", "null"] },
    "folder": {
      "type": "object",
      "properties": {
        "id": { "$ref": "#/definitions/nullableString" },
        "name": { "type": "string" }
      }
    },
    "uri": {
      "type": "object",
      "properties": {
        "uri": { "$ref": "#/definitions/nullableString" },
        "match": { "type": ["integer", "null"] }
      }
    },
    "login": {
      "type": "object",
      "properties": {
        "uris": { "type": ["array", "null"], "items": { "$ref": "#/definitions/uri" } },
        "username": { "$ref": "#/definitions/nullableString" },
        "password": { "$ref": "#/definitions/nullableString" },
        "totp": { "$ref": "#/definitions/nullableString" }
      }
    },
    "field": {
      "type": "object",
      "properties": {
        "name": { "$ref": "#/definitions/nullableString" },
        "value": { "$ref": "#/definitions/nullableString" },
        "type": { "type": "integer" }
      }
    },
    "item": {
      "type": "object",
      "properties": {
        "id": { "$ref": "#/definitions/nullableString" },
        "organizationId": { "$ref": "#/definitions/nullableString" },
        "folderId": { "$ref": "#/definitions/nullableString" },
        "type": { "type": "integer" },
        "name": { "type": "string" },
        "notes": { "$ref": "#/definitions/nullableString" },
        "favorite": { "type": "boolean" },
        "fields": { "type": ["array", "null"], "items": { "$ref": "#/definitions/field" } },
        "login": { "anyOf": [{ "type": "null" }, { "$ref": "#/definitions/login" }] },
        "collectionIds": { "type": ["array", "null"], "items": { "type": "string" } }
      }
    }
  }
}"##;

/// The schema text that captured documents are checked against.
pub fn export_schema() -> (r: &'static str)
    ensures
        r@ == EXPORT_SCHEMA@,
{
    EXPORT_SCHEMA
}

#[verifier::external_type_specification]
#[verifier::external_body]
pub struct ExValue(serde_json::Value);

#[verifier::external_type_specification]
#[verifier::external_body]
pub struct ExJsonError(serde_json::Error);

/// Whether `serde_json` reads the text as one well-formed JSON document
/// (within its nesting limit).
pub uninterp spec fn is_well_formed_json(text: Seq<char>) -> bool;

/// Whether `serde_json` reads the schema text and `valico` compiles it, in a
/// fresh scope with unknown keywords refused.
pub uninterp spec fn schema_compiles(schema: Seq<char>) -> bool;

/// Whether `valico` finds no error when it validates the JSON document
/// `text` against the compiled schema `schema`.
pub uninterp spec fn schema_accepts(schema: Seq<char>, text: Seq<char>) -> bool;

/// Relies on `serde_json::from_str` into a `serde_json::Value`: it succeeds
/// exactly on well-formed JSON text.
#[verifier::external_body]
fn parse_json(text: &str) -> (r: Result<serde_json::Value, serde_json::Error>)
    ensures
        r is Ok <==> is_well_formed_json(text@),
{
    serde_json::from_str(text)
}

/// Relies on the `Display` of `serde_json::Error`, for a message that says
/// where the text stops being JSON.
#[verifier::external_body]
fn describe_json_error(e: &serde_json::Error) -> (r: String) {
    format!("{}", e)
}

/// Relies on `valico` 4: `Scope::new`, `Scope::compile_and_return` (unknown
/// keywords refused), `ScopedSchema::validate` and `ValidationState::is_valid`,
/// on the two texts as `serde_json::from_str` reads them. It fails when
/// either text is not JSON or the schema does not compile; otherwise it
/// gives the verdict, and the `Debug` of the errors found (a list, so never
/// empty).
#[verifier::external_body]
fn schema_verdict(schema: &str, text: &str) -> (r: Result<(bool, String), String>)
    ensures
        r is Ok <==> (schema_compiles(schema@) && is_well_formed_json(text@)),
        r matches Ok((conforms, _)) ==> conforms == schema_accepts(schema@, text@),
        r matches Ok((_, findings)) ==> findings@.len() > 0,
{
    let def: serde_json::Value = serde_json::from_str(schema).map_err(|e| format!("{}", e))?;
    let doc: serde_json::Value = serde_json::from_str(text).map_err(|e| format!("{}", e))?;
    let mut scope = valico::json_schema::Scope::new();
    let compiled = scope.compile_and_return(def, true).map_err(|e| format!("{:?}", e))?;
    let state = compiled.validate(&doc);
    Ok((state.is_valid(), format!("{:?}", state.errors)))
}

/// Why a captured document was refused, with a message fit for a log.
#[derive(Debug)]
pub struct Rejection {
    pub fault: Fault,
    pub detail: String,
}

/// What the validation of a document comes to, given the two findings of the
/// outside checks: whether the text is JSON, and whether the schema accepted it.
///
/// A text that is not JSON is a parse failure whatever else holds; JSON that
/// the schema refuses is a validation failure; anything else passes.
pub open spec fn outcome_of(well_formed: bool, conforms: bool) -> Result<(), Fault> {
    if !well_formed {
        Err(Fault::Parse)
    } else if !conforms {
        Err(Fault::Validation)
    } else {
        Ok(())
    }
}

/// Turns the two findings on a document into the validation outcome.
pub fn decide(well_formed: bool, conforms: bool, detail: String) -> (r: Result<(), Rejection>)
    ensures
        r is Ok <==> outcome_of(well_formed, conforms) is Ok,
        r matches Err(e) ==> Err::<(), Fault>(e.fault) == outcome_of(well_formed, conforms),
        r matches Err(e) ==> e.detail == detail,
{
    if !well_formed {
        Err(Rejection { fault: Fault::Parse, detail })
    } else if !conforms {
        Err(Rejection { fault: Fault::Validation, detail })
    } else {
        Ok(())
    }
}

/// The outcome that the validation of `text` owes: a parse failure for text
/// that is not JSON, success for JSON that the export schema accepts (and
/// compiles), a validation failure otherwise.
pub open spec fn validation_outcome(text: Seq<char>) -> Result<(), Fault> {
    outcome_of(
        is_well_formed_json(text),
        schema_compiles(EXPORT_SCHEMA@) && schema_accepts(EXPORT_SCHEMA@, text),
    )
}

/// Checks a captured document against the export schema.
///
/// The text is parsed first: text that is not JSON is refused as
/// `Fault::Parse`, whatever the schema. JSON is then checked against
/// `EXPORT_SCHEMA`, and refused as `Fault::Validation`, with the violations
/// in the detail, unless the schema accepts it.
pub fn validate_backup(text: &str) -> (r: Result<(), Rejection>)
    ensures
        r is Ok <==> validation_outcome(text@) is Ok,
        r matches Err(e) ==> Err::<(), Fault>(e.fault) == validation_outcome(text@),
        r matches Err(e) ==> (e.fault == Fault::Validation && schema_compiles(EXPORT_SCHEMA@)
            ==> e.detail@.len() > 0),
{
    match parse_json(text) {
        Ok(_) => {},
        Err(e) => {
            let detail = describe_json_error(&e);
            return decide(false, false, detail);
        },
    }
    match schema_verdict(EXPORT_SCHEMA, text) {
        Ok((conforms, findings)) => decide(true, conforms, findings),
        Err(detail) => decide(true, false, detail),
    }
}

} // verus!
