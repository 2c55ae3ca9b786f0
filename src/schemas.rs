//! The Avro schema definitions that the output container is written with.
use vstd::prelude::*;
use crate::views::ConfigError;

verus! {

#[verifier::external_type_specification]
#[verifier::external_body]
pub struct ExSchema(avro_rs::Schema);

#[verifier::external_type_specification]
#[verifier::external_body]
pub struct ExAvroError(avro_rs::Error);

/// Name for whether avro_rs accepts a text as a JSON Avro schema.
pub uninterp spec fn schema_text_valid(text: Seq<char>) -> bool;

/// Relies on avro_rs's `Schema::parse_str`: it parses a JSON Avro schema,
/// and whether it succeeds depends on the text alone.
#[verifier::external_body]
fn parse_schema(text: &str) -> (r: Result<avro_rs::Schema, avro_rs::Error>)
    ensures
        r is Ok == schema_text_valid(text@),
{
    avro_rs::Schema::parse_str(text)
}

/// Parses one schema definition.
pub fn load_schema(text: &str) -> (r: Result<avro_rs::Schema, ConfigError>)
    ensures
        r is Ok == schema_text_valid(text@),
        r is Err ==> r == Err::<avro_rs::Schema, ConfigError>(ConfigError::BadSchema),
{
    match parse_schema(text) {
        Ok(s) => Ok(s),
        Err(_) => Err(ConfigError::BadSchema),
    }
}

/// The schemas of the container datum and of each record kind.
pub struct CdmSchemas {
    pub datum: avro_rs::Schema,
    pub host: avro_rs::Schema,
    pub event: avro_rs::Schema,
    pub subject: avro_rs::Schema,
    pub src_sink_object: avro_rs::Schema,
    pub abstract_object: avro_rs::Schema,
    pub provenance_tag_node: avro_rs::Schema,
}

/// The texts of the seven schema definitions.
pub struct SchemaTexts {
    pub datum: String,
    pub host: String,
    pub event: String,
    pub subject: String,
    pub src_sink_object: String,
    pub abstract_object: String,
    pub provenance_tag_node: String,
}

impl SchemaTexts {
    pub open spec fn all_valid(&self) -> bool {
        &&& schema_text_valid(self.datum@)
        &&& schema_text_valid(self.host@)
        &&& schema_text_valid(self.event@)
        &&& schema_text_valid(self.subject@)
        &&& schema_text_valid(self.src_sink_object@)
        &&& schema_text_valid(self.abstract_object@)
        &&& schema_text_valid(self.provenance_tag_node@)
    }
}

impl CdmSchemas {
    /// Parses all definitions; fails before any output is written when one
    /// of them is not a valid schema.
    pub fn load(t: &SchemaTexts) -> (r: Result<CdmSchemas, ConfigError>)
        ensures
            r is Ok == t.all_valid(),
            r is Err ==> r == Err::<CdmSchemas, ConfigError>(ConfigError::BadSchema),
    {
        let datum = load_schema(t.datum.as_str())?;
        let host = load_schema(t.host.as_str())?;
        let event = load_schema(t.event.as_str())?;
        let subject = load_schema(t.subject.as_str())?;
        let src_sink_object = load_schema(t.src_sink_object.as_str())?;
        let abstract_object = load_schema(t.abstract_object.as_str())?;
        let provenance_tag_node = load_schema(t.provenance_tag_node.as_str())?;
        Ok(
            CdmSchemas {
                datum,
                host,
                event,
                subject,
                src_sink_object,
                abstract_object,
                provenance_tag_node,
            },
        )
    }
}

} // verus!
