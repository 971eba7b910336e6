//! Arrow schemas of Avro files: reading the schema from a file's header and
//! merging the schemas of several files.

use arrow_avro::reader::ReaderBuilder;
use arrow_schema::{ArrowError, Schema};
use vstd::prelude::*;

verus! {

/// Arrow's schema, carried through the library as an opaque value.
#[verifier::external_type_specification]
#[verifier::external_body]
pub struct ExSchema(Schema);

/// Arrow's error type, carried through the library as an opaque value.
#[verifier::external_type_specification]
#[verifier::external_body]
pub struct ExArrowError(ArrowError);

/// The Arrow schema that arrow-avro's OCF reader reads from the header of
/// the file `bytes` (magic, metadata and schema), or `None` when it rejects
/// the header. It is a function of the bytes alone.
pub uninterp spec fn avro_schema_of(bytes: Seq<u8>) -> Option<Schema>;

/// The schema that arrow-schema's `Schema::try_merge` gives for `schemas`,
/// merged in order, or `None` when their fields or metadata conflict. It is a
/// function of the schemas alone.
pub uninterp spec fn merged_schema(schemas: Seq<Schema>) -> Option<Schema>;

/// arrow-avro's `ReaderBuilder::build` on the bytes of an Avro Object
/// Container File, then `Reader::schema`: the Arrow schema of the file.
/// The contract claims that the read succeeds exactly when `avro_schema_of`
/// gives a schema, and then gives that schema: the same bytes always give the
/// same schema. What the schema holds is left unsaid (it is opaque here).
#[verifier::external_body]
pub(crate) fn read_avro_schema(bytes: &[u8]) -> (res: Result<Schema, ArrowError>)
    ensures
        match avro_schema_of(bytes@) {
            Some(s) => res == Ok::<Schema, ArrowError>(s),
            None => res is Err,
        },
{
    let reader = ReaderBuilder::new().build(bytes)?;
    Ok(reader.schema().as_ref().clone())
}

/// arrow-schema's `Schema::try_merge`. The contract claims that it succeeds
/// exactly when `merged_schema` gives a schema, and then gives that schema;
/// and, as its source shows, that merging no schema succeeds. Which schemas
/// conflict, and what the merged schema holds, are left unsaid.
#[verifier::external_body]
pub(crate) fn merge_schemas(schemas: Vec<Schema>) -> (res: Result<Schema, ArrowError>)
    ensures
        match merged_schema(schemas@) {
            Some(s) => res == Ok::<Schema, ArrowError>(s),
            None => res is Err,
        },
        schemas@.len() == 0 ==> res is Ok,
{
    Schema::try_merge(schemas)
}

/// Whether the header of every file can be read.
pub open spec fn all_headers_readable(files: Seq<Vec<u8>>) -> bool {
    forall|i: int| 0 <= i < files.len() ==> (#[trigger] avro_schema_of(files[i]@)) is Some
}

/// The schemas read from the headers of the files, in order.
pub open spec fn file_schemas(files: Seq<Vec<u8>>) -> Seq<Schema> {
    files.map_values(|f: Vec<u8>| avro_schema_of(f@).unwrap())
}

} // verus!
