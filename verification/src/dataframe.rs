//! The decisions of writing a data frame to Avro files.

use crate::error::AvroError;
use crate::file_format::{AvroFormatFactory, InsertOp, insert_op_name};
use crate::writer_options::AvroOptions;
use vstd::prelude::*;

verus! {

/// The message of the error for a data-frame write that does not append.
pub open spec fn write_avro_unsupported_message(op: InsertOp) -> Seq<char> {
    insert_op_name(op) + " is not implemented for DataFrame::write_avro."@
}

/// The format factory of a data-frame write to Avro files: only appending
/// writes are implemented; the factory carries the writer options when some
/// are given.
pub fn write_avro_format_factory(insert_op: InsertOp, writer_options: Option<AvroOptions>) -> (res:
    Result<AvroFormatFactory, AvroError>)
    ensures
        insert_op == InsertOp::Append ==> (res matches Ok(f) && f.options == writer_options),
        insert_op != InsertOp::Append ==> (res matches Err(AvroError::NotImplemented(m)) && m@
            == write_avro_unsupported_message(insert_op)),
{
    match insert_op {
        InsertOp::Append => {},
        _ => {
            let mut msg = insert_op.as_str().to_owned();
            msg.append(" is not implemented for DataFrame::write_avro.");
            return Err(AvroError::NotImplemented(msg));
        },
    }
    match writer_options {
        Some(avro_opts) => Ok(AvroFormatFactory::new_with_options(avro_opts)),
        None => Ok(AvroFormatFactory::new()),
    }
}

} // verus!
