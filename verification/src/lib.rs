//! Avro file-format support: compression-codec parsing, writer options, the
//! mapping from options to the Object Container File codec, and the
//! bookkeeping of the Avro data sink.

pub mod error;
pub mod schema;
pub mod writer_options;
pub mod file_format;
pub mod dataframe;
pub mod laws;
