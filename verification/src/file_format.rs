//! The Avro file format: its extension, the write plan's decisions, the
//! resolution of writer options into the Object Container File codec, and
//! the accounting of the Avro sink.

use crate::error::AvroError;
use crate::schema::{
    all_headers_readable, avro_schema_of, file_schemas, merge_schemas, merged_schema,
    read_avro_schema,
};
use crate::writer_options::{AvroCompressionCodec, AvroOptions, AvroWriterOptions, writer_options_from};
use arrow_schema::Schema;
use vstd::prelude::*;

verus! {

/// The file extension of Avro files, with its leading dot.
pub const DEFAULT_AVRO_EXTENSION: &'static str = ".avro";

/// The compression variants that a file listing or a sink may ask of a
/// file format (compression of the whole file, outside the format).
#[allow(non_camel_case_types)]
#[derive(Debug, Clone, Copy, PartialEq, Eq, Structural)]
pub enum CompressionTypeVariant {
    GZIP,
    BZIP2,
    XZ,
    ZSTD,
    UNCOMPRESSED,
}

/// How a write treats the data already at its destination.
#[derive(Debug, Clone, Copy, PartialEq, Eq, Structural)]
pub enum InsertOp {
    /// Appends the new rows to the existing ones.
    Append,
    /// Overwrites all existing rows.
    Overwrite,
    /// Replaces the existing rows that collide with the new ones.
    Replace,
}

/// The display name of an insert operation.
pub open spec fn insert_op_name(op: InsertOp) -> Seq<char> {
    match op {
        InsertOp::Append => "Insert Into"@,
        InsertOp::Overwrite => "Insert Overwrite"@,
        InsertOp::Replace => "Replace Into"@,
    }
}

impl InsertOp {
    /// The name of the operation, as it is displayed.
    pub fn as_str(self) -> (res: &'static str)
        ensures
            res@ == insert_op_name(self),
    {
        match self {
            InsertOp::Append => "Insert Into",
            InsertOp::Overwrite => "Insert Overwrite",
            InsertOp::Replace => "Replace Into",
        }
    }
}

/// The codec of an Avro Object Container File as the OCF writer takes it,
/// with the level to use (`None`: the codec's default level).
#[derive(Debug, Clone, Copy, PartialEq, Eq, Structural)]
pub enum OcfCodec {
    Deflate(Option<u32>),
    Snappy,
    ZStandard(Option<i32>),
    Bzip2(Option<u32>),
    Xz(Option<u32>),
}

/// A configured level reinterpreted as an unsigned level, bit for bit.
pub open spec fn unsigned_level(level: Option<i32>) -> Option<u32> {
    match level {
        Some(l) => Some(l as u32),
        None => None,
    }
}

/// The OCF codec that a codec and an optional level resolve to: none for
/// `Uncompressed`, Snappy without a level, ZStandard with the level as it is,
/// and the other codecs with the level reinterpreted as unsigned.
pub open spec fn ocf_codec_for(c: AvroCompressionCodec, level: Option<i32>) -> Option<OcfCodec> {
    match c {
        AvroCompressionCodec::Uncompressed => None,
        AvroCompressionCodec::Snappy => Some(OcfCodec::Snappy),
        AvroCompressionCodec::Deflate => Some(OcfCodec::Deflate(unsigned_level(level))),
        AvroCompressionCodec::Zstd => Some(OcfCodec::ZStandard(level)),
        AvroCompressionCodec::Bzip2 => Some(OcfCodec::Bzip2(unsigned_level(level))),
        AvroCompressionCodec::Xz => Some(OcfCodec::Xz(unsigned_level(level))),
    }
}

fn to_unsigned_level(level: Option<i32>) -> (res: Option<u32>)
    ensures
        res == unsigned_level(level),
{
    match level {
        Some(l) => Some(l as u32),
        None => None,
    }
}

/// Resolves the writer options' codec (and optional level) into the codec
/// consumed by the OCF writer; `None` writes uncompressed blocks.
/// The level is handed on as it is: whether a codec accepts it is not
/// checked here.
pub fn build_ocf_codec(opts: &AvroWriterOptions) -> (res: Option<OcfCodec>)
    ensures
        res == ocf_codec_for(opts.compression, opts.compression_level),
{
    match opts.compression {
        AvroCompressionCodec::Uncompressed => None,
        AvroCompressionCodec::Snappy => Some(OcfCodec::Snappy),
        AvroCompressionCodec::Deflate => Some(OcfCodec::Deflate(to_unsigned_level(opts.compression_level))),
        AvroCompressionCodec::Zstd => Some(OcfCodec::ZStandard(opts.compression_level)),
        AvroCompressionCodec::Bzip2 => Some(OcfCodec::Bzip2(to_unsigned_level(opts.compression_level))),
        AvroCompressionCodec::Xz => Some(OcfCodec::Xz(to_unsigned_level(opts.compression_level))),
    }
}

/// Factory of [`AvroFormat`], optionally carrying the options it hands on.
#[derive(Debug)]
pub struct AvroFormatFactory {
    /// Options carried by this factory
    pub options: Option<AvroOptions>,
}

impl Default for AvroFormatFactory {
    fn default() -> (res: Self)
        ensures
            res.options is None,
    {
        AvroFormatFactory { options: None }
    }
}

impl AvroFormatFactory {
    /// A factory without options of its own.
    pub fn new() -> (res: Self)
        ensures
            res.options is None,
    {
        AvroFormatFactory { options: None }
    }

    /// A factory whose formats default to the given options.
    pub fn new_with_options(options: AvroOptions) -> (res: Self)
        ensures
            res.options == Some(options),
    {
        AvroFormatFactory { options: Some(options) }
    }

    /// The file extension without its dot: ".avro" gives "avro".
    pub fn get_ext(&self) -> (res: String)
        ensures
            res@ == "avro"@,
    {
        proof {
            reveal_strlit(".avro");
            reveal_strlit("avro");
        }
        let ext = DEFAULT_AVRO_EXTENSION;
        let n = ext.unicode_len();
        let res = ext.substring_ascii(1, n).to_owned();
        assert(res@ =~= "avro"@);
        res
    }

    /// The format that the factory produces when no option is given.
    pub fn default_format(&self) -> (res: AvroFormat)
        ensures
            res@.compression@ == "uncompressed"@,
            res@.compression_level is None,
            res@.block_size is None,
    {
        AvroFormat::default()
    }
}

/// The Avro file format, with the options its writers use.
#[derive(Debug)]
pub struct AvroFormat {
    options: AvroOptions,
}

impl View for AvroFormat {
    type V = AvroOptions;

    closed spec fn view(&self) -> AvroOptions {
        self.options
    }
}

impl Default for AvroFormat {
    fn default() -> (res: Self)
        ensures
            res@.compression@ == "uncompressed"@,
            res@.compression_level is None,
            res@.block_size is None,
    {
        AvroFormat { options: AvroOptions::default() }
    }
}

/// The message of the error for a write that does not append.
pub open spec fn overwrite_message() -> Seq<char> {
    "Overwrites are not implemented yet for Avro"@
}

/// The message of the error for a file compression other than none.
pub open spec fn compression_message() -> Seq<char> {
    "Avro FileFormat does not support compression."@
}

impl AvroFormat {
    /// The same format with the given options.
    pub fn with_options(self, options: AvroOptions) -> (res: Self)
        ensures
            res@ == options,
    {
        let mut s = self;
        s.options = options;
        s
    }

    /// The format's options.
    pub fn options(&self) -> (res: &AvroOptions)
        ensures
            *res == self@,
    {
        &self.options
    }

    /// The file extension of the format: "avro".
    pub fn get_ext(&self) -> (res: String)
        ensures
            res@ == "avro"@,
    {
        AvroFormatFactory::new().get_ext()
    }

    /// The file extension under a file compression: only uncompressed files
    /// are supported, every other compression is an internal error.
    pub fn get_ext_with_compression(&self, file_compression_type: &CompressionTypeVariant) -> (res:
        Result<String, AvroError>)
        ensures
            *file_compression_type == CompressionTypeVariant::UNCOMPRESSED ==> (res matches Ok(ext)
                && ext@ == "avro"@),
            *file_compression_type != CompressionTypeVariant::UNCOMPRESSED ==> (res matches Err(
                AvroError::Internal(m),
            ) && m@ == compression_message()),
    {
        let ext = self.get_ext();
        match file_compression_type {
            CompressionTypeVariant::UNCOMPRESSED => Ok(ext),
            _ => Err(AvroError::Internal("Avro FileFormat does not support compression.".to_owned())),
        }
    }

    /// The file compression the format uses: none, Avro compresses its blocks
    /// itself.
    pub fn compression_type(&self) -> (res: Option<CompressionTypeVariant>)
        ensures
            res is None,
    {
        None
    }

    /// The merged Arrow schema of the Avro files whose bytes are given: the
    /// schema of each file is read from its header, in order, and the first
    /// file whose header cannot be read fails the whole inference; then the
    /// schemas are merged in the order of the files. No file gives the merge
    /// of no schema.
    pub fn infer_schema(&self, files: &Vec<Vec<u8>>) -> (res: Result<Schema, AvroError>)
        ensures
            !all_headers_readable(files@) ==> res matches Err(AvroError::Arrow(_)),
            all_headers_readable(files@) ==> match merged_schema(file_schemas(files@)) {
                Some(s) => res == Ok::<Schema, AvroError>(s),
                None => res matches Err(AvroError::Arrow(_)),
            },
            files@.len() == 0 ==> res is Ok,
    {
        let mut schemas: Vec<Schema> = Vec::new();
        let n = files.len();
        let mut i: usize = 0;
        while i < n
            invariant
                n == files@.len(),
                i <= n,
                schemas@.len() == i,
                forall|j: int| 0 <= j < i ==> (#[trigger] avro_schema_of(files@[j]@)) is Some,
                forall|j: int| 0 <= j < i ==> schemas@[j] == avro_schema_of(files@[j]@).unwrap(),
            decreases n - i,
        {
            match read_avro_schema(files[i].as_slice()) {
                Ok(schema) => schemas.push(schema),
                Err(e) => {
                    assert(avro_schema_of(files@[i as int]@) is None);
                    return Err(AvroError::Arrow(e));
                },
            }
            i = i + 1;
        }
        assert(schemas@ =~= file_schemas(files@));
        match merge_schemas(schemas) {
            Ok(schema) => Ok(schema),
            Err(e) => Err(AvroError::Arrow(e)),
        }
    }

    /// The sink of a write plan: only appending writes are implemented, and
    /// the sink's writer options come from the format's options.
    pub fn create_writer_sink(&self, insert_op: InsertOp) -> (res: Result<AvroSink, AvroError>)
        ensures
            insert_op != InsertOp::Append ==> (res matches Err(AvroError::NotImplemented(m)) && m@
                == overwrite_message()),
            insert_op == InsertOp::Append ==> match res {
                Ok(sink) => writer_options_from(self@, Ok(sink@.writer_options)) && sink@.rows_written
                    == 0 && sink@.bytes_written == 0 && sink@.elapsed_compute == 0,
                Err(e) => writer_options_from(self@, Err(e)),
            },
    {
        match insert_op {
            InsertOp::Append => {},
            _ => {
                return Err(
                    AvroError::NotImplemented("Overwrites are not implemented yet for Avro".to_owned()),
                );
            },
        }
        let writer_options = AvroWriterOptions::try_from_options(&self.options)?;
        Ok(AvroSink::new(writer_options))
    }
}

/// The abstract state of an Avro sink: its writer options, the global
/// counters of rows and bytes written, and the compute time spent writing,
/// in nanoseconds.
pub struct AvroSinkView {
    pub writer_options: AvroWriterOptions,
    pub rows_written: usize,
    pub bytes_written: usize,
    pub elapsed_compute: usize,
}

/// The sink's state after a file of `rows` rows and `bytes` bytes has been
/// accounted for: both counters grow by the file's counts (wrapping around,
/// as counters do); everything else stays.
pub open spec fn after_file(v: AvroSinkView, rows: u64, bytes: u64) -> AvroSinkView {
    AvroSinkView {
        writer_options: v.writer_options,
        rows_written: v.rows_written.wrapping_add(rows as usize),
        bytes_written: v.bytes_written.wrapping_add(bytes as usize),
        elapsed_compute: v.elapsed_compute,
    }
}

/// The nanoseconds that a measured duration adds to the compute time: at
/// least one, so that a recorded measurement is told apart from none.
pub open spec fn recorded_nanos(nanos: usize) -> usize {
    if nanos == 0 {
        1
    } else {
        nanos
    }
}

/// The sink's state after `nanos` nanoseconds of compute time have been
/// measured: the compute time grows by `recorded_nanos(nanos)` (wrapping
/// around); everything else stays.
pub open spec fn after_compute(v: AvroSinkView, nanos: usize) -> AvroSinkView {
    AvroSinkView {
        writer_options: v.writer_options,
        rows_written: v.rows_written,
        bytes_written: v.bytes_written,
        elapsed_compute: v.elapsed_compute.wrapping_add(recorded_nanos(nanos)),
    }
}

/// Whether the sink can go from state `a` to state `b` by one of its
/// operations while writing.
pub open spec fn is_sink_step(a: AvroSinkView, b: AvroSinkView) -> bool {
    (exists|rows: u64, bytes: u64| b == after_file(a, rows, bytes)) || (exists|nanos: usize|
        b == after_compute(a, nanos))
}

/// Writes record batches into Avro Object Container Files and counts the
/// rows and bytes it wrote and the compute time it spent.
pub struct AvroSink {
    writer_options: AvroWriterOptions,
    rows_written: usize,
    bytes_written: usize,
    elapsed_compute: usize,
}

impl View for AvroSink {
    type V = AvroSinkView;

    closed spec fn view(&self) -> AvroSinkView {
        AvroSinkView {
            writer_options: self.writer_options,
            rows_written: self.rows_written,
            bytes_written: self.bytes_written,
            elapsed_compute: self.elapsed_compute,
        }
    }
}

impl AvroSink {
    /// A sink with the given writer options and counters at zero.
    pub fn new(writer_options: AvroWriterOptions) -> (res: Self)
        ensures
            res@.writer_options == writer_options,
            res@.rows_written == 0,
            res@.bytes_written == 0,
            res@.elapsed_compute == 0,
    {
        AvroSink { writer_options, rows_written: 0, bytes_written: 0, elapsed_compute: 0 }
    }

    /// The sink's writer options.
    pub fn writer_options(&self) -> (res: &AvroWriterOptions)
        ensures
            *res == self@.writer_options,
    {
        &self.writer_options
    }

    /// The global count of rows written.
    pub fn rows_written(&self) -> (res: usize)
        ensures
            res == self@.rows_written,
    {
        self.rows_written
    }

    /// The global count of bytes written.
    pub fn bytes_written(&self) -> (res: usize)
        ensures
            res == self@.bytes_written,
    {
        self.bytes_written
    }

    /// The compute time spent writing, in nanoseconds.
    pub fn elapsed_compute(&self) -> (res: usize)
        ensures
            res == self@.elapsed_compute,
    {
        self.elapsed_compute
    }

    /// Accounts for a file whose writer has finished: its rows and its bytes
    /// are added to the global counters (which wrap around, as counters do),
    /// and its row count is returned.
    pub fn finish_file(&mut self, file: &FileWriteProgress) -> (res: u64)
        ensures
            res == file@.rows,
            final(self)@ == after_file(old(self)@, file@.rows, file@.bytes),
    {
        let rows = file.rows;
        let bytes = file.bytes;
        self.rows_written = self.rows_written.wrapping_add(rows as usize);
        self.bytes_written = self.bytes_written.wrapping_add(bytes as usize);
        rows
    }

    /// Accounts for `nanos` nanoseconds of measured compute time; a
    /// measurement always adds at least one nanosecond.
    pub fn add_elapsed_compute(&mut self, nanos: usize)
        ensures
            final(self)@ == after_compute(old(self)@, nanos),
    {
        let more = if nanos == 0 {
            1
        } else {
            nanos
        };
        self.elapsed_compute = self.elapsed_compute.wrapping_add(more);
    }

    /// The default (and verbose) description of a sink, around the display
    /// of the file groups it writes.
    pub fn default_render(&self, file_groups: &str) -> (res: String)
        ensures
            res@ == "AvroSink(file_groups="@ + file_groups@ + ")"@,
    {
        let mut res = "AvroSink(file_groups=".to_owned();
        res.append(file_groups);
        res.append(")");
        res
    }

    /// The tree-render description of a sink writing to `original_url`.
    pub fn tree_render(&self, original_url: &str) -> (res: String)
        ensures
            res@ == "format: avro\nfile="@ + original_url@,
    {
        let mut res = "format: avro\nfile=".to_owned();
        res.append(original_url);
        res
    }
}

/// Counts of one file being written: the rows handed to its writer and the
/// bytes its writer pushed out.
pub struct FileWriteCounts {
    pub rows: u64,
    pub bytes: u64,
}

/// The progress of the writer of one file.
pub struct FileWriteProgress {
    rows: u64,
    bytes: u64,
}

impl View for FileWriteProgress {
    type V = FileWriteCounts;

    closed spec fn view(&self) -> FileWriteCounts {
        FileWriteCounts { rows: self.rows, bytes: self.bytes }
    }
}

impl FileWriteProgress {
    /// A file with nothing written yet.
    pub fn new() -> (res: Self)
        ensures
            res@.rows == 0,
            res@.bytes == 0,
    {
        FileWriteProgress { rows: 0, bytes: 0 }
    }

    /// Rows handed to the writer so far.
    pub fn rows(&self) -> (res: u64)
        ensures
            res == self@.rows,
    {
        self.rows
    }

    /// Bytes pushed out by the writer so far.
    pub fn bytes(&self) -> (res: u64)
        ensures
            res == self@.bytes,
    {
        self.bytes
    }

    /// Accounts for a batch of `num_rows` rows written to the file.
    pub fn record_batch(&mut self, num_rows: usize)
        requires
            old(self)@.rows + num_rows <= u64::MAX,
        ensures
            final(self)@.rows == old(self)@.rows + num_rows,
            final(self)@.bytes == old(self)@.bytes,
    {
        self.rows = self.rows + num_rows as u64;
    }

    /// Accounts for a chunk of `len` bytes pushed to the object store; the
    /// byte counter wraps around, as an atomic counter does.
    pub fn record_chunk(&mut self, len: usize)
        ensures
            final(self)@.rows == old(self)@.rows,
            final(self)@.bytes == old(self)@.bytes.wrapping_add(len as u64),
    {
        self.bytes = self.bytes.wrapping_add(len as u64);
    }
}

/// The sum of a sequence of row counts.
pub open spec fn sum_rows(s: Seq<u64>) -> nat
    decreases s.len(),
{
    if s.len() == 0 {
        0
    } else {
        sum_rows(s.drop_last()) + s.last() as nat
    }
}

/// The total of a write: the row counts of the files joined so far, and
/// their sum.
pub struct WriteTotal {
    total: u64,
    files: Ghost<Seq<u64>>,
}

impl View for WriteTotal {
    type V = Seq<u64>;

    closed spec fn view(&self) -> Seq<u64> {
        self.files@
    }
}

impl WriteTotal {
    #[verifier::type_invariant]
    spec fn total_is_sum(self) -> bool {
        self.total == sum_rows(self.files@)
    }

    /// A write with no file joined yet.
    pub fn new() -> (res: Self)
        ensures
            res@ == Seq::<u64>::empty(),
    {
        WriteTotal { total: 0, files: Ghost(Seq::empty()) }
    }

    /// The total number of rows of the files joined so far.
    pub fn total(&self) -> (res: u64)
        ensures
            res == sum_rows(self@),
    {
        proof {
            use_type_invariant(self);
        }
        self.total
    }

    /// Joins a file that wrote `rows` rows.
    pub fn join_file(&mut self, rows: u64)
        requires
            sum_rows(old(self)@) + rows <= u64::MAX,
        ensures
            final(self)@ == old(self)@.push(rows),
    {
        proof {
            use_type_invariant(&*self);
        }
        let ghost files = self.files@.push(rows);
        assert(files.drop_last() =~= self.files@);
        let total = self.total + rows;
        *self = WriteTotal { total, files: Ghost(files) };
    }
}

} // verus!
