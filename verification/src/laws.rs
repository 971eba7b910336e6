//! Properties of the library as a whole.

use crate::schema::{avro_schema_of, file_schemas};
use crate::file_format::{
    AvroSinkView, OcfCodec, after_compute, after_file, is_sink_step, ocf_codec_for, sum_rows,
};
use crate::error::AvroError;
use crate::writer_options::{
    AvroCompressionCodec, AvroOptions, AvroWriterOptions, writer_options_from, ascii_lower_char, ascii_lowercase, codec_from_name, codec_name,
};
use vstd::prelude::*;

verus! {

proof fn lemma_lower_fixed(s: Seq<char>)
    requires
        forall|i: int| 0 <= i < s.len() ==> !(65 <= (#[trigger] s[i] as u32) && (s[i] as u32) <= 90),
    ensures
        ascii_lowercase(s) == s,
{
    assert(ascii_lowercase(s) =~= s);
}

proof fn reveal_codec_names()
    ensures
        "uncompressed"@ == seq!['u', 'n', 'c', 'o', 'm', 'p', 'r', 'e', 's', 's', 'e', 'd'],
        "null"@ == seq!['n', 'u', 'l', 'l'],
        "none"@ == seq!['n', 'o', 'n', 'e'],
        "deflate"@ == seq!['d', 'e', 'f', 'l', 'a', 't', 'e'],
        "snappy"@ == seq!['s', 'n', 'a', 'p', 'p', 'y'],
        "zstd"@ == seq!['z', 's', 't', 'd'],
        "zstandard"@ == seq!['z', 's', 't', 'a', 'n', 'd', 'a', 'r', 'd'],
        "bzip2"@ == seq!['b', 'z', 'i', 'p', '2'],
        "xz"@ == seq!['x', 'z'],
{
    reveal_strlit("uncompressed");
    reveal_strlit("null");
    reveal_strlit("none");
    reveal_strlit("deflate");
    reveal_strlit("snappy");
    reveal_strlit("zstd");
    reveal_strlit("zstandard");
    reveal_strlit("bzip2");
    reveal_strlit("xz");
    assert("uncompressed"@ =~= seq!['u', 'n', 'c', 'o', 'm', 'p', 'r', 'e', 's', 's', 'e', 'd']);
    assert("null"@ =~= seq!['n', 'u', 'l', 'l']);
    assert("none"@ =~= seq!['n', 'o', 'n', 'e']);
    assert("deflate"@ =~= seq!['d', 'e', 'f', 'l', 'a', 't', 'e']);
    assert("snappy"@ =~= seq!['s', 'n', 'a', 'p', 'p', 'y']);
    assert("zstd"@ =~= seq!['z', 's', 't', 'd']);
    assert("zstandard"@ =~= seq!['z', 's', 't', 'a', 'n', 'd', 'a', 'r', 'd']);
    assert("bzip2"@ =~= seq!['b', 'z', 'i', 'p', '2']);
    assert("xz"@ =~= seq!['x', 'z']);
}

/// Parsing the canonical name of a codec gives the codec back:
/// `AvroCompressionCodec::parse(c.as_str())` is `Ok(c)` for every codec `c`.
pub proof fn lemma_parse_as_str_round_trip(c: AvroCompressionCodec)
    ensures
        ascii_lowercase(codec_name(c)) == codec_name(c),
        codec_from_name(ascii_lowercase(codec_name(c))) == Some(c),
{
    reveal_codec_names();
    lemma_lower_fixed(codec_name(c));
}

/// Distinct codecs have distinct canonical names.
pub proof fn lemma_codec_names_distinct(a: AvroCompressionCodec, b: AvroCompressionCodec)
    requires
        a != b,
    ensures
        codec_name(a) != codec_name(b),
{
    lemma_parse_as_str_round_trip(a);
    lemma_parse_as_str_round_trip(b);
}

/// Lower-casing is idempotent, so a name and its ASCII lower-case form parse
/// alike: parsing is insensitive to ASCII case.
pub proof fn lemma_parse_ignores_ascii_case(s: Seq<char>)
    ensures
        ascii_lowercase(ascii_lowercase(s)) == ascii_lowercase(s),
        codec_from_name(ascii_lowercase(ascii_lowercase(s))) == codec_from_name(ascii_lowercase(s)),
{
    assert forall|i: int| 0 <= i < s.len() implies ascii_lower_char(ascii_lower_char(s[i]))
        == ascii_lower_char(s[i]) by {
        let c = s[i];
        if 65 <= (c as u32) && (c as u32) <= 90 {
            assert(((c as u32) + 32) as char as u32 == (c as u32) + 32);
        }
    }
    assert(ascii_lowercase(ascii_lowercase(s)) =~= ascii_lowercase(s));
}

/// The OCF writer gets no codec exactly when the configured codec is
/// `Uncompressed`, and every other codec reaches the writer as the codec of
/// the same kind.
pub proof fn lemma_codec_reaches_writer(c: AvroCompressionCodec, level: Option<i32>)
    ensures
        ocf_codec_for(c, level) is None <==> c == AvroCompressionCodec::Uncompressed,
        c == AvroCompressionCodec::Snappy ==> ocf_codec_for(c, level) == Some(OcfCodec::Snappy),
        c == AvroCompressionCodec::Deflate ==> ocf_codec_for(c, level) matches Some(OcfCodec::Deflate(_)),
        c == AvroCompressionCodec::Zstd ==> ocf_codec_for(c, level) == Some(OcfCodec::ZStandard(level)),
        c == AvroCompressionCodec::Bzip2 ==> ocf_codec_for(c, level) matches Some(OcfCodec::Bzip2(_)),
        c == AvroCompressionCodec::Xz ==> ocf_codec_for(c, level) matches Some(OcfCodec::Xz(_)),
{
}

/// The configured level reaches the writer unchanged: with no level, every
/// codec that takes one gets its default (`None`); with level `l`, Zstd gets
/// `l` itself and Deflate, Bzip2 and Xz get `l` read as an unsigned number
/// (the same 32 bits), never another level.
pub proof fn lemma_level_reaches_writer(l: i32)
    ensures
        ocf_codec_for(AvroCompressionCodec::Deflate, None) == Some(OcfCodec::Deflate(None)),
        ocf_codec_for(AvroCompressionCodec::Zstd, None) == Some(OcfCodec::ZStandard(None)),
        ocf_codec_for(AvroCompressionCodec::Bzip2, None) == Some(OcfCodec::Bzip2(None)),
        ocf_codec_for(AvroCompressionCodec::Xz, None) == Some(OcfCodec::Xz(None)),
        ocf_codec_for(AvroCompressionCodec::Zstd, Some(l)) == Some(OcfCodec::ZStandard(Some(l))),
        ocf_codec_for(AvroCompressionCodec::Deflate, Some(l)) == Some(OcfCodec::Deflate(Some(l as u32))),
        ocf_codec_for(AvroCompressionCodec::Bzip2, Some(l)) == Some(OcfCodec::Bzip2(Some(l as u32))),
        ocf_codec_for(AvroCompressionCodec::Xz, Some(l)) == Some(OcfCodec::Xz(Some(l as u32))),
{
}

/// A codec option survives the way from the configured options to the OCF
/// writer: when the options convert into writer options, the writer gets the
/// codec that the configured name selects (ignoring ASCII case), with the
/// configured level and the configured block size, whatever the codec.
pub proof fn lemma_configured_codec_reaches_writer(options: AvroOptions, w: AvroWriterOptions)
    requires
        writer_options_from(options, Ok::<AvroWriterOptions, AvroError>(w)),
    ensures
        codec_from_name(ascii_lowercase(options.compression@)) == Some(w.compression),
        w.compression_level == options.compression_level,
        w.block_size == options.block_size,
        ocf_codec_for(w.compression, w.compression_level) == ocf_codec_for(
            codec_from_name(ascii_lowercase(options.compression@)).unwrap(),
            options.compression_level,
        ),
{
}

/// The value of a wrapping counter that starts at `start` after the row
/// counts of `rows` have been added to it one file after the other, as
/// `AvroSink::finish_file` adds them.
pub open spec fn counter_after(start: usize, rows: Seq<u64>) -> usize
    decreases rows.len(),
{
    if rows.len() == 0 {
        start
    } else {
        counter_after(start, rows.drop_last()).wrapping_add(rows.last() as usize)
    }
}

/// The `rows_written` counter of a fresh sink equals the total of the write
/// (the sum of the rows of its files) as long as that total fits a `usize`.
pub proof fn lemma_rows_written_is_total(rows: Seq<u64>)
    requires
        sum_rows(rows) <= usize::MAX,
    ensures
        counter_after(0, rows) == sum_rows(rows),
    decreases rows.len(),
{
    if rows.len() > 0 {
        lemma_rows_written_is_total(rows.drop_last());
    }
}

/// Writing never alters a sink's writer options: along any sequence of
/// states that the sink's operations lead through (`finish_file`,
/// `add_elapsed_compute`), the writer options stay those of the first state.
pub proof fn lemma_writing_keeps_writer_options(trace: Seq<AvroSinkView>)
    requires
        trace.len() > 0,
        forall|i: int| 0 <= i < trace.len() - 1 ==> is_sink_step(#[trigger] trace[i], trace[i + 1]),
    ensures
        forall|i: int| 0 <= i < trace.len() ==> (#[trigger] trace[i]).writer_options
            == trace[0].writer_options,
    decreases trace.len(),
{
    if trace.len() > 1 {
        let prefix = trace.drop_last();
        assert forall|i: int| 0 <= i < prefix.len() - 1 implies is_sink_step(
            #[trigger] prefix[i],
            prefix[i + 1],
        ) by {
            assert(prefix[i] == trace[i] && prefix[i + 1] == trace[i + 1]);
            assert(is_sink_step(trace[i], trace[i + 1]));
        }
        lemma_writing_keeps_writer_options(prefix);
        let k = trace.len() - 2;
        assert(prefix[k] == trace[k]);
        assert(is_sink_step(trace[k], trace[k + 1]));
        if exists|rows: u64, bytes: u64| trace[k + 1] == after_file(trace[k], rows, bytes) {
            let (rows, bytes) = choose|rows: u64, bytes: u64| trace[k + 1] == after_file(trace[k], rows, bytes);
            assert(trace[k + 1].writer_options == trace[k].writer_options);
        } else {
            let nanos = choose|nanos: usize| trace[k + 1] == after_compute(trace[k], nanos);
            assert(trace[k + 1].writer_options == trace[k].writer_options);
        }
        assert forall|i: int| 0 <= i < trace.len() implies (#[trigger] trace[i]).writer_options
            == trace[0].writer_options by {
            if i < trace.len() - 1 {
                assert(prefix[i] == trace[i]);
                assert(prefix[0] == trace[0]);
            }
        }
    }
}

/// A sink that has measured compute time reports a positive compute time:
/// starting from zero, any measurement, even of zero nanoseconds, leaves it
/// above zero.
pub proof fn lemma_measured_compute_is_positive(v: AvroSinkView, nanos: usize)
    requires
        v.elapsed_compute == 0,
    ensures
        after_compute(v, nanos).elapsed_compute > 0,
{
}

/// The read schemas of a list of files are one per file, in the order of the
/// files: entry `i` is the schema read from file `i`. So the schema inferred
/// from readable files is the merge of every file's schema, none left out.
pub proof fn lemma_file_schemas_cover_all_files(files: Seq<Vec<u8>>)
    ensures
        file_schemas(files).len() == files.len(),
        forall|i: int| 0 <= i < files.len() ==> #[trigger] file_schemas(files)[i] == avro_schema_of(
            files[i]@,
        ).unwrap(),
{
}

/// The sum of the byte counts of a sequence of files.
pub open spec fn sum_bytes(files: Seq<(u64, u64)>) -> nat
    decreases files.len(),
{
    if files.len() == 0 {
        0
    } else {
        sum_bytes(files.drop_last()) + files.last().1 as nat
    }
}

/// The sum of the row counts of a sequence of files.
pub open spec fn sum_file_rows(files: Seq<(u64, u64)>) -> nat
    decreases files.len(),
{
    if files.len() == 0 {
        0
    } else {
        sum_file_rows(files.drop_last()) + files.last().0 as nat
    }
}

/// The sink's state after the files `(rows, bytes)` of `files` have been
/// finished one after the other, as `AvroSink::finish_file` does.
pub open spec fn after_files(v: AvroSinkView, files: Seq<(u64, u64)>) -> AvroSinkView
    decreases files.len(),
{
    if files.len() == 0 {
        v
    } else {
        after_file(after_files(v, files.drop_last()), files.last().0, files.last().1)
    }
}

/// A fresh sink counts every row and every byte of the files it finishes:
/// as long as the totals fit a `usize`, `rows_written` is the sum of the
/// files' rows and `bytes_written` the sum of their bytes, and neither the
/// writer options nor the compute time change.
pub proof fn lemma_sink_counts_all_rows_and_bytes(v: AvroSinkView, files: Seq<(u64, u64)>)
    requires
        v.rows_written == 0,
        v.bytes_written == 0,
        sum_file_rows(files) <= usize::MAX,
        sum_bytes(files) <= usize::MAX,
    ensures
        after_files(v, files).rows_written == sum_file_rows(files),
        after_files(v, files).bytes_written == sum_bytes(files),
        after_files(v, files).writer_options == v.writer_options,
        after_files(v, files).elapsed_compute == v.elapsed_compute,
    decreases files.len(),
{
    if files.len() > 0 {
        lemma_sink_counts_all_rows_and_bytes(v, files.drop_last());
    }
}

} // verus!
