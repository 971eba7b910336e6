//! Options related to how Avro files are written: the compression codec of
//! the Object Container File and its optional level and block size.

use crate::error::AvroError;
use vstd::prelude::*;

verus! {

/// Avro Object Container File compression codec.
///
/// These are the codecs of the Avro OCF specification. The sink resolves the
/// codec (with the configured level) into the writer's codec at write time.
#[derive(Debug, Clone, Copy, PartialEq, Eq, Structural)]
pub enum AvroCompressionCodec {
    Uncompressed,
    Deflate,
    Snappy,
    Zstd,
    Bzip2,
    Xz,
}

impl Default for AvroCompressionCodec {
    fn default() -> (res: Self)
        ensures
            res == AvroCompressionCodec::Uncompressed,
    {
        AvroCompressionCodec::Uncompressed
    }
}

/// The lower-case canonical name of a codec, as used in `avro.codec` and in
/// SQL options.
pub open spec fn codec_name(c: AvroCompressionCodec) -> Seq<char> {
    match c {
        AvroCompressionCodec::Uncompressed => "uncompressed"@,
        AvroCompressionCodec::Deflate => "deflate"@,
        AvroCompressionCodec::Snappy => "snappy"@,
        AvroCompressionCodec::Zstd => "zstd"@,
        AvroCompressionCodec::Bzip2 => "bzip2"@,
        AvroCompressionCodec::Xz => "xz"@,
    }
}

/// The ASCII lower-case form of one character: 'A'..='Z' become 'a'..='z',
/// every other character stays as it is.
pub open spec fn ascii_lower_char(c: char) -> char {
    if 65 <= (c as u32) && (c as u32) <= 90 {
        ((c as u32) + 32) as char
    } else {
        c
    }
}

/// The ASCII lower-case form of a string, character by character.
pub open spec fn ascii_lowercase(s: Seq<char>) -> Seq<char> {
    s.map_values(|c: char| ascii_lower_char(c))
}

/// The codec that an already lower-cased name selects, if any. Besides the
/// canonical names, "null" and "none" select `Uncompressed` and "zstandard"
/// selects `Zstd`.
pub open spec fn codec_from_name(name: Seq<char>) -> Option<AvroCompressionCodec> {
    if name == "uncompressed"@ || name == "null"@ || name == "none"@ {
        Some(AvroCompressionCodec::Uncompressed)
    } else if name == "deflate"@ {
        Some(AvroCompressionCodec::Deflate)
    } else if name == "snappy"@ {
        Some(AvroCompressionCodec::Snappy)
    } else if name == "zstd"@ || name == "zstandard"@ {
        Some(AvroCompressionCodec::Zstd)
    } else if name == "bzip2"@ {
        Some(AvroCompressionCodec::Bzip2)
    } else if name == "xz"@ {
        Some(AvroCompressionCodec::Xz)
    } else {
        None
    }
}

/// The message of the configuration error for an unsupported (lower-cased)
/// codec name.
pub open spec fn unsupported_codec_message(name: Seq<char>) -> Seq<char> {
    "Unsupported Avro compression codec '"@ + name
        + "'; expected one of uncompressed, deflate, snappy, zstd, bzip2, xz"@
}

/// What parsing `s` as a codec name gives: the codec its ASCII lower-case
/// form names, or the configuration error naming that lower-case form.
pub open spec fn parse_codec_ok(s: Seq<char>, res: Result<AvroCompressionCodec, AvroError>) -> bool {
    match codec_from_name(ascii_lowercase(s)) {
        Some(c) => res == Ok::<AvroCompressionCodec, AvroError>(c),
        None => res matches Err(AvroError::Configuration(m)) && m@ == unsupported_codec_message(
            ascii_lowercase(s),
        ),
    }
}

/// `str::to_ascii_lowercase` of std. Its documentation says that each ASCII
/// letter 'A'..='Z' is mapped to 'a'..='z' and that every other character is
/// kept; the contract says exactly that, character by character.
#[verifier::external_body]
fn to_ascii_lowercase(s: &str) -> (res: String)
    ensures
        res@ == ascii_lowercase(s@),
{
    s.to_ascii_lowercase()
}

/// Character-wise equality of two strings.
fn str_eq(a: &str, b: &str) -> (res: bool)
    ensures
        res == (a@ == b@),
{
    let n = a.unicode_len();
    let m = b.unicode_len();
    if n != m {
        return false;
    }
    let mut i: usize = 0;
    while i < n
        invariant
            n == a@.len(),
            m == b@.len(),
            n == m,
            i <= n,
            forall|j: int| 0 <= j < i ==> a@[j] == b@[j],
        decreases n - i,
    {
        if a.get_char(i) != b.get_char(i) {
            return false;
        }
        i = i + 1;
    }
    assert(a@ =~= b@);
    true
}

impl AvroCompressionCodec {
    /// Lower-case canonical name used in `avro.codec` and SQL options.
    pub fn as_str(self) -> (res: &'static str)
        ensures
            res@ == codec_name(self),
    {
        match self {
            AvroCompressionCodec::Uncompressed => "uncompressed",
            AvroCompressionCodec::Deflate => "deflate",
            AvroCompressionCodec::Snappy => "snappy",
            AvroCompressionCodec::Zstd => "zstd",
            AvroCompressionCodec::Bzip2 => "bzip2",
            AvroCompressionCodec::Xz => "xz",
        }
    }

    /// Parses a codec name, ignoring ASCII case. "null" and "none" are
    /// accepted for `Uncompressed`, "zstandard" for `Zstd`; any other name is
    /// a configuration error that quotes the lower-cased name.
    pub fn parse(s: &str) -> (res: Result<Self, AvroError>)
        ensures
            parse_codec_ok(s@, res),
    {
        let lowered = to_ascii_lowercase(s);
        let name = lowered.as_str();
        if str_eq(name, "uncompressed") || str_eq(name, "null") || str_eq(name, "none") {
            Ok(AvroCompressionCodec::Uncompressed)
        } else if str_eq(name, "deflate") {
            Ok(AvroCompressionCodec::Deflate)
        } else if str_eq(name, "snappy") {
            Ok(AvroCompressionCodec::Snappy)
        } else if str_eq(name, "zstd") || str_eq(name, "zstandard") {
            Ok(AvroCompressionCodec::Zstd)
        } else if str_eq(name, "bzip2") {
            Ok(AvroCompressionCodec::Bzip2)
        } else if str_eq(name, "xz") {
            Ok(AvroCompressionCodec::Xz)
        } else {
            let mut msg = "Unsupported Avro compression codec '".to_owned();
            msg.append(name);
            msg.append("'; expected one of uncompressed, deflate, snappy, zstd, bzip2, xz");
            Err(AvroError::Configuration(msg))
        }
    }
}

impl core::str::FromStr for AvroCompressionCodec {
    type Err = AvroError;

    fn from_str(s: &str) -> (res: Result<Self, Self::Err>)
        ensures
            parse_codec_ok(s@, res),
    {
        AvroCompressionCodec::parse(s)
    }
}

/// Avro format options as they are configured: the codec by name, and the
/// optional level and block size.
#[derive(Debug, Clone)]
pub struct AvroOptions {
    /// Name of the compression codec, parsed ignoring ASCII case.
    pub compression: String,
    /// Optional codec-specific level. `None` uses the codec default.
    pub compression_level: Option<i32>,
    /// Optional approximate target uncompressed block size in bytes.
    pub block_size: Option<usize>,
}

impl Default for AvroOptions {
    fn default() -> (res: Self)
        ensures
            res.compression@ == "uncompressed"@,
            res.compression_level is None,
            res.block_size is None,
    {
        AvroOptions { compression: "uncompressed".to_owned(), compression_level: None, block_size: None }
    }
}

/// Options for writing Avro files
#[derive(Clone, Debug)]
pub struct AvroWriterOptions {
    /// Compression codec applied to OCF blocks.
    pub compression: AvroCompressionCodec,
    /// Optional codec-specific level. `None` uses the codec default.
    pub compression_level: Option<i32>,
    /// Optional approximate target uncompressed block size in bytes.
    pub block_size: Option<usize>,
}

impl Default for AvroWriterOptions {
    fn default() -> (res: Self)
        ensures
            res.compression == AvroCompressionCodec::Uncompressed,
            res.compression_level is None,
            res.block_size is None,
    {
        AvroWriterOptions {
            compression: AvroCompressionCodec::Uncompressed,
            compression_level: None,
            block_size: None,
        }
    }
}

/// What converting configured options into writer options gives: the codec
/// that the configured name selects (ignoring ASCII case) with the level and
/// block size copied unchanged, or the configuration error of the name.
pub open spec fn writer_options_from(value: AvroOptions, res: Result<AvroWriterOptions, AvroError>) -> bool {
    match codec_from_name(ascii_lowercase(value.compression@)) {
        Some(c) => res matches Ok(w) && w.compression == c && w.compression_level
            == value.compression_level && w.block_size == value.block_size,
        None => res matches Err(AvroError::Configuration(m)) && m@ == unsupported_codec_message(
            ascii_lowercase(value.compression@),
        ),
    }
}

impl AvroWriterOptions {
    /// Writer options with every field at its default: no compression, no
    /// level, no block size.
    pub fn new() -> (res: Self)
        ensures
            res.compression == AvroCompressionCodec::Uncompressed,
            res.compression_level is None,
            res.block_size is None,
    {
        Self::default()
    }

    /// The same options with the specified compression codec.
    pub fn with_compression(self, compression: AvroCompressionCodec) -> (res: Self)
        ensures
            res.compression == compression,
            res.compression_level == self.compression_level,
            res.block_size == self.block_size,
    {
        let mut s = self;
        s.compression = compression;
        s
    }

    /// The same options with an optional compression level.
    pub fn with_compression_level(self, level: Option<i32>) -> (res: Self)
        ensures
            res.compression == self.compression,
            res.compression_level == level,
            res.block_size == self.block_size,
    {
        let mut s = self;
        s.compression_level = level;
        s
    }

    /// The same options with an optional target block size in bytes.
    pub fn with_block_size(self, block_size: Option<usize>) -> (res: Self)
        ensures
            res.compression == self.compression,
            res.compression_level == self.compression_level,
            res.block_size == block_size,
    {
        let mut s = self;
        s.block_size = block_size;
        s
    }

    /// Converts configured options: the codec name is parsed (ignoring ASCII
    /// case), the level and block size are taken over as they are.
    pub fn try_from_options(value: &AvroOptions) -> (res: Result<Self, AvroError>)
        ensures
            writer_options_from(*value, res),
    {
        let compression = AvroCompressionCodec::parse(value.compression.as_str())?;
        Ok(AvroWriterOptions {
            compression,
            compression_level: value.compression_level,
            block_size: value.block_size,
        })
    }
}

} // verus!
