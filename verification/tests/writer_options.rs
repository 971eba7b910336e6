use datasource_avro::error::AvroError;
use datasource_avro::writer_options::{AvroCompressionCodec, AvroOptions, AvroWriterOptions};
use std::str::FromStr;

const ALL_CODECS: [AvroCompressionCodec; 6] = [
    AvroCompressionCodec::Uncompressed,
    AvroCompressionCodec::Deflate,
    AvroCompressionCodec::Snappy,
    AvroCompressionCodec::Zstd,
    AvroCompressionCodec::Bzip2,
    AvroCompressionCodec::Xz,
];

fn options(compression: &str, level: Option<i32>, block_size: Option<usize>) -> AvroOptions {
    AvroOptions { compression: compression.to_string(), compression_level: level, block_size }
}

#[test]
fn codec_canonical_names() {
    assert_eq!(AvroCompressionCodec::Uncompressed.as_str(), "uncompressed");
    assert_eq!(AvroCompressionCodec::Deflate.as_str(), "deflate");
    assert_eq!(AvroCompressionCodec::Snappy.as_str(), "snappy");
    assert_eq!(AvroCompressionCodec::Zstd.as_str(), "zstd");
    assert_eq!(AvroCompressionCodec::Bzip2.as_str(), "bzip2");
    assert_eq!(AvroCompressionCodec::Xz.as_str(), "xz");
}

#[test]
fn codec_default_is_uncompressed() {
    assert_eq!(AvroCompressionCodec::default(), AvroCompressionCodec::Uncompressed);
}

#[test]
fn codec_parse_round_trips_canonical_names() {
    for c in ALL_CODECS {
        assert_eq!(AvroCompressionCodec::parse(c.as_str()).unwrap(), c);
    }
}

#[test]
fn codec_names_are_distinct() {
    for (i, a) in ALL_CODECS.iter().enumerate() {
        for (j, b) in ALL_CODECS.iter().enumerate() {
            assert_eq!(i == j, a.as_str() == b.as_str());
        }
    }
}

#[test]
fn codec_parse_aliases() {
    assert_eq!(AvroCompressionCodec::parse("null").unwrap(), AvroCompressionCodec::Uncompressed);
    assert_eq!(AvroCompressionCodec::parse("none").unwrap(), AvroCompressionCodec::Uncompressed);
    assert_eq!(AvroCompressionCodec::parse("zstandard").unwrap(), AvroCompressionCodec::Zstd);
}

#[test]
fn codec_parse_ignores_ascii_case() {
    assert_eq!(AvroCompressionCodec::parse("SNAPPY").unwrap(), AvroCompressionCodec::Snappy);
    assert_eq!(AvroCompressionCodec::parse("Deflate").unwrap(), AvroCompressionCodec::Deflate);
    assert_eq!(AvroCompressionCodec::parse("ZStandard").unwrap(), AvroCompressionCodec::Zstd);
    assert_eq!(AvroCompressionCodec::parse("NoNe").unwrap(), AvroCompressionCodec::Uncompressed);
    for c in ALL_CODECS {
        let upper = c.as_str().to_ascii_uppercase();
        assert_eq!(AvroCompressionCodec::parse(&upper).unwrap(), c);
    }
}

#[test]
fn codec_parse_rejects_unknown_name() {
    match AvroCompressionCodec::parse("LZ4") {
        Err(AvroError::Configuration(m)) => assert_eq!(
            m,
            "Unsupported Avro compression codec 'lz4'; expected one of uncompressed, deflate, snappy, zstd, bzip2, xz"
        ),
        other => panic!("unexpected {other:?}"),
    }
    assert!(AvroCompressionCodec::parse("").is_err());
    assert!(AvroCompressionCodec::parse(" snappy").is_err());
    // Only ASCII letters are folded: the Kelvin sign is not a 'k'.
    assert!(AvroCompressionCodec::parse("snappy\u{212A}").is_err());
}

#[test]
fn codec_from_str_matches_parse() {
    assert_eq!(AvroCompressionCodec::from_str("xz").unwrap(), AvroCompressionCodec::Xz);
    assert_eq!("BZIP2".parse::<AvroCompressionCodec>().unwrap(), AvroCompressionCodec::Bzip2);
    assert!("gzip".parse::<AvroCompressionCodec>().is_err());
}

#[test]
fn writer_options_defaults() {
    let w = AvroWriterOptions::new();
    assert_eq!(w.compression, AvroCompressionCodec::Uncompressed);
    assert_eq!(w.compression_level, None);
    assert_eq!(w.block_size, None);
    let d = AvroWriterOptions::default();
    assert_eq!(d.compression, AvroCompressionCodec::Uncompressed);
    assert_eq!(d.compression_level, None);
    assert_eq!(d.block_size, None);
}

#[test]
fn writer_options_builders_set_one_field_each() {
    let w = AvroWriterOptions::new()
        .with_compression(AvroCompressionCodec::Zstd)
        .with_compression_level(Some(7))
        .with_block_size(Some(4096));
    assert_eq!(w.compression, AvroCompressionCodec::Zstd);
    assert_eq!(w.compression_level, Some(7));
    assert_eq!(w.block_size, Some(4096));
    let w = w.with_compression(AvroCompressionCodec::Xz);
    assert_eq!(w.compression, AvroCompressionCodec::Xz);
    assert_eq!(w.compression_level, Some(7));
    assert_eq!(w.block_size, Some(4096));
    let w = w.with_compression_level(None).with_block_size(None);
    assert_eq!(w.compression, AvroCompressionCodec::Xz);
    assert_eq!(w.compression_level, None);
    assert_eq!(w.block_size, None);
}

#[test]
fn avro_options_default() {
    let o = AvroOptions::default();
    assert_eq!(o.compression, "uncompressed");
    assert_eq!(o.compression_level, None);
    assert_eq!(o.block_size, None);
}

#[test]
fn writer_options_from_configured_options() {
    let w = AvroWriterOptions::try_from_options(&options("Snappy", Some(3), Some(1024))).unwrap();
    assert_eq!(w.compression, AvroCompressionCodec::Snappy);
    assert_eq!(w.compression_level, Some(3));
    assert_eq!(w.block_size, Some(1024));
    let w = AvroWriterOptions::try_from_options(&AvroOptions::default()).unwrap();
    assert_eq!(w.compression, AvroCompressionCodec::Uncompressed);
}

#[test]
fn writer_options_from_unknown_codec_fails() {
    match AvroWriterOptions::try_from_options(&options("Brotli", None, None)) {
        Err(AvroError::Configuration(m)) => {
            assert!(m.contains("'brotli'"));
            assert_eq!(AvroError::Configuration(m.clone()).message(), Some(&m));
        }
        other => panic!("unexpected {other:?}"),
    }
}
