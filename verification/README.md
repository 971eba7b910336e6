# datasource_avro

Verified logic of the Avro file format of a query engine's data sources.

- `src/writer_options.rs`: the Avro compression codec, its canonical names and
  its case-insensitive parser; configured options and writer options.
- `src/file_format.rs`: the format's extension, the decisions of the write
  plan, the resolution of writer options into the Object Container File
  codec, and the row and byte accounting of the sink.
- `src/dataframe.rs`: the decision of a data-frame write to Avro files.
- `src/laws.rs`: properties that span several functions.
- `app/`: the I/O around the library (OCF writers over an object store, the
  write loop of the sink, schema inference), built on `arrow-avro` and
  `object_store`.

## Limits that come from the available arrow-avro

The available `arrow-avro` (60.1) has no compression levels and no
block-size setting. The library resolves the configured level into the
`OcfCodec` it hands to the writer, but `app/` cannot pass that level on, so
levels are neither applied nor validated: every codec compresses at its
default level. The configured block size only sizes the writer's staging
buffer; the writer emits one block per record batch.
