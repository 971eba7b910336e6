use arrow::datatypes::{DataType, Field, Schema};
use arrow_avro::writer::AvroWriter;
use datasource_avro::error::AvroError;
use datasource_avro::file_format::AvroFormat;

fn avro_file(fields: Vec<Field>) -> Vec<u8> {
    let mut w = AvroWriter::new(Vec::<u8>::new(), Schema::new(fields)).unwrap();
    w.finish().unwrap();
    w.into_inner()
}

fn field_names(schema: &Schema) -> Vec<String> {
    schema.fields().iter().map(|f| f.name().clone()).collect()
}

#[test]
fn infer_schema_of_one_file() {
    let file = avro_file(vec![Field::new("id", DataType::Int32, false)]);
    let schema = AvroFormat::default().infer_schema(&vec![file]).unwrap();
    assert_eq!(field_names(&schema), vec!["id".to_string()]);
    assert_eq!(schema.field(0).data_type(), &DataType::Int32);
}

#[test]
fn infer_schema_of_no_file_is_empty() {
    let schema = AvroFormat::default().infer_schema(&vec![]).unwrap();
    assert_eq!(schema.fields().len(), 0);
}

#[test]
fn infer_schema_rejects_unreadable_file() {
    let good = avro_file(vec![Field::new("id", DataType::Int32, false)]);
    let bad = b"not an avro file".to_vec();
    match AvroFormat::default().infer_schema(&vec![good, bad]) {
        Err(AvroError::Arrow(_)) => {}
        other => panic!("unexpected {other:?}"),
    }
}

#[test]
fn infer_schema_rejects_conflicting_types() {
    let a = avro_file(vec![Field::new("id", DataType::Int32, false)]);
    let b = avro_file(vec![Field::new("id", DataType::Utf8, false)]);
    match AvroFormat::default().infer_schema(&vec![a, b]) {
        Err(AvroError::Arrow(_)) => {}
        other => panic!("unexpected {other:?}"),
    }
}

#[test]
fn infer_schema_of_same_files() {
    let a = avro_file(vec![Field::new("id", DataType::Int32, false)]);
    let schema = AvroFormat::default().infer_schema(&vec![a.clone(), a]).unwrap();
    assert_eq!(field_names(&schema), vec!["id".to_string()]);
}
