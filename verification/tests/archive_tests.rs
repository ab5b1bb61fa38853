use std::io::{Cursor, Write};

use ksj2gp::{
    FieldDescriptor, FieldType, FieldValue, FinishedColumn, F64Value, Geometry, JapanCrs, Shape,
    TranslateOptions, TranslationTables, ZippedShapefileReader, construct_schema, field_names,
    find_meta_xml, list_shp_files, CoordTransformer, TextEncoding,
};

/// Builds a minimal archive holding one point feature with a text field
/// and a numeric field, plus a projection entry declaring JGD2000.
fn build_minimal_archive() -> Vec<u8> {
    // Geometry and index.
    let mut shp_bytes: Vec<u8> = Vec::new();
    let mut shx_bytes: Vec<u8> = Vec::new();
    {
        let mut writer = shapefile::ShapeWriter::with_shx(
            Cursor::new(&mut shp_bytes),
            Cursor::new(&mut shx_bytes),
        );
        writer.write_shape(&shapefile::Point::new(139.767125, 35.681236)).unwrap();
        writer.finalize().unwrap();
    }

    // Attribute table: one text field, one numeric field.
    let mut dbf_bytes: Vec<u8> = Vec::new();
    {
        let builder = shapefile::dbase::TableWriterBuilder::new()
            .add_character_field(shapefile::dbase::FieldName::try_from("name").unwrap(), 16)
            .add_numeric_field(shapefile::dbase::FieldName::try_from("value").unwrap(), 12, 1);
        let mut writer = builder.build_with_dest(Cursor::new(&mut dbf_bytes));
        let mut record = shapefile::dbase::Record::default();
        record.insert(
            "name".to_string(),
            shapefile::dbase::FieldValue::Character(Some("hello".to_string())),
        );
        record.insert(
            "value".to_string(),
            shapefile::dbase::FieldValue::Numeric(Some(42.5)),
        );
        writer.write_record(&record).unwrap();
        writer.finalize().unwrap();
    }

    let prj = br#"GEOGCS["GCS_JGD_2000",DATUM["D_JGD_2000",SPHEROID["GRS_1980",6378137.0,298.257222101]],PRIMEM["Greenwich",0.0],UNIT["Degree",0.0174532925199433]]"#;

    let mut zip_writer = zip::ZipWriter::new(Cursor::new(Vec::new()));
    let options = zip::write::SimpleFileOptions::default();
    zip_writer.start_file("test.shp", options).unwrap();
    zip_writer.write_all(&shp_bytes).unwrap();
    zip_writer.start_file("test.shx", options).unwrap();
    zip_writer.write_all(&shx_bytes).unwrap();
    zip_writer.start_file("test.dbf", options).unwrap();
    zip_writer.write_all(&dbf_bytes).unwrap();
    zip_writer.start_file("test.prj", options).unwrap();
    zip_writer.write_all(prj).unwrap();
    zip_writer.finish().unwrap().into_inner()
}

#[test]
fn lists_the_shapefiles_of_an_archive() {
    let bytes = build_minimal_archive();
    let names = list_shp_files(Cursor::new(&bytes)).unwrap();
    assert_eq!(names, vec!["test.shp".to_string()]);
    assert_eq!(find_meta_xml(Cursor::new(&bytes)).unwrap(), None);
    assert!(list_shp_files(Cursor::new(b"not a zip")).is_err());
}

#[test]
fn missing_triplet_entries_are_reported() {
    let bytes = build_minimal_archive();
    let zip = zip::ZipArchive::new(Cursor::new(&bytes)).unwrap();
    assert!(ZippedShapefileReader::new(zip, "test.dbf", None).is_err());
    let zip = zip::ZipArchive::new(Cursor::new(&bytes)).unwrap();
    match ZippedShapefileReader::new(zip, "other.shp", None) {
        Ok(_) => panic!("a missing entry must be an error"),
        Err(e) => assert!(e.message().contains("doesn't exist")),
    }
}

#[test]
fn one_point_feature_survives_the_conversion() {
    let bytes = build_minimal_archive();
    let zip = zip::ZipArchive::new(Cursor::new(&bytes)).unwrap();
    let mut reader = ZippedShapefileReader::new(zip, "test.shp", None).unwrap();

    // Detection runs from the archive's own entries.
    let crs = reader.guess_crs().unwrap();
    assert!(matches!(crs, JapanCrs::JGD2000));
    assert_eq!(reader.guess_encoding().unwrap(), TextEncoding::ShiftJis);

    // Extract the triplet into seekable stores.
    let shp = reader.copy_shp_to(Cursor::new(Vec::new())).unwrap();
    let shx = reader.copy_shx_to(Cursor::new(Vec::new())).unwrap();
    let dbf = reader.copy_dbf_to(Cursor::new(Vec::new())).unwrap();

    // Decode the stores as the embedding application would.
    let shape_reader = shapefile::ShapeReader::with_shx(shp, shx).unwrap();
    let dbase_reader = shapefile::dbase::Reader::new(dbf).unwrap();
    let descriptors: Vec<FieldDescriptor> = dbase_reader
        .fields()
        .iter()
        .map(|f| FieldDescriptor {
            name: f.name().to_string(),
            field_type: match f.field_type() {
                shapefile::dbase::FieldType::Character => FieldType::Character,
                shapefile::dbase::FieldType::Numeric => FieldType::Numeric,
                other => panic!("unexpected field type {other:?}"),
            },
        })
        .collect();
    let mut reader = shapefile::Reader::new(shape_reader, dbase_reader);

    let tables = TranslationTables::new();
    let options = TranslateOptions {
        translate_colnames: false,
        translate_contents: false,
        ignore_translation_errors: false,
        ksj_id: "P02".to_string(),
        year: 1990,
        target_shp: "test.shp".to_string(),
    };
    let schema = construct_schema(&tables, &descriptors, crs, &options).unwrap();
    assert_eq!(schema.num_columns(), 3);

    let names = field_names(&descriptors);
    let transformer = CoordTransformer::new(crs);
    assert!(!transformer.requires_datum_shift());

    let mut builders = schema.create_builders(2048);
    for row in reader.iter_shapes_and_records() {
        let (shape, mut record) = row.unwrap();
        let mut values: Vec<FieldValue> = Vec::new();
        for name in &names {
            let value = record.remove(name.as_str()).unwrap();
            values.push(match value {
                shapefile::dbase::FieldValue::Character(o) => FieldValue::Character(o),
                shapefile::dbase::FieldValue::Numeric(o) => FieldValue::Numeric(o.map(|v| {
                    F64Value { bits: v.to_bits(), code: format!("{v:.0}") }
                })),
                other => panic!("unexpected value {other:?}"),
            });
        }
        let lib_shape = match shape {
            shapefile::Shape::Point(p) => Shape::Point(ksj2gp::Coord {
                x: p.x.to_bits(),
                y: p.y.to_bits(),
                z: None,
            }),
            other => panic!("unexpected shape {other}"),
        };
        let geometry = transformer.transform(&lib_shape).unwrap();
        assert!(builders.row_accepted(&values));
        builders.push_row(values, geometry);
    }

    let batch = builders.finish();
    assert_eq!(batch.geometries.len(), 1);
    for column in &batch.columns {
        assert_eq!(column.len(), 1);
    }
    match &batch.geometries[0] {
        Geometry::Point(p) => {
            assert_eq!(f64::from_bits(p.x), 139.767125);
            assert_eq!(f64::from_bits(p.y), 35.681236);
        },
        other => panic!("expected a point, got {other:?}"),
    }
    match &batch.columns[0] {
        FinishedColumn::Utf8(cells) => assert_eq!(cells[0].as_deref(), Some("hello")),
        other => panic!("expected a text column, got {other:?}"),
    }
    match &batch.columns[1] {
        FinishedColumn::Float64(cells) => {
            assert_eq!(cells[0].map(f64::from_bits), Some(42.5));
        },
        other => panic!("expected a double column, got {other:?}"),
    }
}
