use ksj2gp::{
    Codelist, ColumnType, Coord, CoordTransformer, Dimension, F64Value, FieldDescriptor,
    FieldType, FieldValue, FinishedColumn, Geometry, GeometryType, JapanCrs, Shape, ShapeKind,
    SqlValue, TranslateOptions, TranslationTables, build_column_specs, construct_schema,
    default_dimension_from_shape_type, field_names, field_value_to_sql_value,
    geometry_type_from_shape_type, shape_to_geometry, translate_codelist_value,
};

fn no_translation_options() -> TranslateOptions {
    TranslateOptions {
        translate_colnames: false,
        translate_contents: false,
        ignore_translation_errors: false,
        ksj_id: "P02".to_string(),
        year: 1990,
        target_shp: "P02-90_43.shp".to_string(),
    }
}

fn descriptor(name: &str, field_type: FieldType) -> FieldDescriptor {
    FieldDescriptor { name: name.to_string(), field_type }
}

fn coord(x: f64, y: f64) -> Coord {
    Coord { x: x.to_bits(), y: y.to_bits(), z: None }
}

#[test]
fn schema_has_one_column_per_field_plus_geometry() {
    let tables = TranslationTables::new();
    let options = no_translation_options();
    let fields = vec![
        descriptor("name", FieldType::Character),
        descriptor("value", FieldType::Numeric),
        descriptor("flag", FieldType::Logical),
    ];
    let schema = construct_schema(&tables, &fields, JapanCrs::JGD2000, &options).unwrap();
    assert_eq!(schema.fields.len(), 3);
    assert_eq!(schema.num_columns(), 4);
    assert_eq!(schema.fields[0].name, "name");
    assert_eq!(schema.fields[1].name, "value");
    assert_eq!(field_names(&fields), vec!["name", "value", "flag"]);

    let empty: Vec<FieldDescriptor> = Vec::new();
    let schema = construct_schema(&tables, &empty, JapanCrs::JGD2011, &options).unwrap();
    assert_eq!(schema.num_columns(), 1);
}

#[test]
fn rich_timestamps_are_rejected() {
    let tables = TranslationTables::new();
    let options = no_translation_options();
    let fields = vec![descriptor("stamp", FieldType::DateTime)];
    assert!(construct_schema(&tables, &fields, JapanCrs::JGD2000, &options).is_err());
}

fn translated_tables() -> TranslationTables {
    let mut tables = TranslationTables::new();
    tables.codelists.push((
        "P02_001".to_string(),
        Codelist {
            entries: vec![
                ("1".to_string(), "市役所".to_string()),
                ("2".to_string(), "町村役場".to_string()),
                ("5".to_string(), "警察署".to_string()),
            ],
        },
    ));
    tables
}

#[test]
fn translated_column_becomes_text() {
    let tables = translated_tables();
    let mut options = no_translation_options();
    options.translate_contents = true;
    let fields = vec![descriptor("P02_001", FieldType::Numeric)];
    let schema = construct_schema(&tables, &fields, JapanCrs::JGD2000, &options).unwrap();
    assert!(schema.fields[0].codelist.is_some());
}

#[test]
fn chunk_length_is_the_row_count_not_the_capacity() {
    let tables = TranslationTables::new();
    let options = no_translation_options();
    let fields = vec![
        descriptor("name", FieldType::Character),
        descriptor("value", FieldType::Numeric),
    ];
    let schema = construct_schema(&tables, &fields, JapanCrs::JGD2000, &options).unwrap();
    let mut builders = schema.create_builders(2048);
    for i in 0..3 {
        let v = i as f64;
        let row = vec![
            FieldValue::Character(Some(format!("row{i}"))),
            FieldValue::Numeric(Some(F64Value { bits: v.to_bits(), code: format!("{v:.0}") })),
        ];
        assert!(builders.row_accepted(&row));
        builders.push_row(row, Geometry::Point(coord(139.0 + v, 35.0)));
    }
    let batch = builders.finish();
    assert_eq!(batch.columns.len(), 2);
    for column in &batch.columns {
        assert_eq!(column.len(), 3);
    }
    assert_eq!(batch.geometries.len(), 3);
    match &batch.columns[0] {
        FinishedColumn::Utf8(cells) => {
            assert_eq!(cells[1].as_deref(), Some("row1"));
        },
        other => panic!("expected a text column, got {other:?}"),
    }
    match &batch.columns[1] {
        FinishedColumn::Float64(cells) => {
            assert_eq!(cells[2].map(f64::from_bits), Some(2.0));
        },
        other => panic!("expected a double column, got {other:?}"),
    }
}

#[test]
fn absent_code_passes_through_as_its_text() {
    let tables = translated_tables();
    let mut options = no_translation_options();
    options.translate_contents = true;
    let fields = vec![descriptor("P02_001", FieldType::Numeric)];
    let schema = construct_schema(&tables, &fields, JapanCrs::JGD2000, &options).unwrap();
    let mut builders = schema.create_builders(16);

    let rows: Vec<FieldValue> = vec![
        FieldValue::Numeric(Some(F64Value { bits: 5f64.to_bits(), code: "5".to_string() })),
        FieldValue::Numeric(Some(F64Value { bits: 99f64.to_bits(), code: "99".to_string() })),
        FieldValue::Character(Some("2".to_string())),
        FieldValue::Character(Some("hello".to_string())),
        FieldValue::Character(None),
        FieldValue::Integer(1),
        FieldValue::Integer(42),
        FieldValue::Logical(Some(true)),
        FieldValue::Logical(None),
        FieldValue::Date(Some(2)),
        FieldValue::Date(None),
        FieldValue::DateTime(17),
        FieldValue::Currency(F64Value { bits: 5f64.to_bits(), code: "5".to_string() }),
    ];
    for value in rows {
        builders.push_row(vec![value], Geometry::Point(coord(139.0, 35.0)));
    }
    let batch = builders.finish();
    match &batch.columns[0] {
        FinishedColumn::Utf8(cells) => {
            assert_eq!(cells[0].as_deref(), Some("警察署"));
            assert_eq!(cells[1].as_deref(), Some("99"));
            assert_eq!(cells[2].as_deref(), Some("町村役場"));
            assert_eq!(cells[3].as_deref(), Some("hello"));
            assert_eq!(cells[4], None);
            assert_eq!(cells[5].as_deref(), Some("市役所"));
            assert_eq!(cells[6].as_deref(), Some("42"));
            // Booleans, dates, timestamps and currency values present
            // their rendered code like every other kind: label when the
            // dictionary has it, the code itself when it does not, null
            // for null. A date's code is its calendar form.
            assert_eq!(cells[7].as_deref(), Some("市役所"));
            assert_eq!(cells[8], None);
            assert_eq!(cells[9].as_deref(), Some("19700103"));
            assert_eq!(cells[10], None);
            assert_eq!(cells[11].as_deref(), Some("17"));
            assert_eq!(cells[12].as_deref(), Some("警察署"));
        },
        other => panic!("expected a text column, got {other:?}"),
    }
}

#[test]
fn jgd_coordinates_pass_through_unchanged() {
    let transformer = CoordTransformer::new(JapanCrs::JGD2000);
    assert!(!transformer.requires_datum_shift());
    let shape = Shape::Point(coord(139.767125, 35.681236));
    match transformer.transform(&shape).unwrap() {
        Geometry::Point(p) => {
            assert_eq!(f64::from_bits(p.x), 139.767125);
            assert_eq!(f64::from_bits(p.y), 35.681236);
        },
        other => panic!("expected a point, got {other:?}"),
    }

    let transformer = CoordTransformer::new(JapanCrs::JGD2011);
    let parts = vec![
        vec![coord(139.0, 35.0), coord(139.1, 35.1)],
        vec![coord(140.0, 36.0), coord(140.1, 36.1)],
    ];
    match transformer.transform(&Shape::Polyline(parts.clone())).unwrap() {
        Geometry::MultiLineString(ls) => {
            assert_eq!(ls, parts);
        },
        other => panic!("expected a multi-linestring, got {other:?}"),
    }
}

#[test]
fn polygon_keeps_its_rings_in_order() {
    let rings = vec![
        vec![coord(0.0, 0.0), coord(0.0, 10.0), coord(10.0, 10.0), coord(0.0, 0.0)],
        vec![coord(1.0, 1.0), coord(1.0, 2.0), coord(2.0, 2.0), coord(1.0, 1.0)],
    ];
    match shape_to_geometry(&Shape::PolygonZ(rings.clone())).unwrap() {
        Geometry::Polygon(rs) => assert_eq!(rs, rings),
        other => panic!("expected a polygon, got {other:?}"),
    }
}

#[test]
fn unsupported_shapes_are_rejected() {
    assert!(shape_to_geometry(&Shape::NullShape).is_err());
    assert!(shape_to_geometry(&Shape::Multipatch).is_err());
    assert!(shape_to_geometry(&Shape::PointM(coord(1.0, 2.0))).is_err());
    let e = shape_to_geometry(&Shape::MultipointM(vec![coord(1.0, 2.0)])).unwrap_err();
    assert!(e.message().contains("Unsupported shape type"));
}

#[test]
fn tokyo_datum_shift_moves_a_known_point() {
    // The fixed Bessel-to-WGS84 shift, computed as the embedding
    // application computes it before handing the shape to the library.
    let tokyo = proj4rs::Proj::from_proj_string(
        "+proj=longlat +ellps=bessel +towgs84=-146.414,507.337,680.507,0,0,0,0 +no_defs +type=crs",
    )
    .unwrap();
    let wgs84 =
        proj4rs::Proj::from_proj_string("+proj=longlat +ellps=WGS84 +datum=WGS84 +no_defs")
            .unwrap();
    let mut pt = (139.0f64.to_radians(), 35.0f64.to_radians());
    proj4rs::transform::transform(&tokyo, &wgs84, &mut pt).unwrap();
    let (lon, lat) = (pt.0.to_degrees(), pt.1.to_degrees());

    let transformer = CoordTransformer::new(JapanCrs::Tokyo);
    assert!(transformer.requires_datum_shift());
    let shifted = Shape::Point(coord(lon, lat));
    match transformer.transform(&shifted).unwrap() {
        Geometry::Point(p) => {
            let out_lon = f64::from_bits(p.x);
            let out_lat = f64::from_bits(p.y);
            assert_eq!(out_lon, lon);
            assert_eq!(out_lat, lat);
            // The shift magnitude for the Tokyo area is roughly twelve
            // seconds of arc: north-east by about 0.003 degrees.
            assert!(out_lat - 35.0 > 0.002 && out_lat - 35.0 < 0.005);
            assert!(out_lon - 139.0 < -0.002 && out_lon - 139.0 > -0.005);
        },
        other => panic!("expected a point, got {other:?}"),
    }
}

#[test]
fn layer_geometry_type_follows_the_shape_type() {
    assert_eq!(geometry_type_from_shape_type(ShapeKind::PointZ).unwrap(), GeometryType::Point);
    assert_eq!(
        geometry_type_from_shape_type(ShapeKind::Polyline).unwrap(),
        GeometryType::MultiLineString
    );
    assert_eq!(
        geometry_type_from_shape_type(ShapeKind::PolygonM).unwrap(),
        GeometryType::MultiPolygon
    );
    assert_eq!(
        geometry_type_from_shape_type(ShapeKind::Multipoint).unwrap(),
        GeometryType::MultiPoint
    );
    assert!(geometry_type_from_shape_type(ShapeKind::NullShape).is_err());
    assert!(geometry_type_from_shape_type(ShapeKind::Multipatch).is_err());
}

#[test]
fn layer_dimension_follows_the_shape_type() {
    assert_eq!(default_dimension_from_shape_type(ShapeKind::Point), Dimension::Xy);
    assert_eq!(default_dimension_from_shape_type(ShapeKind::PolylineM), Dimension::Xym);
    assert_eq!(default_dimension_from_shape_type(ShapeKind::MultipointZ), Dimension::Xyzm);
}

#[test]
fn column_specs_follow_the_field_types() {
    let tables = translated_tables();
    let mut options = no_translation_options();
    options.translate_contents = true;
    let fields = vec![
        descriptor("P02_001", FieldType::Numeric),
        descriptor("name", FieldType::Character),
        descriptor("count", FieldType::Integer),
        descriptor("flag", FieldType::Logical),
        descriptor("seen", FieldType::Date),
    ];
    let (specs, codelists) = build_column_specs(&tables, &fields, &options).unwrap();
    assert_eq!(specs.len(), 5);
    assert_eq!(specs[0].column_type, ColumnType::Varchar);
    assert!(codelists[0].is_some());
    assert_eq!(specs[1].column_type, ColumnType::Varchar);
    assert_eq!(specs[2].column_type, ColumnType::Integer);
    assert_eq!(specs[3].column_type, ColumnType::Boolean);
    assert_eq!(specs[4].column_type, ColumnType::Integer);
    assert!(codelists[1].is_none());
}

#[test]
fn sql_values_follow_the_value_kinds() {
    let v = field_value_to_sql_value(
        FieldValue::Numeric(Some(F64Value { bits: 1.5f64.to_bits(), code: "2".to_string() })),
        None,
        false,
    );
    assert_eq!(v, SqlValue::Real(1.5f64.to_bits()));
    assert_eq!(
        field_value_to_sql_value(FieldValue::Logical(Some(true)), None, false),
        SqlValue::Integer(1)
    );
    assert_eq!(
        field_value_to_sql_value(FieldValue::Date(Some(19000)), None, false),
        SqlValue::Integer(19000)
    );
    assert_eq!(
        field_value_to_sql_value(FieldValue::Character(None), None, false),
        SqlValue::Null
    );
    assert_eq!(
        field_value_to_sql_value(FieldValue::Integer(-7), None, false),
        SqlValue::Integer(-7)
    );
}

#[test]
fn sql_values_are_translated_through_the_dictionary() {
    let map = Codelist {
        entries: vec![("1".to_string(), "市役所".to_string())],
    };
    let v = field_value_to_sql_value(
        FieldValue::Numeric(Some(F64Value { bits: 1f64.to_bits(), code: "1".to_string() })),
        Some(&map),
        true,
    );
    assert_eq!(v, SqlValue::Text("市役所".to_string()));
    let v = field_value_to_sql_value(
        FieldValue::Numeric(Some(F64Value { bits: 9f64.to_bits(), code: "9".to_string() })),
        Some(&map),
        true,
    );
    assert_eq!(v, SqlValue::Text("9".to_string()));
    let v = field_value_to_sql_value(FieldValue::Numeric(None), Some(&map), true);
    assert_eq!(v, SqlValue::Null);
    assert_eq!(
        translate_codelist_value(&FieldValue::Logical(Some(true)), &map).unwrap(),
        "市役所".to_string()
    );
    assert_eq!(
        translate_codelist_value(&FieldValue::Logical(Some(false)), &map).unwrap(),
        "0".to_string()
    );
    assert!(translate_codelist_value(&FieldValue::Logical(None), &map).is_none());
}

#[test]
fn translated_date_codes_use_the_calendar_form() {
    let map = Codelist {
        entries: vec![("19700101".to_string(), "元日".to_string())],
    };
    assert_eq!(
        translate_codelist_value(&FieldValue::Date(Some(0)), &map).unwrap(),
        "元日".to_string()
    );
    assert_eq!(
        translate_codelist_value(&FieldValue::Date(Some(19723)), &map).unwrap(),
        "20240101".to_string()
    );
    assert_eq!(
        translate_codelist_value(&FieldValue::Date(Some(-1)), &map).unwrap(),
        "19691231".to_string()
    );
    assert!(translate_codelist_value(&FieldValue::Date(None), &map).is_none());
}
