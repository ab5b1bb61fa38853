//! Conversion engine for Japanese national land-survey ("KSJ") shapefile
//! archives: coordinate-reference-system and text-encoding detection, schema
//! inference with optional code/column translation, chunked record-batch
//! building, and coordinate transformation to WGS84.
mod builder;
mod codelists;
mod colnames;
mod crs;
mod encoding;
mod error;
mod gpkg;
mod schema;
mod strutil;
mod tables;
mod transform_coord;
mod translate;
mod zip_reader;

pub use builder::{ArrayBuilderWithGeo, F32Value, F64Value, FieldValue, FinishedBatch,
    FinishedColumn, NonGeoArrayBuilder};
pub use codelists::get_codelist_map;
pub use colnames::{parse_idx, translate_colnames, translate_colnames_a42, translate_colnames_l01};
pub use crs::{JapanCrs, classify_reference_system, crs_from_sources, guess_crs_from_esri_wkt,
    guess_crs_from_meta_xml};
pub use encoding::{TextEncoding, decode_cp437cp932_to_utf8, encode_utf8_to_cp437cp932,
    encoding_from_header, resolve_encoding};
pub use error::Ksj2GpError;
pub use gpkg::{ColumnSpec, ColumnType, Dimension, GeometryType, ShapeKind, SqlValue,
    build_column_specs, default_dimension_from_shape_type, field_value_to_sql_value,
    geometry_type_from_shape_type, translate_codelist_value};
pub use schema::{FieldDescriptor, FieldType, FieldsWithGeo, OutputField, OutputType,
    construct_schema, field_names};
pub use tables::{Codelist, TranslationTables};
pub use transform_coord::{Coord, CoordTransformer, Geometry, Shape, shape_to_geometry};
pub use translate::{TranslateOptions, extract_ksj_id};
pub use zip_reader::{ZippedShapefileReader, find_meta_xml, list_shp_files, meta_xml_from_entries,
    shp_names_from_entries};
