//! The decision logic of the spatial-database writer: layer geometry type
//! and dimensionality from the file's shape type, column specifications
//! from the field descriptors, and the mapping of attribute values to
//! database values, with per-column code translation.
use vstd::prelude::*;

use crate::builder::{FieldValue, spec_lookup_label, spec_value_code};
use crate::codelists::get_codelist_map;
use crate::colnames::{spec_translate_colnames, translate_colnames};
use crate::error::Ksj2GpError;
use crate::schema::{FieldDescriptor, FieldType};
use crate::strutil::{date_code_string, i32_to_string, i64_to_string, spec_i32_string};
use crate::tables::{Codelist, TranslationTables};
use crate::translate::TranslateOptions;

verus! {

/// The shape type declared in a shapefile's header.
#[derive(Debug, Clone, Copy, PartialEq, Eq, Structural)]
pub enum ShapeKind {
    NullShape,
    Point,
    PointM,
    PointZ,
    Polyline,
    PolylineM,
    PolylineZ,
    Polygon,
    PolygonM,
    PolygonZ,
    Multipoint,
    MultipointM,
    MultipointZ,
    Multipatch,
}

/// The geometry type of a database layer.
#[derive(Debug, Clone, Copy, PartialEq, Eq, Structural)]
pub enum GeometryType {
    Point,
    MultiPoint,
    MultiLineString,
    MultiPolygon,
}

/// The coordinate dimensionality of a database layer.
#[derive(Debug, Clone, Copy, PartialEq, Eq, Structural)]
pub enum Dimension {
    Xy,
    Xym,
    Xyzm,
}

/// The column type of a database layer.
#[derive(Debug, Clone, Copy, PartialEq, Eq, Structural)]
pub enum ColumnType {
    Double,
    Integer,
    Boolean,
    Varchar,
}

/// One column of a database layer.
#[derive(Debug)]
pub struct ColumnSpec {
    pub name: String,
    pub column_type: ColumnType,
}

/// One value bound into a database row. A real number is carried as the
/// bit pattern of the binary double.
#[derive(Debug, Clone, PartialEq)]
pub enum SqlValue {
    Text(String),
    Real(u64),
    Integer(i64),
    Null,
}

/// The layer geometry type a shape type calls for; the null shape and
/// multipatch have none.
pub open spec fn spec_geometry_type(kind: ShapeKind) -> Option<GeometryType> {
    match kind {
        ShapeKind::Point | ShapeKind::PointM | ShapeKind::PointZ => Some(GeometryType::Point),
        ShapeKind::Multipoint | ShapeKind::MultipointM | ShapeKind::MultipointZ => Some(
            GeometryType::MultiPoint,
        ),
        ShapeKind::Polyline | ShapeKind::PolylineM | ShapeKind::PolylineZ => Some(
            GeometryType::MultiLineString,
        ),
        ShapeKind::Polygon | ShapeKind::PolygonM | ShapeKind::PolygonZ => Some(
            GeometryType::MultiPolygon,
        ),
        ShapeKind::NullShape | ShapeKind::Multipatch => None,
    }
}

/// Maps the file's shape type to the layer's geometry type.
pub fn geometry_type_from_shape_type(shape_type: ShapeKind) -> (r: Result<
    GeometryType,
    Ksj2GpError,
>)
    ensures
        match r {
            Ok(g) => spec_geometry_type(shape_type) == Some(g),
            Err(_) => spec_geometry_type(shape_type) is None,
        },
{
    match shape_type {
        ShapeKind::Point | ShapeKind::PointM | ShapeKind::PointZ => Ok(GeometryType::Point),
        ShapeKind::Multipoint | ShapeKind::MultipointM | ShapeKind::MultipointZ => Ok(
            GeometryType::MultiPoint,
        ),
        ShapeKind::Polyline | ShapeKind::PolylineM | ShapeKind::PolylineZ => Ok(
            GeometryType::MultiLineString,
        ),
        ShapeKind::Polygon | ShapeKind::PolygonM | ShapeKind::PolygonZ => Ok(
            GeometryType::MultiPolygon,
        ),
        ShapeKind::NullShape | ShapeKind::Multipatch => Err(
            Ksj2GpError::new(String::from_str("Unsupported shape type for a database layer")),
        ),
    }
}

/// The layer dimensionality a shape type calls for.
pub open spec fn spec_default_dimension(kind: ShapeKind) -> Dimension {
    match kind {
        ShapeKind::PointM | ShapeKind::PolylineM | ShapeKind::PolygonM | ShapeKind::MultipointM
            => Dimension::Xym,
        ShapeKind::PointZ | ShapeKind::PolylineZ | ShapeKind::PolygonZ | ShapeKind::MultipointZ
            => Dimension::Xyzm,
        _ => Dimension::Xy,
    }
}

/// Maps the file's shape type to the layer's dimensionality.
pub fn default_dimension_from_shape_type(shape_type: ShapeKind) -> (r: Dimension)
    ensures
        r == spec_default_dimension(shape_type),
{
    match shape_type {
        ShapeKind::PointM | ShapeKind::PolylineM | ShapeKind::PolygonM | ShapeKind::MultipointM
            => Dimension::Xym,
        ShapeKind::PointZ | ShapeKind::PolylineZ | ShapeKind::PolygonZ | ShapeKind::MultipointZ
            => Dimension::Xyzm,
        _ => Dimension::Xy,
    }
}

/// The database column type of a storage type.
pub open spec fn spec_column_type(ft: FieldType) -> ColumnType {
    match ft {
        FieldType::Numeric | FieldType::Double | FieldType::Currency | FieldType::Float
            => ColumnType::Double,
        FieldType::Integer => ColumnType::Integer,
        FieldType::Logical => ColumnType::Boolean,
        FieldType::Date => ColumnType::Integer,
        FieldType::DateTime => ColumnType::Integer,
        FieldType::Character | FieldType::Memo => ColumnType::Varchar,
    }
}

/// The column spec and dictionary pair `(cs, cl)` is the correct mapping
/// of the descriptor `f`.
pub open spec fn spec_column_spec_ok(
    t: TranslationTables,
    options: TranslateOptions,
    f: FieldDescriptor,
    cs: ColumnSpec,
    cl: Option<Codelist>,
) -> bool {
    &&& spec_translate_colnames(t, f.name@, options) == Some(cs.name@)
    &&& match crate::schema::spec_field_codelist(t, options, f.name@) {
        Some(c) => cs.column_type == ColumnType::Varchar && match cl {
            Some(have) => have.entries@ == c.entries@,
            None => false,
        },
        None => cl is None && cs.column_type == spec_column_type(f.field_type),
    }
}

/// Builds the layer's column specifications: each field's translated name
/// and its column type, with a text column and its dictionary wherever
/// content translation applies.
pub fn build_column_specs(
    t: &TranslationTables,
    dbf_fields: &Vec<FieldDescriptor>,
    options: &TranslateOptions,
) -> (r: Result<(Vec<ColumnSpec>, Vec<Option<Codelist>>), Ksj2GpError>)
    ensures
        match r {
            Ok(pair) => {
                &&& pair.0@.len() == dbf_fields@.len()
                &&& pair.1@.len() == dbf_fields@.len()
                &&& forall|i: int|
                    0 <= i < dbf_fields@.len() ==> spec_column_spec_ok(
                        *t,
                        *options,
                        dbf_fields@[i],
                        #[trigger] pair.0@[i],
                        pair.1@[i],
                    )
            },
            Err(_) => exists|i: int|
                0 <= i < dbf_fields@.len() && spec_translate_colnames(
                    *t,
                    (#[trigger] dbf_fields@[i]).name@,
                    *options,
                ) is None,
        },
{
    let n = dbf_fields.len();
    let mut column_specs: Vec<ColumnSpec> = Vec::with_capacity(n);
    let mut codelist_maps: Vec<Option<Codelist>> = Vec::with_capacity(n);
    let mut i: usize = 0;
    while i < n
        invariant
            i <= n,
            n == dbf_fields@.len(),
            column_specs@.len() == i,
            codelist_maps@.len() == i,
            forall|k: int|
                0 <= k < i ==> spec_column_spec_ok(
                    *t,
                    *options,
                    dbf_fields@[k],
                    #[trigger] column_specs@[k],
                    codelist_maps@[k],
                ),
        decreases n - i,
    {
        let field = &dbf_fields[i];
        let codelist: Option<Codelist> = if options.translate_contents {
            match get_codelist_map(t, field.name.as_str(), options.year, options.target_shp.as_str())
            {
                Some(cl) => Some(cl.duplicate()),
                None => None,
            }
        } else {
            None
        };
        let column_type = match &codelist {
            Some(_) => ColumnType::Varchar,
            None => match field.field_type {
                FieldType::Numeric | FieldType::Double | FieldType::Currency | FieldType::Float
                    => ColumnType::Double,
                FieldType::Integer => ColumnType::Integer,
                FieldType::Logical => ColumnType::Boolean,
                FieldType::Date => ColumnType::Integer,
                FieldType::DateTime => ColumnType::Integer,
                FieldType::Character | FieldType::Memo => ColumnType::Varchar,
            },
        };
        let translated_name = match translate_colnames(t, field.name.as_str(), options) {
            Ok(name) => name,
            Err(e) => {
                return Err(e);
            },
        };
        column_specs.push(ColumnSpec { name: translated_name, column_type });
        codelist_maps.push(codelist);
        i = i + 1;
    }
    Ok((column_specs, codelist_maps))
}

/// Translates one value through a code dictionary: the label of its code,
/// the code itself when the dictionary lacks it, and nothing for a null
/// value.
pub fn translate_codelist_value(value: &FieldValue, map: &Codelist) -> (r: Option<String>)
    ensures
        match spec_value_code(*value) {
            Some(code) => r matches Some(s) && s@ == spec_lookup_label(map.entries@, code),
            None => r is None,
        },
{
    let code: String = match value {
        FieldValue::Character(Some(s)) => s.clone(),
        FieldValue::Memo(s) => s.clone(),
        FieldValue::Numeric(Some(x)) => x.code.clone(),
        FieldValue::Double(x) => x.code.clone(),
        FieldValue::Currency(x) => x.code.clone(),
        FieldValue::Float(Some(x)) => x.code.clone(),
        FieldValue::Integer(n) => i32_to_string(*n),
        FieldValue::Logical(Some(b)) => {
            if *b {
                String::from_str("1")
            } else {
                String::from_str("0")
            }
        },
        FieldValue::Date(Some(days)) => date_code_string(*days),
        FieldValue::DateTime(ts) => i64_to_string(*ts),
        FieldValue::Character(None) | FieldValue::Numeric(None) | FieldValue::Float(None)
            | FieldValue::Logical(None) | FieldValue::Date(None) => {
            return None;
        },
    };
    match map.get(code.as_str()) {
        Some(label) => Some(label.clone()),
        None => Some(code),
    }
}

/// The database value a field value maps to when no translation applies.
pub open spec fn spec_plain_sql_value(v: FieldValue) -> SqlValue {
    match v {
        FieldValue::Character(Some(s)) => SqlValue::Text(s),
        FieldValue::Character(None) => SqlValue::Null,
        FieldValue::Memo(s) => SqlValue::Text(s),
        FieldValue::Numeric(Some(x)) => SqlValue::Real(x.bits),
        FieldValue::Numeric(None) => SqlValue::Null,
        FieldValue::Float(Some(x)) => SqlValue::Real(x.bits64),
        FieldValue::Float(None) => SqlValue::Null,
        FieldValue::Double(x) => SqlValue::Real(x.bits),
        FieldValue::Currency(x) => SqlValue::Real(x.bits),
        FieldValue::Integer(n) => SqlValue::Integer(n as i64),
        FieldValue::Logical(Some(b)) => SqlValue::Integer(
            if b {
                1
            } else {
                0
            },
        ),
        FieldValue::Logical(None) => SqlValue::Null,
        FieldValue::Date(Some(days)) => SqlValue::Integer(days as i64),
        FieldValue::Date(None) => SqlValue::Null,
        FieldValue::DateTime(ts) => SqlValue::Integer(ts),
    }
}

/// Maps one attribute value to the database value bound into its row:
/// through the column's dictionary when content translation applies to
/// the column, else by its storage kind.
pub fn field_value_to_sql_value(
    value: FieldValue,
    codelist: Option<&Codelist>,
    translate_contents: bool,
) -> (r: SqlValue)
    ensures
        match (translate_contents, codelist) {
            (true, Some(map)) => match spec_value_code(value) {
                Some(code) => r matches SqlValue::Text(s) && s@ == spec_lookup_label(
                    map.entries@,
                    code,
                ),
                None => r == SqlValue::Null,
            },
            _ => r == spec_plain_sql_value(value),
        },
{
    if translate_contents {
        if let Some(map) = codelist {
            return match translate_codelist_value(&value, map) {
                Some(label) => SqlValue::Text(label),
                None => SqlValue::Null,
            };
        }
    }
    match value {
        FieldValue::Character(Some(s)) => SqlValue::Text(s),
        FieldValue::Character(None) => SqlValue::Null,
        FieldValue::Memo(s) => SqlValue::Text(s),
        FieldValue::Numeric(Some(x)) => SqlValue::Real(x.bits),
        FieldValue::Numeric(None) => SqlValue::Null,
        FieldValue::Float(Some(x)) => SqlValue::Real(x.bits64),
        FieldValue::Float(None) => SqlValue::Null,
        FieldValue::Double(x) => SqlValue::Real(x.bits),
        FieldValue::Currency(x) => SqlValue::Real(x.bits),
        FieldValue::Integer(n) => SqlValue::Integer(n as i64),
        FieldValue::Logical(Some(b)) => SqlValue::Integer(
            if b {
                1
            } else {
                0
            },
        ),
        FieldValue::Logical(None) => SqlValue::Null,
        FieldValue::Date(Some(days)) => SqlValue::Integer(days as i64),
        FieldValue::Date(None) => SqlValue::Null,
        FieldValue::DateTime(ts) => SqlValue::Integer(ts),
    }
}

} // verus!
