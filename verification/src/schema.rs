//! Schema inference: mapping the attribute table's field descriptors, the
//! resolved CRS, and the translation options into the typed output schema.
use vstd::prelude::*;

use crate::codelists::{get_codelist_map, spec_get_codelist};
use crate::colnames::{spec_translate_colnames, translate_colnames};
use crate::crs::JapanCrs;
use crate::error::Ksj2GpError;
use crate::tables::{Codelist, TranslationTables};
use crate::translate::TranslateOptions;

verus! {

/// The storage type of one attribute-table field.
#[derive(Debug, Clone, Copy, PartialEq, Eq, Structural)]
pub enum FieldType {
    Character,
    Date,
    Float,
    Numeric,
    Logical,
    Currency,
    DateTime,
    Integer,
    Double,
    Memo,
}

/// One attribute-table field: its name and its storage type.
pub struct FieldDescriptor {
    pub name: String,
    pub field_type: FieldType,
}

/// The type of one output column.
#[derive(Debug, Clone, Copy, PartialEq, Eq, Structural)]
pub enum OutputType {
    Float64,
    Float32,
    Int32,
    Boolean,
    Utf8,
    Date32,
}

/// One output column: its name, its type, and the code dictionary whose
/// labels replace raw codes, if content translation applies to it.
pub struct OutputField {
    pub name: String,
    pub data_type: OutputType,
    pub codelist: Option<Codelist>,
}

/// The output schema: the typed attribute columns, in field order, and a
/// trailing geometry column carrying the CRS.
pub struct FieldsWithGeo {
    pub fields: Vec<OutputField>,
    pub crs: JapanCrs,
}

/// The output type of a storage type; the rich timestamp type has none
/// and is rejected rather than truncated.
pub open spec fn spec_output_type(ft: FieldType) -> Option<OutputType> {
    match ft {
        FieldType::Numeric | FieldType::Double | FieldType::Currency => Some(OutputType::Float64),
        FieldType::Character | FieldType::Memo => Some(OutputType::Utf8),
        FieldType::Float => Some(OutputType::Float32),
        FieldType::Integer => Some(OutputType::Int32),
        FieldType::Logical => Some(OutputType::Boolean),
        FieldType::Date => Some(OutputType::Date32),
        FieldType::DateTime => None,
    }
}

/// The code dictionary that applies to a field, when content translation
/// is on.
pub open spec fn spec_field_codelist(
    t: TranslationTables,
    options: TranslateOptions,
    field_name: Seq<char>,
) -> Option<Codelist> {
    if options.translate_contents {
        spec_get_codelist(t, field_name, options.year as int, options.target_shp@)
    } else {
        None
    }
}

/// The output column `of` is the correct mapping of the descriptor `f`.
pub open spec fn spec_output_field_ok(
    t: TranslationTables,
    options: TranslateOptions,
    f: FieldDescriptor,
    of: OutputField,
) -> bool {
    &&& spec_translate_colnames(t, f.name@, options) == Some(of.name@)
    &&& match spec_field_codelist(t, options, f.name@) {
        Some(cl) => of.data_type == OutputType::Utf8 && match of.codelist {
            Some(c) => c.entries@ == cl.entries@,
            None => false,
        },
        None => of.codelist is None && Some(of.data_type) == spec_output_type(f.field_type),
    }
}

/// The descriptor `f` cannot be mapped: its name has no translation, or
/// its storage type is unsupported and no code dictionary overrides it.
pub open spec fn spec_field_fails(
    t: TranslationTables,
    options: TranslateOptions,
    f: FieldDescriptor,
) -> bool {
    ||| spec_translate_colnames(t, f.name@, options) is None
    ||| (spec_field_codelist(t, options, f.name@) is None && spec_output_type(f.field_type)
        is None)
}

impl FieldsWithGeo {
    /// The number of output columns: one per attribute field, plus the
    /// trailing geometry column.
    pub fn num_columns(&self) -> (r: usize)
        requires
            self.fields@.len() < usize::MAX,
        ensures
            r == self.fields@.len() + 1,
    {
        self.fields.len() + 1
    }
}

/// Builds the output schema from the attribute-table field descriptors.
/// Each field's name is translated; a field with a code dictionary becomes
/// a text column whose values are labels; every other field maps by its
/// storage type. The schema has one column per field, plus the geometry
/// column carrying the CRS, last.
pub fn construct_schema(
    t: &TranslationTables,
    fields: &Vec<FieldDescriptor>,
    crs: JapanCrs,
    options: &TranslateOptions,
) -> (r: Result<FieldsWithGeo, Ksj2GpError>)
    ensures
        match r {
            Ok(schema) => {
                &&& schema.crs == crs
                &&& schema.fields@.len() == fields@.len()
                &&& forall|i: int|
                    0 <= i < fields@.len() ==> spec_output_field_ok(
                        *t,
                        *options,
                        fields@[i],
                        #[trigger] schema.fields@[i],
                    )
            },
            Err(_) => exists|i: int|
                0 <= i < fields@.len() && spec_field_fails(*t, *options, #[trigger] fields@[i]),
        },
{
    let n = fields.len();
    let mut out: Vec<OutputField> = Vec::with_capacity(n);
    let mut i: usize = 0;
    while i < n
        invariant
            i <= n,
            n == fields@.len(),
            out@.len() == i,
            forall|k: int|
                0 <= k < i ==> spec_output_field_ok(*t, *options, fields@[k], #[trigger] out@[k]),
        decreases n - i,
    {
        let field = &fields[i];
        let translated_name = match translate_colnames(t, field.name.as_str(), options) {
            Ok(name) => name,
            Err(e) => {
                return Err(e);
            },
        };
        let codelist: Option<&Codelist> = if options.translate_contents {
            get_codelist_map(t, field.name.as_str(), options.year, options.target_shp.as_str())
        } else {
            None
        };
        match codelist {
            Some(cl) => {
                out.push(
                    OutputField {
                        name: translated_name,
                        data_type: OutputType::Utf8,
                        codelist: Some(cl.duplicate()),
                    },
                );
            },
            None => {
                let data_type = match field.field_type {
                    FieldType::Numeric | FieldType::Double | FieldType::Currency => {
                        OutputType::Float64
                    },
                    FieldType::Character | FieldType::Memo => OutputType::Utf8,
                    FieldType::Float => OutputType::Float32,
                    FieldType::Integer => OutputType::Int32,
                    FieldType::Logical => OutputType::Boolean,
                    FieldType::Date => OutputType::Date32,
                    FieldType::DateTime => {
                        return Err(
                            Ksj2GpError::new(
                                String::from_str(
                                    "Unsupported field type: rich timestamps are not converted",
                                ),
                            ),
                        );
                    },
                };
                out.push(OutputField { name: translated_name, data_type, codelist: None });
            },
        }
        i = i + 1;
    }
    Ok(FieldsWithGeo { fields: out, crs })
}

/// The names of the attribute fields, in schema order. Row values must be
/// picked out of a record in this order, never in map-iteration order.
pub fn field_names(fields: &Vec<FieldDescriptor>) -> (r: Vec<String>)
    ensures
        r@.len() == fields@.len(),
        forall|i: int| 0 <= i < fields@.len() ==> r@[i]@ == #[trigger] fields@[i].name@,
{
    let n = fields.len();
    let mut out: Vec<String> = Vec::with_capacity(n);
    let mut i: usize = 0;
    while i < n
        invariant
            i <= n,
            n == fields@.len(),
            out@.len() == i,
            forall|k: int| 0 <= k < i ==> out@[k]@ == #[trigger] fields@[k].name@,
        decreases n - i,
    {
        out.push(fields[i].name.clone());
        i = i + 1;
    }
    out
}

} // verus!
