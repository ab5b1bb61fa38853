//! The chunked, typed record-batch builder: one typed accumulator per
//! output column, chosen once from the schema, plus a geometry
//! accumulator. Rows are appended with type-driven dispatch and a finished
//! chunk yields parallel columns of equal length.
use vstd::prelude::*;

use crate::schema::{FieldsWithGeo, OutputField, OutputType};
use crate::strutil::{date_code_string, i32_to_string, i64_to_string, spec_assoc,
    spec_date_code, spec_i32_string};
use crate::tables::Codelist;
use crate::transform_coord::Geometry;

verus! {

/// A floating-point attribute value: the bit pattern of the binary double,
/// and the value rendered with no decimal places, as code dictionaries key
/// their entries. The rendering is produced at the decoding boundary.
#[derive(Debug, Clone, PartialEq)]
pub struct F64Value {
    pub bits: u64,
    pub code: String,
}

/// A single-precision attribute value, carried like [`F64Value`]; the
/// value widened exactly to a binary double rides along for consumers
/// that store every real as a double.
#[derive(Debug, Clone, PartialEq)]
pub struct F32Value {
    pub bits: u32,
    pub bits64: u64,
    pub code: String,
}

/// One attribute value of a row, mirroring the storage types of the
/// attribute table.
#[derive(Debug, Clone, PartialEq)]
pub enum FieldValue {
    Character(Option<String>),
    Numeric(Option<F64Value>),
    Logical(Option<bool>),
    Date(Option<i32>),
    Float(Option<F32Value>),
    Integer(i32),
    Currency(F64Value),
    DateTime(i64),
    Double(F64Value),
    Memo(String),
}

/// One typed column accumulator.
#[derive(Debug)]
pub enum NonGeoArrayBuilder {
    Float64(Vec<Option<u64>>),
    Float32(Vec<Option<u32>>),
    Int32(Vec<Option<i32>>),
    Boolean(Vec<Option<bool>>),
    Utf8(Vec<Option<String>>),
    Date32(Vec<Option<i32>>),
    TranslatedCode(Vec<Option<String>>, Codelist),
}

/// One finished, immutable column.
#[derive(Debug)]
pub enum FinishedColumn {
    Float64(Vec<Option<u64>>),
    Float32(Vec<Option<u32>>),
    Int32(Vec<Option<i32>>),
    Boolean(Vec<Option<bool>>),
    Utf8(Vec<Option<String>>),
    Date32(Vec<Option<i32>>),
}

/// The label of `code`, or `code` itself when the dictionary lacks it.
pub open spec fn spec_lookup_label(entries: Seq<(String, String)>, code: Seq<char>) -> Seq<char> {
    match spec_assoc(entries, code) {
        Some(label) => label@,
        None => code,
    }
}

/// The cell a value appends to a double column.
pub open spec fn spec_f64_cell(v: FieldValue) -> Option<u64> {
    match v {
        FieldValue::Numeric(Some(x)) => Some(x.bits),
        FieldValue::Numeric(None) => None,
        FieldValue::Double(x) => Some(x.bits),
        FieldValue::Currency(x) => Some(x.bits),
        _ => None,
    }
}

/// The cell a value appends to a single-precision column.
pub open spec fn spec_f32_cell(v: FieldValue) -> Option<u32> {
    match v {
        FieldValue::Float(Some(x)) => Some(x.bits),
        _ => None,
    }
}

/// The cell a value appends to an integer column.
pub open spec fn spec_i32_cell(v: FieldValue) -> Option<i32> {
    match v {
        FieldValue::Integer(n) => Some(n),
        _ => None,
    }
}

/// The cell a value appends to a boolean column.
pub open spec fn spec_bool_cell(v: FieldValue) -> Option<bool> {
    match v {
        FieldValue::Logical(o) => o,
        _ => None,
    }
}

/// The cell a value appends to a date column.
pub open spec fn spec_date_cell(v: FieldValue) -> Option<i32> {
    match v {
        FieldValue::Date(o) => o,
        _ => None,
    }
}

/// The cell a value appends to a text column.
pub open spec fn spec_utf8_cell(v: FieldValue) -> Option<String> {
    match v {
        FieldValue::Character(o) => o,
        FieldValue::Memo(s) => Some(s),
        _ => None,
    }
}

/// The code a value presents to a dictionary, and nothing for null
/// values: text as itself, numbers rendered with no decimals, booleans as
/// `1` or `0`, dates in their calendar form, timestamps as their second
/// count.
pub open spec fn spec_value_code(v: FieldValue) -> Option<Seq<char>> {
    match v {
        FieldValue::Character(Some(s)) => Some(s@),
        FieldValue::Memo(s) => Some(s@),
        FieldValue::Numeric(Some(x)) => Some(x.code@),
        FieldValue::Double(x) => Some(x.code@),
        FieldValue::Currency(x) => Some(x.code@),
        FieldValue::Float(Some(x)) => Some(x.code@),
        FieldValue::Integer(n) => Some(spec_i32_string(n as int)),
        FieldValue::Logical(Some(b)) => Some(
            if b {
                "1"@
            } else {
                "0"@
            },
        ),
        FieldValue::Date(Some(days)) => Some(spec_date_code(days as int)),
        FieldValue::DateTime(ts) => Some(spec_i32_string(ts as int)),
        FieldValue::Character(None) => None,
        FieldValue::Numeric(None) => None,
        FieldValue::Float(None) => None,
        FieldValue::Logical(None) => None,
        FieldValue::Date(None) => None,
    }
}

/// The cell a value appends to a translated-code column: the value's code
/// (see [`spec_value_code`]) is looked up in the dictionary and its label
/// appended; a code absent from the dictionary passes through verbatim; a
/// null value stays null.
pub open spec fn spec_translated_cell(entries: Seq<(String, String)>, v: FieldValue) -> Option<
    Seq<char>,
> {
    match spec_value_code(v) {
        Some(code) => Some(spec_lookup_label(entries, code)),
        None => None,
    }
}

/// The view of an optional owned string.
pub open spec fn spec_opt_str_view(c: Option<String>) -> Option<Seq<char>> {
    match c {
        Some(s) => Some(s@),
        None => None,
    }
}

impl NonGeoArrayBuilder {
    /// The number of cells accumulated so far.
    pub open spec fn col_len(self) -> nat {
        match self {
            NonGeoArrayBuilder::Float64(c) => c@.len(),
            NonGeoArrayBuilder::Float32(c) => c@.len(),
            NonGeoArrayBuilder::Int32(c) => c@.len(),
            NonGeoArrayBuilder::Boolean(c) => c@.len(),
            NonGeoArrayBuilder::Utf8(c) => c@.len(),
            NonGeoArrayBuilder::Date32(c) => c@.len(),
            NonGeoArrayBuilder::TranslatedCode(c, _) => c@.len(),
        }
    }

    /// This accumulator is the one the schema field calls for.
    pub open spec fn matches_field(self, f: OutputField) -> bool {
        match self {
            NonGeoArrayBuilder::TranslatedCode(_, cl) => match f.codelist {
                Some(c) => c.entries@ == cl.entries@,
                None => false,
            },
            NonGeoArrayBuilder::Float64(_) => f.codelist is None && f.data_type
                == OutputType::Float64,
            NonGeoArrayBuilder::Float32(_) => f.codelist is None && f.data_type
                == OutputType::Float32,
            NonGeoArrayBuilder::Int32(_) => f.codelist is None && f.data_type == OutputType::Int32,
            NonGeoArrayBuilder::Boolean(_) => f.codelist is None && f.data_type
                == OutputType::Boolean,
            NonGeoArrayBuilder::Utf8(_) => f.codelist is None && f.data_type == OutputType::Utf8,
            NonGeoArrayBuilder::Date32(_) => f.codelist is None && f.data_type
                == OutputType::Date32,
        }
    }

    /// The value's runtime kind is one this accumulator accepts. A
    /// mismatch is a broken construction-time pairing, not bad input: the
    /// schema builder guarantees it never arises.
    pub open spec fn spec_accepts(self, v: FieldValue) -> bool {
        match self {
            NonGeoArrayBuilder::Float64(_) => v matches FieldValue::Numeric(_) || v
                matches FieldValue::Double(_) || v matches FieldValue::Currency(_),
            NonGeoArrayBuilder::Float32(_) => v matches FieldValue::Float(_),
            NonGeoArrayBuilder::Int32(_) => v matches FieldValue::Integer(_),
            NonGeoArrayBuilder::Boolean(_) => v matches FieldValue::Logical(_),
            NonGeoArrayBuilder::Utf8(_) => v matches FieldValue::Character(_) || v
                matches FieldValue::Memo(_),
            NonGeoArrayBuilder::Date32(_) => v matches FieldValue::Date(_),
            NonGeoArrayBuilder::TranslatedCode(_, _) => true,
        }
    }

    /// Runtime form of [`Self::spec_accepts`], for callers that must test
    /// before pushing.
    pub fn accepts(&self, v: &FieldValue) -> (r: bool)
        ensures
            r == self.spec_accepts(*v),
    {
        match self {
            NonGeoArrayBuilder::Float64(_) => match v {
                FieldValue::Numeric(_) | FieldValue::Double(_) | FieldValue::Currency(_) => true,
                _ => false,
            },
            NonGeoArrayBuilder::Float32(_) => matches!(v, FieldValue::Float(_)),
            NonGeoArrayBuilder::Int32(_) => matches!(v, FieldValue::Integer(_)),
            NonGeoArrayBuilder::Boolean(_) => matches!(v, FieldValue::Logical(_)),
            NonGeoArrayBuilder::Utf8(_) => match v {
                FieldValue::Character(_) | FieldValue::Memo(_) => true,
                _ => false,
            },
            NonGeoArrayBuilder::Date32(_) => matches!(v, FieldValue::Date(_)),
            NonGeoArrayBuilder::TranslatedCode(_, _) => true,
        }
    }

    /// `new` extends `old` by exactly the cell that `v` appends.
    pub open spec fn spec_pushed(old: Self, new: Self, v: FieldValue) -> bool {
        match (old, new) {
            (NonGeoArrayBuilder::Float64(oc), NonGeoArrayBuilder::Float64(nc)) => nc@ == oc@.push(
                spec_f64_cell(v),
            ),
            (NonGeoArrayBuilder::Float32(oc), NonGeoArrayBuilder::Float32(nc)) => nc@ == oc@.push(
                spec_f32_cell(v),
            ),
            (NonGeoArrayBuilder::Int32(oc), NonGeoArrayBuilder::Int32(nc)) => nc@ == oc@.push(
                spec_i32_cell(v),
            ),
            (NonGeoArrayBuilder::Boolean(oc), NonGeoArrayBuilder::Boolean(nc)) => nc@ == oc@.push(
                spec_bool_cell(v),
            ),
            (NonGeoArrayBuilder::Utf8(oc), NonGeoArrayBuilder::Utf8(nc)) => nc@ == oc@.push(
                spec_utf8_cell(v),
            ),
            (NonGeoArrayBuilder::Date32(oc), NonGeoArrayBuilder::Date32(nc)) => nc@ == oc@.push(
                spec_date_cell(v),
            ),
            (
                NonGeoArrayBuilder::TranslatedCode(oc, ocl),
                NonGeoArrayBuilder::TranslatedCode(nc, ncl),
            ) => {
                &&& ncl.entries@ == ocl.entries@
                &&& nc@.len() == oc@.len() + 1
                &&& nc@.subrange(0, oc@.len() as int) == oc@
                &&& spec_opt_str_view(nc@[oc@.len() as int]) == spec_translated_cell(
                    ocl.entries@,
                    v,
                )
            },
            _ => false,
        }
    }

    /// Appends one value's cell. The value's kind must be one this
    /// accumulator accepts (see [`Self::spec_accepts`]).
    pub fn push(self, value: FieldValue) -> (r: Self)
        requires
            self.spec_accepts(value),
        ensures
            Self::spec_pushed(self, r, value),
            r.col_len() == self.col_len() + 1,
    {
        match self {
            NonGeoArrayBuilder::Float64(mut cells) => {
                match value {
                    FieldValue::Numeric(Some(x)) => cells.push(Some(x.bits)),
                    FieldValue::Numeric(None) => cells.push(None),
                    FieldValue::Double(x) | FieldValue::Currency(x) => cells.push(Some(x.bits)),
                    _ => {
                        proof {
                            assert(false);
                        }
                    },
                }
                NonGeoArrayBuilder::Float64(cells)
            },
            NonGeoArrayBuilder::Float32(mut cells) => {
                match value {
                    FieldValue::Float(Some(x)) => cells.push(Some(x.bits)),
                    FieldValue::Float(None) => cells.push(None),
                    _ => {
                        proof {
                            assert(false);
                        }
                    },
                }
                NonGeoArrayBuilder::Float32(cells)
            },
            NonGeoArrayBuilder::Int32(mut cells) => {
                match value {
                    FieldValue::Integer(n) => cells.push(Some(n)),
                    _ => {
                        proof {
                            assert(false);
                        }
                    },
                }
                NonGeoArrayBuilder::Int32(cells)
            },
            NonGeoArrayBuilder::Boolean(mut cells) => {
                match value {
                    FieldValue::Logical(o) => cells.push(o),
                    _ => {
                        proof {
                            assert(false);
                        }
                    },
                }
                NonGeoArrayBuilder::Boolean(cells)
            },
            NonGeoArrayBuilder::Utf8(mut cells) => {
                match value {
                    FieldValue::Character(o) => cells.push(o),
                    FieldValue::Memo(s) => cells.push(Some(s)),
                    _ => {
                        proof {
                            assert(false);
                        }
                    },
                }
                NonGeoArrayBuilder::Utf8(cells)
            },
            NonGeoArrayBuilder::Date32(mut cells) => {
                match value {
                    FieldValue::Date(o) => cells.push(o),
                    _ => {
                        proof {
                            assert(false);
                        }
                    },
                }
                NonGeoArrayBuilder::Date32(cells)
            },
            NonGeoArrayBuilder::TranslatedCode(mut cells, cl) => {
                let ghost oc = cells@;
                let code: Option<String> = match &value {
                    FieldValue::Character(Some(s)) => Some(s.clone()),
                    FieldValue::Memo(s) => Some(s.clone()),
                    FieldValue::Numeric(Some(x)) => Some(x.code.clone()),
                    FieldValue::Double(x) => Some(x.code.clone()),
                    FieldValue::Currency(x) => Some(x.code.clone()),
                    FieldValue::Float(Some(x)) => Some(x.code.clone()),
                    FieldValue::Integer(n) => Some(i32_to_string(*n)),
                    FieldValue::Logical(Some(b)) => Some(
                        if *b {
                            String::from_str("1")
                        } else {
                            String::from_str("0")
                        },
                    ),
                    FieldValue::Date(Some(days)) => Some(date_code_string(*days)),
                    FieldValue::DateTime(ts) => Some(i64_to_string(*ts)),
                    FieldValue::Character(None) | FieldValue::Numeric(None) | FieldValue::Float(
                        None,
                    ) | FieldValue::Logical(None) | FieldValue::Date(None) => None,
                };
                match code {
                    Some(code) => {
                        match cl.get(code.as_str()) {
                            Some(label) => cells.push(Some(label.clone())),
                            None => cells.push(Some(code)),
                        }
                    },
                    None => {
                        cells.push(None);
                    },
                }
                proof {
                    assert(cells@.subrange(0, oc.len() as int) =~= oc);
                }
                NonGeoArrayBuilder::TranslatedCode(cells, cl)
            },
        }
    }

    /// The finished column `c` holds exactly this accumulator's cells.
    pub open spec fn spec_finishes_to(self, c: FinishedColumn) -> bool {
        match (self, c) {
            (NonGeoArrayBuilder::Float64(x), FinishedColumn::Float64(y)) => y@ == x@,
            (NonGeoArrayBuilder::Float32(x), FinishedColumn::Float32(y)) => y@ == x@,
            (NonGeoArrayBuilder::Int32(x), FinishedColumn::Int32(y)) => y@ == x@,
            (NonGeoArrayBuilder::Boolean(x), FinishedColumn::Boolean(y)) => y@ == x@,
            (NonGeoArrayBuilder::Utf8(x), FinishedColumn::Utf8(y)) => y@ == x@,
            (NonGeoArrayBuilder::Date32(x), FinishedColumn::Date32(y)) => y@ == x@,
            (NonGeoArrayBuilder::TranslatedCode(x, _), FinishedColumn::Utf8(y)) => y@ == x@,
            _ => false,
        }
    }

    /// Converts the accumulator into its finished column; a
    /// translated-code accumulator finishes as a text column.
    pub fn finish(self) -> (r: FinishedColumn)
        ensures
            self.spec_finishes_to(r),
            r.col_len() == self.col_len(),
    {
        match self {
            NonGeoArrayBuilder::Float64(c) => FinishedColumn::Float64(c),
            NonGeoArrayBuilder::Float32(c) => FinishedColumn::Float32(c),
            NonGeoArrayBuilder::Int32(c) => FinishedColumn::Int32(c),
            NonGeoArrayBuilder::Boolean(c) => FinishedColumn::Boolean(c),
            NonGeoArrayBuilder::Utf8(c) => FinishedColumn::Utf8(c),
            NonGeoArrayBuilder::Date32(c) => FinishedColumn::Date32(c),
            NonGeoArrayBuilder::TranslatedCode(c, _) => FinishedColumn::Utf8(c),
        }
    }
}

impl FinishedColumn {
    /// The number of cells in the finished column.
    pub open spec fn col_len(self) -> nat {
        match self {
            FinishedColumn::Float64(c) => c@.len(),
            FinishedColumn::Float32(c) => c@.len(),
            FinishedColumn::Int32(c) => c@.len(),
            FinishedColumn::Boolean(c) => c@.len(),
            FinishedColumn::Utf8(c) => c@.len(),
            FinishedColumn::Date32(c) => c@.len(),
        }
    }

    /// Runtime form of [`Self::col_len`].
    pub fn len(&self) -> (r: usize)
        ensures
            r == self.col_len(),
    {
        match self {
            FinishedColumn::Float64(c) => c.len(),
            FinishedColumn::Float32(c) => c.len(),
            FinishedColumn::Int32(c) => c.len(),
            FinishedColumn::Boolean(c) => c.len(),
            FinishedColumn::Utf8(c) => c.len(),
            FinishedColumn::Date32(c) => c.len(),
        }
    }
}

} // verus!

verus! {

/// The live accumulators of one chunk: one per schema field, in schema
/// order, plus the geometry accumulator.
#[derive(Debug)]
pub struct ArrayBuilderWithGeo {
    pub builders: Vec<NonGeoArrayBuilder>,
    pub geometries: Vec<Geometry>,
}

/// One finished chunk: the finished attribute columns, in schema order,
/// and the geometry column, all of the same length.
#[derive(Debug)]
pub struct FinishedBatch {
    pub columns: Vec<FinishedColumn>,
    pub geometries: Vec<Geometry>,
}

impl ArrayBuilderWithGeo {
    /// Every accumulator holds exactly one cell per row appended so far.
    pub open spec fn wf(self) -> bool {
        forall|i: int|
            0 <= i < self.builders@.len() ==> (#[trigger] self.builders@[i]).col_len()
                == self.geometries@.len()
    }

    /// The number of rows appended so far.
    pub open spec fn row_count(self) -> nat {
        self.geometries@.len()
    }

    /// The row's values can be appended: one value per column, each of a
    /// kind its accumulator accepts.
    pub open spec fn spec_row_accepted(self, values: Seq<FieldValue>) -> bool {
        values.len() == self.builders@.len() && forall|i: int|
            0 <= i < values.len() ==> (#[trigger] self.builders@[i]).spec_accepts(values[i])
    }

    /// Runtime form of [`Self::spec_row_accepted`], for callers that must
    /// test before pushing; a mismatch means schema and row supply are out
    /// of sync, which is a programming error, not bad input.
    pub fn row_accepted(&self, values: &Vec<FieldValue>) -> (r: bool)
        ensures
            r == self.spec_row_accepted(values@),
    {
        if values.len() != self.builders.len() {
            return false;
        }
        let n = values.len();
        let mut i: usize = 0;
        while i < n
            invariant
                i <= n,
                n == values@.len(),
                n == self.builders@.len(),
                forall|k: int|
                    0 <= k < i ==> (#[trigger] self.builders@[k]).spec_accepts(values@[k]),
            decreases n - i,
        {
            if !self.builders[i].accepts(&values[i]) {
                return false;
            }
            i = i + 1;
        }
        true
    }

    /// Appends one row: the `i`-th value goes to the `i`-th accumulator,
    /// in schema order, and the geometry to the geometry accumulator.
    pub fn push_row(&mut self, values: Vec<FieldValue>, geometry: Geometry)
        requires
            old(self).spec_row_accepted(values@),
            old(self).wf(),
        ensures
            final(self).wf(),
            final(self).builders@.len() == old(self).builders@.len(),
            final(self).row_count() == old(self).row_count() + 1,
            final(self).geometries@ == old(self).geometries@.push(geometry),
            forall|i: int|
                0 <= i < values@.len() ==> NonGeoArrayBuilder::spec_pushed(
                    old(self).builders@[i],
                    #[trigger] final(self).builders@[i],
                    values@[i],
                ),
    {
        let ghost old_builders = self.builders@;
        let n = self.builders.len();
        let mut bs: Vec<NonGeoArrayBuilder> = Vec::new();
        core::mem::swap(&mut self.builders, &mut bs);
        let mut vals = values;
        let mut out: Vec<NonGeoArrayBuilder> = Vec::with_capacity(n);
        let mut i: usize = 0;
        while i < n
            invariant
                i <= n,
                n == old_builders.len(),
                bs@ =~= old_builders.skip(i as int),
                vals@ =~= values@.skip(i as int),
                out@.len() == i,
                values@.len() == n,
                forall|k: int|
                    0 <= k < n ==> (#[trigger] old_builders[k]).spec_accepts(values@[k]),
                forall|k: int|
                    0 <= k < i ==> NonGeoArrayBuilder::spec_pushed(
                        old_builders[k],
                        #[trigger] out@[k],
                        values@[k],
                    ),
                forall|k: int|
                    0 <= k < i ==> (#[trigger] out@[k]).col_len() == old_builders[k].col_len() + 1,
            decreases n - i,
        {
            let b = bs.remove(0);
            let v = vals.remove(0);
            proof {
                assert(b == old_builders[i as int]);
                assert(v == values@[i as int]);
                assert(bs@ =~= old_builders.skip(i + 1));
                assert(vals@ =~= values@.skip(i + 1));
            }
            let pushed = b.push(v);
            out.push(pushed);
            i = i + 1;
        }
        core::mem::swap(&mut self.builders, &mut out);
        self.geometries.push(geometry);
    }

    /// Finishes every accumulator into its column. Each finished column,
    /// the geometry column included, has exactly one entry per row
    /// appended: the batch length is the number of rows, never the
    /// chunk capacity.
    pub fn finish(self) -> (r: FinishedBatch)
        requires
            self.wf(),
        ensures
            r.columns@.len() == self.builders@.len(),
            r.geometries@ == self.geometries@,
            forall|i: int|
                0 <= i < self.builders@.len() ==> self.builders@[i].spec_finishes_to(
                    #[trigger] r.columns@[i],
                ),
            forall|i: int|
                0 <= i < r.columns@.len() ==> (#[trigger] r.columns@[i]).col_len()
                    == self.row_count(),
    {
        let ghost old_builders = self.builders@;
        let n = self.builders.len();
        let mut bs = self.builders;
        let mut out: Vec<FinishedColumn> = Vec::with_capacity(n);
        let mut i: usize = 0;
        while i < n
            invariant
                i <= n,
                n == old_builders.len(),
                bs@ =~= old_builders.skip(i as int),
                out@.len() == i,
                forall|k: int|
                    0 <= k < i ==> old_builders[k].spec_finishes_to(#[trigger] out@[k]),
                forall|k: int|
                    0 <= k < i ==> (#[trigger] out@[k]).col_len() == old_builders[k].col_len(),
            decreases n - i,
        {
            let b = bs.remove(0);
            proof {
                assert(b == old_builders[i as int]);
                assert(bs@ =~= old_builders.skip(i + 1));
            }
            out.push(b.finish());
            i = i + 1;
        }
        FinishedBatch { columns: out, geometries: self.geometries }
    }
}

impl FieldsWithGeo {
    /// Builds one fresh accumulator per schema field, its kind chosen once
    /// from the field's output type, with a translated-code accumulator
    /// wherever the field carries a code dictionary.
    pub fn create_builders(&self, capacity: usize) -> (r: ArrayBuilderWithGeo)
        ensures
            r.builders@.len() == self.fields@.len(),
            r.row_count() == 0,
            r.wf(),
            forall|i: int|
                0 <= i < self.fields@.len() ==> (#[trigger] r.builders@[i]).matches_field(
                    self.fields@[i],
                ),
    {
        let n = self.fields.len();
        let mut builders: Vec<NonGeoArrayBuilder> = Vec::with_capacity(n);
        let mut i: usize = 0;
        while i < n
            invariant
                i <= n,
                n == self.fields@.len(),
                builders@.len() == i,
                forall|k: int|
                    0 <= k < i ==> (#[trigger] builders@[k]).matches_field(self.fields@[k]),
                forall|k: int| 0 <= k < i ==> (#[trigger] builders@[k]).col_len() == 0,
            decreases n - i,
        {
            let f = &self.fields[i];
            let b = match &f.codelist {
                Some(cl) => NonGeoArrayBuilder::TranslatedCode(
                    Vec::with_capacity(capacity),
                    cl.duplicate(),
                ),
                None => match f.data_type {
                    OutputType::Float64 => NonGeoArrayBuilder::Float64(
                        Vec::with_capacity(capacity),
                    ),
                    OutputType::Float32 => NonGeoArrayBuilder::Float32(
                        Vec::with_capacity(capacity),
                    ),
                    OutputType::Int32 => NonGeoArrayBuilder::Int32(Vec::with_capacity(capacity)),
                    OutputType::Boolean => NonGeoArrayBuilder::Boolean(
                        Vec::with_capacity(capacity),
                    ),
                    OutputType::Utf8 => NonGeoArrayBuilder::Utf8(Vec::with_capacity(capacity)),
                    OutputType::Date32 => NonGeoArrayBuilder::Date32(Vec::with_capacity(capacity)),
                },
            };
            builders.push(b);
            i = i + 1;
        }
        ArrayBuilderWithGeo { builders, geometries: Vec::with_capacity(capacity) }
    }
}

} // verus!
