//! Column-name translation: mapping a column id to its human-readable
//! name, with the positional and year-dependent rules of the special
//! dataset families.
use vstd::prelude::*;

use crate::error::Ksj2GpError;
use crate::strutil::{
    assoc_lookup, ends_with, lemma_digits_val_bound, parse_digits, pow10, spec_all_digits,
    spec_assoc, spec_digits_val, spec_ends_with, spec_u32_string, str_eq, u32_to_string,
};
use crate::tables::TranslationTables;
use crate::translate::TranslateOptions;

verus! {

/// The column index encoded in characters 4 to 6 of a column id such as
/// `A42_005`.
pub open spec fn spec_parse_idx(code: Seq<char>) -> Option<int> {
    if code.len() >= 7 && spec_all_digits(code.subrange(4, 7)) {
        Some(spec_digits_val(code.subrange(4, 7)))
    } else {
        None
    }
}

/// Parses the three-digit column index of a column id.
pub fn parse_idx(code: &str) -> (r: Option<u32>)
    ensures
        match r {
            Some(v) => spec_parse_idx(code@) == Some(v as int) && v < 1000,
            None => spec_parse_idx(code@) is None,
        },
{
    let n = code.unicode_len();
    if n < 7 {
        return None;
    }
    let sub = code.substring_char(4, 7);
    match parse_digits(sub) {
        Some(v) => {
            proof {
                lemma_digits_val_bound(sub@);
                assert(pow10(3) == 1000) by {
                    reveal_with_fuel(pow10, 4);
                }
            }
            Some(v)
        },
        None => None,
    }
}

/// The yearly survey-price column name.
pub open spec fn spec_survey_price_name(y: int) -> Seq<char> {
    "調査価格_"@ + spec_u32_string(y) + "年"@
}

/// The yearly attribute-moved column name.
pub open spec fn spec_attr_moved_name(y: int) -> Seq<char> {
    "属性移動_"@ + spec_u32_string(y) + "年"@
}

fn survey_price_name(y: u32) -> (r: String)
    ensures
        r@ == spec_survey_price_name(y as int),
{
    let mut s = String::from_str("調査価格_");
    let digits = u32_to_string(y);
    s.append(digits.as_str());
    s.append("年");
    s
}

fn attr_moved_name(y: u32) -> (r: String)
    ensures
        r@ == spec_attr_moved_name(y as int),
{
    let mut s = String::from_str("属性移動_");
    let digits = u32_to_string(y);
    s.append(digits.as_str());
    s.append("年");
    s
}

/// The name of a trailing posted-land-price column: indices up to the
/// survey year name a survey price, later ones an attribute move.
pub open spec fn spec_l01_trailing_name(idx: int, year: int, base: int) -> Seq<char> {
    let y = idx - base + 1983;
    if y <= year {
        spec_survey_price_name(y)
    } else {
        spec_attr_moved_name(y - (year - 1983))
    }
}

/// The translated name of a posted-land-price column: the leading columns
/// are named positionally by era, the trailing ones by year arithmetic.
pub open spec fn spec_translate_l01(
    t: TranslationTables,
    code: Seq<char>,
    year: int,
) -> Option<Seq<char>> {
    match spec_parse_idx(code) {
        None => None,
        Some(idx) => if idx == 0 {
            None
        } else if year <= 2013 {
            if idx - 1 < t.l01_1983@.len() {
                Some(t.l01_1983@[idx - 1]@)
            } else {
                None
            }
        } else if year <= 2017 {
            if idx <= 47 {
                if idx - 1 < t.l01_2014@.len() {
                    Some(t.l01_2014@[idx - 1]@)
                } else {
                    None
                }
            } else {
                Some(spec_l01_trailing_name(idx, year, 48))
            }
        } else if year <= 2021 {
            if idx <= 55 {
                if idx - 1 < t.l01_2018@.len() {
                    Some(t.l01_2018@[idx - 1]@)
                } else {
                    None
                }
            } else {
                Some(spec_l01_trailing_name(idx, year, 56))
            }
        } else if year <= 2023 {
            if idx <= 60 {
                if idx - 1 < t.l01_2022@.len() {
                    Some(t.l01_2022@[idx - 1]@)
                } else {
                    None
                }
            } else {
                Some(spec_l01_trailing_name(idx, year, 61))
            }
        } else {
            if idx <= 61 {
                if idx - 1 < t.l01_2024@.len() {
                    Some(t.l01_2024@[idx - 1]@)
                } else {
                    None
                }
            } else {
                Some(spec_l01_trailing_name(idx, year, 62))
            }
        },
    }
}

fn l01_positional<'a>(arr: &'a Vec<String>, idx: u32) -> (r: Option<&'a String>)
    requires
        1 <= idx < 1000,
    ensures
        match r {
            Some(v) => (idx - 1) < arr@.len() && v@ == arr@[idx as int - 1]@,
            None => (idx - 1) >= arr@.len(),
        },
{
    let i = (idx - 1) as usize;
    if i < arr.len() {
        Some(&arr[i])
    } else {
        None
    }
}

fn l01_trailing(idx: u32, year: u16, base: u32) -> (r: String)
    requires
        idx >= base,
        base >= 48,
        idx < 1000,
        year >= 2014,
    ensures
        r@ == spec_l01_trailing_name(idx as int, year as int, base as int),
{
    let y: u32 = idx - base + 1983;
    let yv: u32 = year as u32;
    if y <= yv {
        survey_price_name(y)
    } else {
        attr_moved_name(y - (yv - 1983))
    }
}

/// Translates a posted-land-price column id for a given survey year.
pub fn translate_colnames_l01(t: &TranslationTables, code: &str, year: u16) -> (r: Result<
    String,
    Ksj2GpError,
>)
    ensures
        match r {
            Ok(s) => spec_translate_l01(*t, code@, year as int) == Some(s@),
            Err(_) => spec_translate_l01(*t, code@, year as int) is None,
        },
{
    let idx = match parse_idx(code) {
        Some(idx) => idx,
        None => {
            let mut msg = String::from_str("Failed to parse ");
            msg.append(code);
            msg.append(" as int");
            return Err(Ksj2GpError::new(msg));
        },
    };
    if idx == 0 {
        return Err(Ksj2GpError::new(String::from_str("Column index 0 is never translated")));
    }
    let found: Option<&String> = if year <= 2013 {
        l01_positional(&t.l01_1983, idx)
    } else if year <= 2017 {
        if idx <= 47 {
            l01_positional(&t.l01_2014, idx)
        } else {
            return Ok(l01_trailing(idx, year, 48));
        }
    } else if year <= 2021 {
        if idx <= 55 {
            l01_positional(&t.l01_2018, idx)
        } else {
            return Ok(l01_trailing(idx, year, 56));
        }
    } else if year <= 2023 {
        if idx <= 60 {
            l01_positional(&t.l01_2022, idx)
        } else {
            return Ok(l01_trailing(idx, year, 61));
        }
    } else {
        if idx <= 61 {
            l01_positional(&t.l01_2024, idx)
        } else {
            return Ok(l01_trailing(idx, year, 62));
        }
    };
    match found {
        Some(name) => Ok(name.clone()),
        None => {
            let mut msg = String::from_str("No translated name for column: ");
            msg.append(code);
            Err(Ksj2GpError::new(msg))
        },
    }
}

/// The translated name of a historic-landscape column: positional, with
/// the special shapefile taking its own list.
pub open spec fn spec_translate_a42(
    t: TranslationTables,
    code: Seq<char>,
    target_shp: Seq<char>,
) -> Option<Seq<char>> {
    match spec_parse_idx(code) {
        None => None,
        Some(idx) => if spec_ends_with(
            target_shp,
            "Spacial_Preservation_Area_of_Historic_Landscape.shp"@,
        ) {
            if idx < t.a42_special@.len() {
                Some(t.a42_special@[idx]@)
            } else {
                None
            }
        } else if spec_ends_with(target_shp, "Preservation_Area_of_Historic_Landscape.shp"@) {
            if idx < t.a42_normal@.len() {
                Some(t.a42_normal@[idx]@)
            } else {
                None
            }
        } else {
            None
        },
    }
}

/// Translates a historic-landscape column id for a given target shapefile.
pub fn translate_colnames_a42(t: &TranslationTables, code: &str, target_shp: &str) -> (r: Result<
    String,
    Ksj2GpError,
>)
    ensures
        match r {
            Ok(s) => spec_translate_a42(*t, code@, target_shp@) == Some(s@),
            Err(_) => spec_translate_a42(*t, code@, target_shp@) is None,
        },
{
    let idx = match parse_idx(code) {
        Some(idx) => idx,
        None => {
            let mut msg = String::from_str("Failed to parse ");
            msg.append(code);
            msg.append(" as int");
            return Err(Ksj2GpError::new(msg));
        },
    };
    let i = idx as usize;
    if ends_with(target_shp, "Spacial_Preservation_Area_of_Historic_Landscape.shp") {
        if i < t.a42_special.len() {
            return Ok(t.a42_special[i].clone());
        }
    } else if ends_with(target_shp, "Preservation_Area_of_Historic_Landscape.shp") {
        if i < t.a42_normal.len() {
            return Ok(t.a42_normal[i].clone());
        }
    } else {
        let mut msg = String::from_str("Unknown shapefile: ");
        msg.append(target_shp);
        return Err(Ksj2GpError::new(msg));
    }
    let mut msg = String::from_str("No translated name for column: ");
    msg.append(code);
    Err(Ksj2GpError::new(msg))
}

/// The translated name of a column id under the given options: `None`
/// stands for a translation failure.
pub open spec fn spec_translate_colnames(
    t: TranslationTables,
    col_id: Seq<char>,
    options: TranslateOptions,
) -> Option<Seq<char>> {
    if !options.translate_colnames {
        Some(col_id)
    } else if options.ksj_id@ == "A42"@ {
        spec_translate_a42(t, col_id, options.target_shp@)
    } else if options.ksj_id@ == "L01"@ {
        spec_translate_l01(t, col_id, options.year as int)
    } else if options.ksj_id@ == "L02"@ {
        None
    } else {
        match spec_assoc(t.colnames@, col_id) {
            Some(name) => Some(name@),
            None => if options.ignore_translation_errors {
                Some(col_id)
            } else {
                None
            },
        }
    }
}

/// Translates a column id to its output column name. Datasets with
/// positional or year-dependent columns take their own rules; otherwise
/// the id is looked up in the dictionary, and an unknown id is an error
/// unless errors are ignored, in which case the id passes through.
pub fn translate_colnames(t: &TranslationTables, col_id: &str, options: &TranslateOptions) -> (r:
    Result<String, Ksj2GpError>)
    ensures
        match r {
            Ok(s) => spec_translate_colnames(*t, col_id@, *options) == Some(s@),
            Err(_) => spec_translate_colnames(*t, col_id@, *options) is None,
        },
{
    if !options.translate_colnames {
        return Ok(col_id.to_owned());
    }
    if str_eq(options.ksj_id.as_str(), "A42") {
        return translate_colnames_a42(t, col_id, options.target_shp.as_str());
    }
    if str_eq(options.ksj_id.as_str(), "L01") {
        return translate_colnames_l01(t, col_id, options.year);
    }
    if str_eq(options.ksj_id.as_str(), "L02") {
        return Err(
            Ksj2GpError::new(
                String::from_str("Column-name translation is not available for this dataset"),
            ),
        );
    }
    match assoc_lookup(&t.colnames, col_id) {
        Some(name) => Ok(name.clone()),
        None => {
            if options.ignore_translation_errors {
                Ok(col_id.to_owned())
            } else {
                let mut msg = String::from_str("Unknown column name translation: ");
                msg.append(col_id);
                Err(Ksj2GpError::new(msg))
            }
        },
    }
}

} // verus!
