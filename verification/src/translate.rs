//! Dataset identity: recovering the dataset id and survey year from an
//! archive filename, and the options that drive translation.
use vstd::prelude::*;

use crate::error::Ksj2GpError;
use crate::strutil::{
    lemma_digits_val_bound, parse_digits, pow10, spec_all_digits, spec_digits_val,
    spec_starts_with, starts_with, str_eq,
};

verus! {

/// Options that drive column-name and code translation for one dataset.
pub struct TranslateOptions {
    pub translate_colnames: bool,
    pub translate_contents: bool,
    pub ignore_translation_errors: bool,
    pub ksj_id: String,
    pub year: u16,
    pub target_shp: String,
}

/// The two capture groups of the dataset-filename pattern: the raw dataset
/// id and the two-digit year, if the filename matches.
pub uninterp spec fn ksj_filename_capture(s: Seq<char>) -> Option<(Seq<char>, Seq<char>)>;

/// Extracts the raw dataset id and the two-digit year from a filename.
///
/// Relies on `regex::Regex::captures` with a fixed pattern: the capture
/// groups are a function of the filename alone, and the second group
/// matches `[0-9]{2}`, exactly two ASCII digits.
#[verifier::external_body]
fn capture_ksj_id(filename: &str) -> (r: Option<(String, String)>)
    ensures
        match r {
            Some(pair) => ksj_filename_capture(filename@) == Some((pair.0@, pair.1@)) && pair.1@.len()
                == 2 && spec_all_digits(pair.1@),
            None => ksj_filename_capture(filename@) is None,
        },
{
    let re = regex::Regex::new(
        r"([A-Z][0-9]{2}[a-z]?[0-9]?(?:-[a-z12])?(?:-[cu])?|m1000|m500)-([0-9]{2})",
    );
    let re = match re {
        Ok(re) => re,
        Err(_) => return None,
    };
    let c = re.captures(filename)?;
    let (_, [id_raw, year_str]) = c.extract();
    Some((id_raw.to_string(), year_str.to_string()))
}

/// A two-digit year at or above 40 lies in the 1900s, below in the 2000s.
pub open spec fn spec_full_year(v: int) -> int {
    if v >= 40 {
        1900 + v
    } else {
        2000 + v
    }
}

/// The canonical form of a raw dataset id captured from a filename.
pub open spec fn spec_remap_ksj_id(id: Seq<char>) -> Seq<char> {
    if id == "m1000"@ {
        "mesh1000"@
    } else if id == "m500"@ {
        "mesh500"@
    } else if id == "A18s-a"@ {
        "A18s_a"@
    } else if id == "A19s-a"@ {
        "A19s"@
    } else if id == "G04-a"@ {
        "G04a"@
    } else if id == "G04-c"@ {
        "G04c"@
    } else if id == "G04-d"@ {
        "G04d"@
    } else {
        id
    }
}

/// The dataset id and year a filename names: the mesh families are known
/// by prefix, every other family by the filename pattern.
pub open spec fn spec_extract_ksj_id(s: Seq<char>) -> Option<(Seq<char>, int)> {
    if spec_starts_with(s, "1km_mesh_suikei_2018"@) {
        Some(("mesh1000h30"@, 2018))
    } else if spec_starts_with(s, "1km_mesh_2024"@) {
        Some(("mesh1000r6"@, 2024))
    } else if spec_starts_with(s, "500m_mesh_suikei_2018"@) {
        Some(("mesh500h30"@, 2018))
    } else if spec_starts_with(s, "500m_mesh_2024"@) {
        Some(("mesh500r6"@, 2018))
    } else if spec_starts_with(s, "250m_mesh_2024"@) {
        Some(("mesh250r6"@, 2018))
    } else {
        match ksj_filename_capture(s) {
            Some(pair) => Some(
                (spec_remap_ksj_id(pair.0), spec_full_year(spec_digits_val(pair.1))),
            ),
            None => None,
        }
    }
}

/// Recovers the dataset id and the four-digit survey year from the
/// archive's filename.
pub fn extract_ksj_id(filename: &str) -> (r: Result<(String, u16), Ksj2GpError>)
    ensures
        match r {
            Ok(pair) => spec_extract_ksj_id(filename@) == Some((pair.0@, pair.1 as int)),
            Err(_) => spec_extract_ksj_id(filename@) is None,
        },
{
    if starts_with(filename, "1km_mesh_suikei_2018") {
        return Ok((String::from_str("mesh1000h30"), 2018));
    }
    if starts_with(filename, "1km_mesh_2024") {
        return Ok((String::from_str("mesh1000r6"), 2024));
    }
    if starts_with(filename, "500m_mesh_suikei_2018") {
        return Ok((String::from_str("mesh500h30"), 2018));
    }
    if starts_with(filename, "500m_mesh_2024") {
        return Ok((String::from_str("mesh500r6"), 2018));
    }
    if starts_with(filename, "250m_mesh_2024") {
        return Ok((String::from_str("mesh250r6"), 2018));
    }

    let (id_raw, year_str) = match capture_ksj_id(filename) {
        Some(pair) => pair,
        None => {
            let mut msg = String::from_str("Failed to detect KSJ id from filename: ");
            msg.append(filename);
            return Err(Ksj2GpError::new(msg));
        },
    };

    let year_2digits: u32 = match parse_digits(year_str.as_str()) {
        Some(v) => v,
        None => {
            proof {
                assert(false);
            }
            return Err(Ksj2GpError::new(String::from_str("Failed to parse year")));
        },
    };
    proof {
        lemma_digits_val_bound(year_str@);
        assert(pow10(2) == 100) by {
            reveal_with_fuel(pow10, 3);
        }
    }
    let year: u16 = if year_2digits >= 40 {
        1900 + (year_2digits as u16)
    } else {
        2000 + (year_2digits as u16)
    };

    let id: String = if str_eq(id_raw.as_str(), "m1000") {
        String::from_str("mesh1000")
    } else if str_eq(id_raw.as_str(), "m500") {
        String::from_str("mesh500")
    } else if str_eq(id_raw.as_str(), "A18s-a") {
        String::from_str("A18s_a")
    } else if str_eq(id_raw.as_str(), "A19s-a") {
        String::from_str("A19s")
    } else if str_eq(id_raw.as_str(), "G04-a") {
        String::from_str("G04a")
    } else if str_eq(id_raw.as_str(), "G04-c") {
        String::from_str("G04c")
    } else if str_eq(id_raw.as_str(), "G04-d") {
        String::from_str("G04d")
    } else {
        id_raw
    };

    Ok((id, year))
}

} // verus!
