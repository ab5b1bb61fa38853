//! Code-dictionary selection: which code dictionary, if any, applies to a
//! column, taking the dataset year and the target shapefile name into
//! account for the families that need them.
use vstd::prelude::*;

use crate::strutil::{contains_str, ends_with, spec_assoc, spec_contains, spec_ends_with, str_eq};
use crate::tables::{Codelist, TranslationTables};

verus! {

/// The code dictionary that applies to a column, if any. Most columns are
/// keyed by their id; a few families pick a dictionary by the target
/// shapefile's name or by the survey year.
pub open spec fn spec_get_codelist(
    t: TranslationTables,
    col_id: Seq<char>,
    year: int,
    target_shp: Seq<char>,
) -> Option<Codelist> {
    if col_id == "A03_006"@ {
        if spec_contains(target_shp, "KINKI"@) {
            spec_assoc(t.codelists@, "A03SectionTypeCdKinki"@)
        } else if spec_contains(target_shp, "CHUBU"@) {
            spec_assoc(t.codelists@, "A03SectionTypeCdCyubu"@)
        } else if spec_contains(target_shp, "SYUTO"@) {
            spec_assoc(t.codelists@, "A03SectionTypeCdSyuto"@)
        } else {
            spec_assoc(t.codelists@, col_id)
        }
    } else if col_id == "A42_005"@ {
        if spec_ends_with(target_shp, "Spacial_Preservation_Area_of_Historic_Landscape.shp"@) {
            spec_assoc(t.codelists@, "A42HistoricalDistrictType"@)
        } else {
            spec_assoc(t.codelists@, col_id)
        }
    } else if col_id == "YoutoCode"@ {
        if spec_contains(target_shp, "youto"@) {
            spec_assoc(t.codelists@, "A55NormalYoutoCode"@)
        } else if spec_contains(target_shp, "tkbt"@) {
            spec_assoc(t.codelists@, "A55SpecialYoutoCode"@)
        } else {
            spec_assoc(t.codelists@, col_id)
        }
    } else if (col_id == "L01_001"@ || col_id == "L01_003"@) && year <= 2023 {
        spec_assoc(t.codelists@, "IndexNumL01"@)
    } else if (col_id == "L01_002"@ || col_id == "L01_005"@) && year >= 2024 {
        spec_assoc(t.codelists@, "IndexNumL01"@)
    } else if col_id == "L01_007"@ && year <= 2019 {
        spec_assoc(t.codelists@, "SelectLandStatusL01V1"@)
    } else if col_id == "L01_007"@ && 2020 <= year <= 2021 {
        spec_assoc(t.codelists@, "SelectLandStatusL01V2"@)
    } else if col_id == "L01_008"@ && 2022 <= year <= 2023 {
        spec_assoc(t.codelists@, "SelectLandStatusL01V2"@)
    } else if col_id == "L01_010"@ && year >= 2024 {
        spec_assoc(t.codelists@, "SelectLandStatusL01V2"@)
    } else if col_id == "土地利用種"@ {
        if year == 1976 {
            spec_assoc(t.codelists@, "LandUseCd77"@)
        } else if year == 1987 {
            spec_assoc(t.codelists@, "LandUseCd88"@)
        } else if year == 1991 || year == 1997 || year == 2006 {
            spec_assoc(t.codelists@, "LandUseCdYY"@)
        } else if year >= 2009 {
            spec_assoc(t.codelists@, "LandUseCd09"@)
        } else {
            None
        }
    } else if col_id == "L03b_c_002"@ {
        None
    } else {
        spec_assoc(t.codelists@, col_id)
    }
}

/// Picks the code dictionary that applies to a column, if any.
pub fn get_codelist_map<'a>(
    t: &'a TranslationTables,
    col_id: &str,
    year: u16,
    target_shp: &str,
) -> (r: Option<&'a Codelist>)
    ensures
        match r {
            Some(cl) => spec_get_codelist(*t, col_id@, year as int, target_shp@) == Some(*cl),
            None => spec_get_codelist(*t, col_id@, year as int, target_shp@) is None,
        },
{
    if str_eq(col_id, "A03_006") {
        if contains_str(target_shp, "KINKI") {
            return t.codelist("A03SectionTypeCdKinki");
        }
        if contains_str(target_shp, "CHUBU") {
            return t.codelist("A03SectionTypeCdCyubu");
        }
        if contains_str(target_shp, "SYUTO") {
            return t.codelist("A03SectionTypeCdSyuto");
        }
        return t.codelist(col_id);
    }
    if str_eq(col_id, "A42_005") {
        if ends_with(target_shp, "Spacial_Preservation_Area_of_Historic_Landscape.shp") {
            return t.codelist("A42HistoricalDistrictType");
        }
        return t.codelist(col_id);
    }
    if str_eq(col_id, "YoutoCode") {
        if contains_str(target_shp, "youto") {
            return t.codelist("A55NormalYoutoCode");
        }
        if contains_str(target_shp, "tkbt") {
            return t.codelist("A55SpecialYoutoCode");
        }
        return t.codelist(col_id);
    }
    if (str_eq(col_id, "L01_001") || str_eq(col_id, "L01_003")) && year <= 2023 {
        return t.codelist("IndexNumL01");
    }
    if (str_eq(col_id, "L01_002") || str_eq(col_id, "L01_005")) && year >= 2024 {
        return t.codelist("IndexNumL01");
    }
    if str_eq(col_id, "L01_007") && year <= 2019 {
        return t.codelist("SelectLandStatusL01V1");
    }
    if str_eq(col_id, "L01_007") && 2020 <= year && year <= 2021 {
        return t.codelist("SelectLandStatusL01V2");
    }
    if str_eq(col_id, "L01_008") && 2022 <= year && year <= 2023 {
        return t.codelist("SelectLandStatusL01V2");
    }
    if str_eq(col_id, "L01_010") && year >= 2024 {
        return t.codelist("SelectLandStatusL01V2");
    }
    if str_eq(col_id, "土地利用種") {
        if year == 1976 {
            return t.codelist("LandUseCd77");
        }
        if year == 1987 {
            return t.codelist("LandUseCd88");
        }
        if year == 1991 || year == 1997 || year == 2006 {
            return t.codelist("LandUseCdYY");
        }
        if year >= 2009 {
            return t.codelist("LandUseCd09");
        }
        return None;
    }
    if str_eq(col_id, "L03b_c_002") {
        return None;
    }
    t.codelist(col_id)
}

} // verus!
