//! Coordinate-reference-system detection: classifying the source CRS of a
//! dataset from its projection text file or its metadata XML.
use vstd::prelude::*;

use crate::error::Ksj2GpError;
use crate::strutil::{contains_str, spec_contains, str_eq};

verus! {

/// The three source coordinate reference systems this crate supports.
#[derive(Debug, Clone, Copy, PartialEq, Eq, Structural)]
pub enum JapanCrs {
    Tokyo,
    JGD2000,
    JGD2011,
}

impl JapanCrs {
    /// The PROJJSON description of this CRS.
    pub open spec fn spec_projjson(self) -> Seq<char> {
        match self {
            JapanCrs::Tokyo => EPSG4301_PROJJSON@,
            JapanCrs::JGD2000 => EPSG4612_PROJJSON@,
            JapanCrs::JGD2011 => EPSG6668_PROJJSON@,
        }
    }

    pub fn to_projjson(&self) -> (r: &'static str)
        ensures
            r@ == self.spec_projjson(),
    {
        match self {
            JapanCrs::Tokyo => EPSG4301_PROJJSON,
            JapanCrs::JGD2000 => EPSG4612_PROJJSON,
            JapanCrs::JGD2011 => EPSG6668_PROJJSON,
        }
    }

    /// The EPSG code of this CRS.
    pub open spec fn spec_epsg_code(self) -> int {
        match self {
            JapanCrs::Tokyo => 4301,
            JapanCrs::JGD2000 => 4612,
            JapanCrs::JGD2011 => 6668,
        }
    }

    pub fn epsg_code(&self) -> (r: u32)
        ensures
            r as int == self.spec_epsg_code(),
    {
        match self {
            JapanCrs::Tokyo => 4301,
            JapanCrs::JGD2000 => 4612,
            JapanCrs::JGD2011 => 6668,
        }
    }

    /// The short name of this CRS, as registered in spatial databases.
    pub open spec fn spec_name(self) -> Seq<char> {
        match self {
            JapanCrs::Tokyo => "Tokyo"@,
            JapanCrs::JGD2000 => "JGD2000"@,
            JapanCrs::JGD2011 => "JGD2011"@,
        }
    }

    pub fn name(&self) -> (r: &'static str)
        ensures
            r@ == self.spec_name(),
    {
        match self {
            JapanCrs::Tokyo => "Tokyo",
            JapanCrs::JGD2000 => "JGD2000",
            JapanCrs::JGD2011 => "JGD2011",
        }
    }
}

/// What CRS a projection text declares: the first matching marker wins.
pub open spec fn spec_crs_of_esri_wkt(wkt: Seq<char>) -> Option<JapanCrs> {
    if spec_contains(wkt, "GCS_JGD_2011"@) {
        Some(JapanCrs::JGD2011)
    } else if spec_contains(wkt, "GCS_JGD_2000"@) {
        Some(JapanCrs::JGD2000)
    } else if spec_contains(wkt, "GCS_Tokyo"@) {
        Some(JapanCrs::Tokyo)
    } else {
        None
    }
}

/// Classifies the CRS named by an ESRI-WKT projection text, by the
/// geographic-coordinate-system markers it contains.
pub fn guess_crs_from_esri_wkt(wkt: &str) -> (r: Result<JapanCrs, Ksj2GpError>)
    ensures
        match r {
            Ok(crs) => spec_crs_of_esri_wkt(wkt@) == Some(crs),
            Err(_) => spec_crs_of_esri_wkt(wkt@) is None,
        },
{
    if contains_str(wkt, "GCS_JGD_2011") {
        return Ok(JapanCrs::JGD2011);
    }
    if contains_str(wkt, "GCS_JGD_2000") {
        return Ok(JapanCrs::JGD2000);
    }
    if contains_str(wkt, "GCS_Tokyo") {
        return Ok(JapanCrs::Tokyo);
    }
    let mut msg = String::from_str("Failed to identify CRS from ESRI WKT in the .prj file: ");
    msg.append(wkt);
    Err(Ksj2GpError::new(msg))
}

/// The datum / coordinate-system code pair in a metadata XML's
/// `referenceSystemIdentifier` block, if the block is present.
pub uninterp spec fn meta_xml_reference_code(s: Seq<char>) -> Option<(Seq<char>, Seq<char>)>;

/// Extracts the datum / coordinate-system code pair from a metadata XML.
///
/// Relies on `regex::Regex::captures` with a fixed pattern: the two capture
/// groups are a function of the text alone, and the second group never holds
/// a `/`.
#[verifier::external_body]
fn capture_meta_xml_code(content: &str) -> (r: Option<(String, String)>)
    ensures
        match r {
            Some(pair) => meta_xml_reference_code(content@) == Some((pair.0@, pair.1@)),
            None => meta_xml_reference_code(content@) is None,
        },
{
    let re = regex::Regex::new(
        r"(?ms)<referenceSystemIdentifier>.*<code>[[:space:]]*([^/]+) / ([^/]+)[[:space:]]*</code>.*</referenceSystemIdentifier>",
    );
    let re = match re {
        Ok(re) => re,
        Err(_) => return None,
    };
    let c = re.captures(content)?;
    let (_, [datum, cs]) = c.extract();
    Some((datum.to_string(), cs.to_string()))
}

/// What CRS a datum / coordinate-system code pair names.
pub open spec fn spec_classify_reference_system(datum: Seq<char>, cs: Seq<char>) -> Option<
    JapanCrs,
> {
    if cs == "(B, L)"@ || cs == "(B, L, h)"@ {
        if datum == "JGD2011"@ {
            Some(JapanCrs::JGD2011)
        } else if datum == "JGD2000"@ {
            Some(JapanCrs::JGD2000)
        } else if datum == "TD"@ {
            Some(JapanCrs::Tokyo)
        } else {
            None
        }
    } else {
        None
    }
}

/// Maps a datum / coordinate-system code pair to the CRS it names.
pub fn classify_reference_system(datum: &str, cs: &str) -> (r: Result<JapanCrs, Ksj2GpError>)
    ensures
        match r {
            Ok(crs) => spec_classify_reference_system(datum@, cs@) == Some(crs),
            Err(_) => spec_classify_reference_system(datum@, cs@) is None,
        },
{
    if str_eq(cs, "(B, L)") || str_eq(cs, "(B, L, h)") {
        if str_eq(datum, "JGD2011") {
            return Ok(JapanCrs::JGD2011);
        }
        if str_eq(datum, "JGD2000") {
            return Ok(JapanCrs::JGD2000);
        }
        if str_eq(datum, "TD") {
            return Ok(JapanCrs::Tokyo);
        }
    }
    let mut msg = String::from_str("Unexpected crs: ");
    msg.append(datum);
    msg.append(", ");
    msg.append(cs);
    Err(Ksj2GpError::new(msg))
}

/// Classifies the CRS declared by a metadata XML's reference-system block.
pub fn guess_crs_from_meta_xml(meta_xml_content: &str) -> (r: Result<JapanCrs, Ksj2GpError>)
    ensures
        match meta_xml_reference_code(meta_xml_content@) {
            Some(pair) => match r {
                Ok(crs) => spec_classify_reference_system(pair.0, pair.1) == Some(crs),
                Err(_) => spec_classify_reference_system(pair.0, pair.1) is None,
            },
            None => r is Err,
        },
{
    match capture_meta_xml_code(meta_xml_content) {
        Some(pair) => classify_reference_system(pair.0.as_str(), pair.1.as_str()),
        None => Err(Ksj2GpError::new(String::from_str("Failed to identify CRS from Meta XML"))),
    }
}

} // verus!

verus! {

pub const EPSG4301_PROJJSON: &'static str =
    r#"{"$schema":"https://proj.org/schemas/v0.7/projjson.schema.json","type":"GeographicCRS","name":"Tokyo","datum":{"type":"GeodeticReferenceFrame","name":"Tokyo","ellipsoid":{"name":"Bessel 1841","semi_major_axis":6377397.155,"inverse_flattening":299.1528128}},"coordinate_system":{"subtype":"ellipsoidal","axis":[{"name":"Geodetic latitude","abbreviation":"Lat","direction":"north","unit":"degree"},{"name":"Geodetic longitude","abbreviation":"Lon","direction":"east","unit":"degree"}]},"scope":"Geodesy, topographic mapping and cadastre.","area":"Japan - onshore excluding northern prefectures of Honshu.","id":{"authority":"EPSG","code":4301}}"#;

pub const EPSG4612_PROJJSON: &'static str =
    r#"{"$schema":"https://proj.org/schemas/v0.7/projjson.schema.json","type":"GeographicCRS","name":"JGD2000","datum":{"type":"GeodeticReferenceFrame","name":"Japanese Geodetic Datum 2000","ellipsoid":{"name":"GRS 1980","semi_major_axis":6378137,"inverse_flattening":298.257222101}},"coordinate_system":{"subtype":"ellipsoidal","axis":[{"name":"Geodetic latitude","abbreviation":"Lat","direction":"north","unit":"degree"},{"name":"Geodetic longitude","abbreviation":"Lon","direction":"east","unit":"degree"}]},"scope":"Geodesy, topographic mapping and cadastre.","area":"Japan - onshore and offshore.","id":{"authority":"EPSG","code":4612}}"#;

pub const EPSG6668_PROJJSON: &'static str =
    r#"{"$schema":"https://proj.org/schemas/v0.7/projjson.schema.json","type":"GeographicCRS","name":"JGD2011","datum":{"type":"GeodeticReferenceFrame","name":"Japanese Geodetic Datum 2011","ellipsoid":{"name":"GRS 1980","semi_major_axis":6378137,"inverse_flattening":298.257222101}},"coordinate_system":{"subtype":"ellipsoidal","axis":[{"name":"Geodetic latitude","abbreviation":"Lat","direction":"north","unit":"degree"},{"name":"Geodetic longitude","abbreviation":"Lon","direction":"east","unit":"degree"}]},"scope":"Geodesy, topographic mapping and cadastre.","area":"Japan - onshore and offshore.","id":{"authority":"EPSG","code":6668}}"#;

} // verus!

verus! {

/// The CRS a metadata XML's Shift-JIS bytes declare: nothing when the
/// bytes are malformed Shift-JIS, when no reference-system block is
/// present, or when the code pair is unknown.
pub open spec fn spec_crs_from_meta_bytes(bytes: Seq<u8>) -> Option<JapanCrs> {
    if crate::encoding::sjis_decode(bytes).1 {
        None
    } else {
        match meta_xml_reference_code(crate::encoding::sjis_decode(bytes).0) {
            Some(pair) => spec_classify_reference_system(pair.0, pair.1),
            None => None,
        }
    }
}

/// The CRS that the two archive sources resolve to, in the fixed order:
/// the projection text decides when it classifies; otherwise the metadata
/// XML decides; with neither, the CRS is undetermined.
pub open spec fn spec_crs_from_sources(prj: Option<Seq<char>>, meta_sjis: Option<Seq<u8>>) -> Option<
    JapanCrs,
> {
    let from_meta = match meta_sjis {
        Some(bytes) => spec_crs_from_meta_bytes(bytes),
        None => None,
    };
    match prj {
        Some(wkt) => match spec_crs_of_esri_wkt(wkt) {
            Some(crs) => Some(crs),
            None => from_meta,
        },
        None => from_meta,
    }
}

/// Resolves the source CRS from the contents of the two archive entries
/// that can declare it: the projection text is consulted first and wins
/// when it classifies; the Shift-JIS-encoded metadata XML is consulted
/// otherwise; when neither decides, the CRS is undetermined and an error
/// — never a silent default.
pub fn crs_from_sources(prj: Option<&str>, meta_sjis: Option<&Vec<u8>>) -> (r: Result<
    JapanCrs,
    Ksj2GpError,
>)
    ensures
        match r {
            Ok(crs) => spec_crs_from_sources(
                match prj {
                    Some(s) => Some(s@),
                    None => None,
                },
                match meta_sjis {
                    Some(b) => Some(b@),
                    None => None,
                },
            ) == Some(crs),
            Err(_) => spec_crs_from_sources(
                match prj {
                    Some(s) => Some(s@),
                    None => None,
                },
                match meta_sjis {
                    Some(b) => Some(b@),
                    None => None,
                },
            ) is None,
        },
{
    if let Some(wkt) = prj {
        if let Ok(crs) = guess_crs_from_esri_wkt(wkt) {
            return Ok(crs);
        }
    }
    match meta_sjis {
        Some(bytes) => {
            let (content, had_errors) = crate::encoding::sjis_decode_bytes(bytes);
            if had_errors {
                return Err(
                    Ksj2GpError::new(
                        String::from_str("Failed to decode KS-META XML file from CP932"),
                    ),
                );
            }
            guess_crs_from_meta_xml(content.as_str())
        },
        None => Err(
            Ksj2GpError::new(String::from_str("Failed to detect CRS from .prj or KS-META-")),
        ),
    }
}

} // verus!
