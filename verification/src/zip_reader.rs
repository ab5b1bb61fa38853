//! The seekable-extraction shim: locating the shapefile triplet and its
//! companion entries inside a ZIP archive, copying entries into
//! caller-supplied seekable stores, and driving CRS and encoding
//! detection from the archive's contents.
use vstd::prelude::*;

use std::io::{Read, Seek};

use crate::crs::{JapanCrs, crs_from_sources};
use crate::encoding::{
    TextEncoding, decode_cp437cp932_to_utf8, encoding_from_header, spec_cp437_bytes, sjis_decode,
};
use crate::error::Ksj2GpError;
use crate::strutil::{ends_with, rindex_of, spec_ends_with, spec_starts_with, starts_with, str_eq};

verus! {

#[verifier::external_type_specification]
#[verifier::external_body]
#[verifier::reject_recursive_types(R)]
pub struct ExZipArchive<R>(zip::ZipArchive<R>);

/// Opens a ZIP archive over a seekable reader.
///
/// Relies on `zip::ZipArchive::new`, which reads the archive's central
/// directory; a reader that does not hold a ZIP archive is an error.
#[verifier::external_body]
fn zip_open<R: std::io::Read + std::io::Seek>(reader: R) -> (r: Result<
    zip::ZipArchive<R>,
    Ksj2GpError,
>) {
    match zip::ZipArchive::new(reader) {
        Ok(zip) => Ok(zip),
        Err(e) => Err(Ksj2GpError::new(format!("Failed to read ZIP file!: {e:?}"))),
    }
}

/// Lists the archive's entry names.
///
/// Relies on `zip::ZipArchive::file_names`; the names are returned raw,
/// exactly as stored, in the order the iterator yields them.
#[verifier::external_body]
fn zip_entry_names<R: std::io::Read + std::io::Seek>(zip: &zip::ZipArchive<R>) -> (r: Vec<String>) {
    zip.file_names().map(|s| s.to_string()).collect()
}

/// Reads a named entry as text; a missing entry is `None`.
///
/// Relies on `zip::ZipArchive::by_name` and `Read::read_to_string`: an
/// entry that is not UTF-8, or an archive read failure, is an error.
#[verifier::external_body]
fn zip_entry_string<R: std::io::Read + std::io::Seek>(
    zip: &mut zip::ZipArchive<R>,
    name: &str,
) -> (r: Result<Option<String>, Ksj2GpError>) {
    match zip.by_name(name) {
        Ok(mut entry) => {
            let mut s = String::new();
            match entry.read_to_string(&mut s) {
                Ok(_) => Ok(Some(s)),
                Err(e) => Err(Ksj2GpError::new(format!("IO error: {e:?}"))),
            }
        },
        Err(zip::result::ZipError::FileNotFound) => Ok(None),
        Err(e) => Err(Ksj2GpError::new(format!("zip error: {e:?}"))),
    }
}

/// Reads a named entry's bytes; a missing entry is `None`.
///
/// Relies on `zip::ZipArchive::by_name` and `Read::read_to_end`.
#[verifier::external_body]
fn zip_entry_bytes<R: std::io::Read + std::io::Seek>(
    zip: &mut zip::ZipArchive<R>,
    name: &str,
) -> (r: Result<Option<Vec<u8>>, Ksj2GpError>) {
    match zip.by_name(name) {
        Ok(mut entry) => {
            let mut buf: Vec<u8> = Vec::new();
            match entry.read_to_end(&mut buf) {
                Ok(_) => Ok(Some(buf)),
                Err(e) => Err(Ksj2GpError::new(format!("IO error: {e:?}"))),
            }
        },
        Err(zip::result::ZipError::FileNotFound) => Ok(None),
        Err(e) => Err(Ksj2GpError::new(format!("zip error: {e:?}"))),
    }
}

/// Copies a named entry's bytes into the seekable store `dst`, then
/// rewinds the store to offset zero and returns it, ready for reading.
///
/// Relies on `zip::ZipArchive::by_name`, `std::io::copy` and
/// `Seek::rewind`; the caller hands in a fresh or pre-truncated store.
#[verifier::external_body]
fn zip_copy_entry<R: std::io::Read + std::io::Seek, RW: std::io::Read + std::io::Write + std::io::Seek>(
    zip: &mut zip::ZipArchive<R>,
    name: &str,
    mut dst: RW,
) -> (r: Result<RW, Ksj2GpError>) {
    let entry = match zip.by_name(name) {
        Ok(entry) => entry,
        Err(e) => return Err(Ksj2GpError::new(format!("zip error: {e:?}"))),
    };
    let mut reader = std::io::BufReader::new(entry);
    let mut writer = std::io::BufWriter::new(&mut dst);
    if let Err(e) = std::io::copy(&mut reader, &mut writer) {
        return Err(Ksj2GpError::new(format!("IO error: {e:?}")));
    }
    drop(writer);
    if let Err(e) = dst.rewind() {
        return Err(Ksj2GpError::new(format!("IO error: {e:?}")));
    }
    Ok(dst)
}

/// Whether some entry of `names` equals `name`.
fn names_contain(names: &Vec<String>, name: &str) -> (r: bool)
    ensures
        r == exists|i: int| 0 <= i < names@.len() && (#[trigger] names@[i])@ == name@,
{
    let n = names.len();
    let mut i: usize = 0;
    while i < n
        invariant
            i <= n,
            n == names@.len(),
            forall|k: int| 0 <= k < i ==> (#[trigger] names@[k])@ != name@,
        decreases n - i,
    {
        if str_eq(names[i].as_str(), name) {
            return true;
        }
        i = i + 1;
    }
    false
}

/// What an archive entry name decodes to: a name outside the legacy code
/// page is taken as proper text; one whose Shift-JIS bytes are malformed
/// has no decoding.
pub open spec fn spec_decode_entry(s: Seq<char>) -> Option<Seq<char>> {
    match spec_cp437_bytes(s) {
        None => Some(s),
        Some(bs) => if sjis_decode(bs).1 {
            None
        } else {
            Some(sjis_decode(bs).0)
        },
    }
}

/// The entry names ending in `.shp`, in order, raw.
pub open spec fn spec_shp_entries(names: Seq<String>) -> Seq<Seq<char>>
    decreases names.len(),
{
    if names.len() == 0 {
        seq![]
    } else {
        let rest = spec_shp_entries(names.drop_last());
        if spec_ends_with(names.last()@, ".shp"@) {
            rest.push(names.last()@)
        } else {
            rest
        }
    }
}

/// Picks out the shapefile entry names of an archive's entry list and
/// decodes each from the legacy code-page form; the first undecodable
/// name is an error.
pub fn shp_names_from_entries(names: &Vec<String>) -> (r: Result<Vec<String>, Ksj2GpError>)
    ensures
        match r {
            Ok(v) => v@.len() == spec_shp_entries(names@).len() && forall|i: int|
                0 <= i < v@.len() ==> Some((#[trigger] v@[i])@) == spec_decode_entry(
                    spec_shp_entries(names@)[i],
                ),
            Err(_) => exists|i: int|
                0 <= i < names@.len() && spec_ends_with((#[trigger] names@[i])@, ".shp"@)
                    && spec_decode_entry(names@[i]@) is None,
        },
{
    let n = names.len();
    let mut out: Vec<String> = Vec::new();
    let mut i: usize = 0;
    while i < n
        invariant
            i <= n,
            n == names@.len(),
            out@.len() == spec_shp_entries(names@.subrange(0, i as int)).len(),
            forall|k: int|
                0 <= k < out@.len() ==> Some((#[trigger] out@[k])@) == spec_decode_entry(
                    spec_shp_entries(names@.subrange(0, i as int))[k],
                ),
        decreases n - i,
    {
        proof {
            assert(names@.subrange(0, i + 1).drop_last() =~= names@.subrange(0, i as int));
            assert(names@.subrange(0, i + 1).last() == names@[i as int]);
        }
        if ends_with(names[i].as_str(), ".shp") {
            match decode_cp437cp932_to_utf8(names[i].as_str()) {
                Ok(decoded) => {
                    out.push(decoded);
                },
                Err(e) => {
                    return Err(e);
                },
            }
        }
        i = i + 1;
    }
    proof {
        assert(names@.subrange(0, n as int) =~= names@);
    }
    Ok(out)
}

/// Lists the shapefiles contained in a ZIP archive, with their entry
/// names decoded from the legacy code-page form.
pub fn list_shp_files<R: std::io::Read + std::io::Seek>(reader: R) -> (r: Result<
    Vec<String>,
    Ksj2GpError,
>) {
    let zip = zip_open(reader)?;
    let names = zip_entry_names(&zip);
    shp_names_from_entries(&names)
}

/// The first entry name starting with the metadata prefix, if any.
pub fn meta_xml_from_entries(names: &Vec<String>) -> (r: Option<String>)
    ensures
        match r {
            Some(s) => exists|i: int|
                0 <= i < names@.len() && s@ == (#[trigger] names@[i])@ && spec_starts_with(
                    names@[i]@,
                    "KS-META"@,
                ) && (forall|j: int|
                    0 <= j < i ==> !spec_starts_with((#[trigger] names@[j])@, "KS-META"@)),
            None => forall|j: int|
                0 <= j < names@.len() ==> !spec_starts_with((#[trigger] names@[j])@, "KS-META"@),
        },
{
    let n = names.len();
    let mut i: usize = 0;
    while i < n
        invariant
            i <= n,
            n == names@.len(),
            forall|j: int| 0 <= j < i ==> !spec_starts_with((#[trigger] names@[j])@, "KS-META"@),
        decreases n - i,
    {
        if starts_with(names[i].as_str(), "KS-META") {
            return Some(names[i].clone());
        }
        i = i + 1;
    }
    None
}

/// Finds the metadata XML entry of a ZIP archive, if one is present.
pub fn find_meta_xml<R: std::io::Read + std::io::Seek>(reader: R) -> (r: Result<
    Option<String>,
    Ksj2GpError,
>) {
    let zip = zip_open(reader)?;
    let names = zip_entry_names(&zip);
    Ok(meta_xml_from_entries(&names))
}

/// Access to one shapefile triplet inside a ZIP archive, with its
/// optional projection, encoding-declaration and metadata companions.
#[verifier::reject_recursive_types(R)]
pub struct ZippedShapefileReader<R> {
    zip: zip::ZipArchive<R>,
    shp_filename: String,
    dbf_filename: String,
    shx_filename: String,
    prj_filename: String,
    cpg_filename: String,
    meta_xml_filename: Option<String>,
}

impl<R: std::io::Read + std::io::Seek> ZippedShapefileReader<R> {
    /// The target shapefile's entry name.
    pub closed spec fn shp_name(&self) -> Seq<char> {
        self.shp_filename@
    }

    /// The attribute table's entry name.
    pub closed spec fn dbf_name(&self) -> Seq<char> {
        self.dbf_filename@
    }

    /// The spatial index's entry name.
    pub closed spec fn shx_name(&self) -> Seq<char> {
        self.shx_filename@
    }

    /// The projection text's entry name.
    pub closed spec fn prj_name(&self) -> Seq<char> {
        self.prj_filename@
    }

    /// The encoding declaration's entry name.
    pub closed spec fn cpg_name(&self) -> Seq<char> {
        self.cpg_filename@
    }

    /// The metadata XML's entry name, if one was given.
    pub closed spec fn meta_name(&self) -> Option<Seq<char>> {
        match self.meta_xml_filename {
            Some(name) => Some(name@),
            None => None,
        }
    }

    /// Checks that `target_shp` names a shapefile, derives the names of
    /// its companion entries from its base name, and checks that the
    /// geometry, attribute and index entries all exist in the archive.
    pub fn new(zip: zip::ZipArchive<R>, target_shp: &str, meta_xml_filename: Option<String>) -> (r:
        Result<Self, Ksj2GpError>)
        ensures
            match r {
                Ok(this) => {
                    &&& spec_ends_with(target_shp@, ".shp"@)
                    &&& this.shp_name() == target_shp@
                    &&& this.dbf_name() == target_shp@.subrange(0, target_shp@.len() - 4)
                        + ".dbf"@
                    &&& this.shx_name() == target_shp@.subrange(0, target_shp@.len() - 4)
                        + ".shx"@
                    &&& this.prj_name() == target_shp@.subrange(0, target_shp@.len() - 4)
                        + ".prj"@
                    &&& this.cpg_name() == target_shp@.subrange(0, target_shp@.len() - 4)
                        + ".cpg"@
                    &&& this.meta_name() == match meta_xml_filename {
                        Some(name) => Some(name@),
                        None => None::<Seq<char>>,
                    }
                },
                Err(_) => true,
            },
            !spec_ends_with(target_shp@, ".shp"@) ==> r is Err,
{
        if !ends_with(target_shp, ".shp") {
            let mut msg = String::from_str("Not a Shapefile: ");
            msg.append(target_shp);
            return Err(Ksj2GpError::new(msg));
        }
        let n = target_shp.unicode_len();
        proof {
            reveal_strlit(".shp");
            assert(target_shp@.subrange(n - 4, n as int) == ".shp"@);
            assert(target_shp@[n - 4] == target_shp@.subrange(n - 4, n as int)[0]);
            assert(target_shp@[n - 3] == target_shp@.subrange(n - 4, n as int)[1]);
            assert(target_shp@[n - 2] == target_shp@.subrange(n - 4, n as int)[2]);
            assert(target_shp@[n - 1] == target_shp@.subrange(n - 4, n as int)[3]);
        }
        let dot = match rindex_of(target_shp, '.') {
            Some(i) => i,
            None => {
                proof {
                    assert(false);
                }
                return Err(Ksj2GpError::new(String::from_str("Not a Shapefile")));
            },
        };
        proof {
            assert(dot == n - 4);
        }
        let filename_base = target_shp.substring_char(0, dot);
        let shp_filename = concat_name(filename_base, ".shp");
        let dbf_filename = concat_name(filename_base, ".dbf");
        let shx_filename = concat_name(filename_base, ".shx");
        let prj_filename = concat_name(filename_base, ".prj");
        let cpg_filename = concat_name(filename_base, ".cpg");
        proof {
            assert(target_shp@ =~= target_shp@.subrange(0, n - 4) + target_shp@.subrange(
                n - 4,
                n as int,
            ));
            assert(shp_filename@ == target_shp@);
        }

        let filenames = zip_entry_names(&zip);
        if !names_contain(&filenames, shp_filename.as_str()) {
            return Err(missing_entry_error(shp_filename.as_str()));
        }
        if !names_contain(&filenames, dbf_filename.as_str()) {
            return Err(missing_entry_error(dbf_filename.as_str()));
        }
        if !names_contain(&filenames, shx_filename.as_str()) {
            return Err(missing_entry_error(shx_filename.as_str()));
        }

        Ok(
            ZippedShapefileReader {
                zip,
                shp_filename,
                dbf_filename,
                shx_filename,
                prj_filename,
                cpg_filename,
                meta_xml_filename,
            },
        )
    }

    /// Copies the geometry entry into `dst` and returns it rewound.
    pub fn copy_shp_to<RW: std::io::Read + std::io::Write + std::io::Seek>(&mut self, dst: RW) -> (r:
        Result<RW, Ksj2GpError>) {
        zip_copy_entry(&mut self.zip, self.shp_filename.as_str(), dst)
    }

    /// Copies the attribute-table entry into `dst` and returns it rewound.
    pub fn copy_dbf_to<RW: std::io::Read + std::io::Write + std::io::Seek>(&mut self, dst: RW) -> (r:
        Result<RW, Ksj2GpError>) {
        zip_copy_entry(&mut self.zip, self.dbf_filename.as_str(), dst)
    }

    /// Copies the spatial-index entry into `dst` and returns it rewound.
    pub fn copy_shx_to<RW: std::io::Read + std::io::Write + std::io::Seek>(&mut self, dst: RW) -> (r:
        Result<RW, Ksj2GpError>) {
        zip_copy_entry(&mut self.zip, self.shx_filename.as_str(), dst)
    }

    /// Resolves the source CRS. The decision itself is the contracted
    /// [`crs_from_sources`]: the projection text entry is consulted first
    /// and wins when it classifies, the metadata XML is consulted
    /// otherwise, and with neither the CRS is undetermined and an error —
    /// never a silent default. This method only fetches the two entries:
    /// the metadata XML lazily, and not at all when the projection text
    /// already decides (the first call's success is exactly that case).
    pub fn guess_crs(&mut self) -> (r: Result<JapanCrs, Ksj2GpError>) {
        let prj = match zip_entry_string(&mut self.zip, self.prj_filename.as_str()) {
            Ok(found) => found,
            Err(e) => {
                return Err(e);
            },
        };
        let prj_ref: Option<&str> = match &prj {
            Some(s) => Some(s.as_str()),
            None => None,
        };
        if let Ok(crs) = crs_from_sources(prj_ref, None) {
            return Ok(crs);
        }
        let meta_sjis: Option<Vec<u8>> = match &self.meta_xml_filename {
            Some(name) => match zip_entry_bytes(&mut self.zip, name.clone().as_str()) {
                Ok(Some(bytes)) => Some(bytes),
                Ok(None) => {
                    return Err(missing_entry_error(name.clone().as_str()));
                },
                Err(e) => {
                    return Err(e);
                },
            },
            None => None,
        };
        let meta_ref: Option<&Vec<u8>> = match &meta_sjis {
            Some(bytes) => Some(bytes),
            None => None,
        };
        crs_from_sources(prj_ref, meta_ref)
    }

    /// Resolves the attribute table's text encoding. The decision itself
    /// is the contracted [`crate::encoding::encoding_from_header`]: the
    /// language-driver byte of the fetched header, then the declaration
    /// entry, then the filename heuristic, then the Shift-JIS default.
    /// This method only fetches the two entries: the declaration lazily,
    /// and not at all when the language-driver byte already decides (on
    /// that byte the rule's outcome is the same with any declaration).
    pub fn guess_encoding(&mut self) -> (r: Result<TextEncoding, Ksj2GpError>) {
        let header = match zip_entry_bytes(&mut self.zip, self.dbf_filename.as_str()) {
            Ok(Some(bytes)) => bytes,
            Ok(None) => {
                return Err(missing_entry_error(self.dbf_filename.as_str()));
            },
            Err(e) => {
                return Err(e);
            },
        };
        if header.len() >= 29 && header[28] == 13 {
            return encoding_from_header(&header, None, self.shp_filename.as_str());
        }
        let cpg = match zip_entry_string(&mut self.zip, self.cpg_filename.as_str()) {
            Ok(found) => found,
            Err(e) => {
                return Err(e);
            },
        };
        let cpg_ref: Option<&str> = match &cpg {
            Some(s) => Some(s.as_str()),
            None => None,
        };
        encoding_from_header(&header, cpg_ref, self.shp_filename.as_str())
    }
}

fn concat_name(base: &str, ext: &str) -> (r: String)
    ensures
        r@ == base@ + ext@,
{
    let mut s = base.to_owned();
    s.append(ext);
    s
}

fn missing_entry_error(name: &str) -> (r: Ksj2GpError) {
    let mut msg = String::from_str(name);
    msg.append(" doesn't exist in the ZIP file");
    Ksj2GpError::new(msg)
}

} // verus!
