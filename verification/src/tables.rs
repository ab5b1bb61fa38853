//! Injected translation data: the column-name dictionary, the positional
//! column-name lists of the special dataset families, and the per-column
//! code dictionaries. The data itself is supplied by the embedding
//! application; the lookup rules over it live in this crate.
use vstd::prelude::*;

use crate::strutil::{assoc_lookup, spec_assoc};

verus! {

/// One code dictionary: machine code to human-readable label.
#[derive(Debug)]
pub struct Codelist {
    pub entries: Vec<(String, String)>,
}

impl Codelist {
    /// The label of `code`, if the dictionary has one; the first match
    /// wins.
    pub fn get<'a>(&'a self, code: &str) -> (r: Option<&'a String>)
        ensures
            match r {
                Some(v) => spec_assoc(self.entries@, code@) == Some(*v),
                None => spec_assoc(self.entries@, code@) is None,
            },
    {
        assoc_lookup(&self.entries, code)
    }
}

/// The translation data for one run: dictionaries keyed by column id, and
/// the positional column-name lists of the dataset families whose columns
/// are known by position rather than by id.
#[derive(Debug)]
pub struct TranslationTables {
    /// Column id to human-readable column name.
    pub colnames: Vec<(String, String)>,
    /// Positional column names of the historic-landscape family, ordinary
    /// shapefile.
    pub a42_normal: Vec<String>,
    /// Positional column names of the historic-landscape family, special
    /// shapefile.
    pub a42_special: Vec<String>,
    /// Positional column names of the posted-land-price family, by era.
    pub l01_1983: Vec<String>,
    pub l01_2014: Vec<String>,
    pub l01_2018: Vec<String>,
    pub l01_2022: Vec<String>,
    pub l01_2024: Vec<String>,
    /// Code dictionaries, keyed by column id or by a named special case.
    pub codelists: Vec<(String, Codelist)>,
}

impl TranslationTables {
    pub fn new() -> (r: TranslationTables)
        ensures
            r.colnames@.len() == 0,
            r.a42_normal@.len() == 0,
            r.a42_special@.len() == 0,
            r.l01_1983@.len() == 0,
            r.l01_2014@.len() == 0,
            r.l01_2018@.len() == 0,
            r.l01_2022@.len() == 0,
            r.l01_2024@.len() == 0,
            r.codelists@.len() == 0,
    {
        TranslationTables {
            colnames: Vec::new(),
            a42_normal: Vec::new(),
            a42_special: Vec::new(),
            l01_1983: Vec::new(),
            l01_2014: Vec::new(),
            l01_2018: Vec::new(),
            l01_2022: Vec::new(),
            l01_2024: Vec::new(),
            codelists: Vec::new(),
        }
    }

    /// The code dictionary registered under `key`, if any.
    pub fn codelist<'a>(&'a self, key: &str) -> (r: Option<&'a Codelist>)
        ensures
            match r {
                Some(v) => spec_assoc(self.codelists@, key@) == Some(*v),
                None => spec_assoc(self.codelists@, key@) is None,
            },
    {
        assoc_lookup(&self.codelists, key)
    }
}

} // verus!

verus! {

impl Codelist {
    /// An owned copy with the same entries.
    pub fn duplicate(&self) -> (r: Codelist)
        ensures
            r.entries@ == self.entries@,
    {
        let n = self.entries.len();
        let mut entries: Vec<(String, String)> = Vec::with_capacity(n);
        let mut i: usize = 0;
        while i < n
            invariant
                i <= n,
                n == self.entries@.len(),
                entries@.len() == i,
                forall|k: int| 0 <= k < i ==> entries@[k] == self.entries@[k],
            decreases n - i,
        {
            entries.push((self.entries[i].0.clone(), self.entries[i].1.clone()));
            i = i + 1;
        }
        proof {
            assert(entries@ =~= self.entries@);
        }
        Codelist { entries }
    }
}

} // verus!
