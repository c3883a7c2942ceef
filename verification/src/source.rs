//! Locales and the external data source boundary.
//!
//! The data source is the external store of loaded records, reached through
//! the [`DataSource`] trait: one request for a (schema key, locale) pair
//! yields one result or one error, and a given source value answers a given
//! pair consistently. Caching, locking and retry policy belong to the source
//! or to higher layers, never to this subsystem. [`InMemorySource`] is a
//! simple source held directly in memory.

use crate::error::DataError;
use crate::kind::SchemaKey;
use vstd::prelude::*;

verus! {

/// A locale, reduced to what this subsystem reads: the language subtag that
/// names it and its region subtag, if any.
#[derive(Debug)]
pub struct Locale {
    /// The language subtag, `und` where undetermined.
    pub language: String,
    /// The region subtag, if any.
    pub region: Option<String>,
}

/// The mathematical value of a [`Locale`].
pub struct LocaleView {
    pub language: Seq<char>,
    pub region: Option<Seq<char>>,
}

/// The mathematical value of an optional region subtag.
pub open spec fn region_view(region: Option<String>) -> Option<Seq<char>> {
    match region {
        Some(r) => Some(r@),
        None => None,
    }
}

impl View for Locale {
    type V = LocaleView;

    open spec fn view(&self) -> LocaleView {
        LocaleView { language: self.language@, region: region_view(self.region) }
    }
}

impl Locale {
    /// A locale from its language and optional region subtag.
    pub fn new(language: String, region: Option<String>) -> (r: Locale)
        ensures
            r@.language == language@,
            r@.region == region_view(region),
    {
        Locale { language, region }
    }

    /// The root locale: language `und`, no region.
    pub fn root() -> (r: Locale)
        ensures
            r@.language == "und"@,
            r@.region is None,
    {
        Locale { language: "und".to_owned(), region: None }
    }

    /// The locale with language `und` and the given region subtag.
    pub fn und_region(region: String) -> (r: Locale)
        ensures
            r@.language == "und"@,
            r@.region == Some(region@),
    {
        Locale { language: "und".to_owned(), region: Some(region) }
    }
}

/// Whether two locales are the same value.
pub fn locale_eq(a: &Locale, b: &Locale) -> (r: bool)
    ensures
        r == (a@ == b@),
{
    let language_ok = a.language == b.language;
    let region_ok = match (&a.region, &b.region) {
        (Some(x), Some(y)) => *x == *y,
        (None, None) => true,
        _ => false,
    };
    language_ok && region_ok
}

/// Whether the executable result `r` of a request carries the source's
/// response `resp`: the same bytes on success, the identical error otherwise.
pub open spec fn response_matches(
    resp: Result<Seq<u8>, DataError>,
    r: Result<Vec<u8>, DataError>,
) -> bool {
    match resp {
        Ok(data) => r is Ok && r->Ok_0@ == data,
        Err(e) => r is Err && r->Err_0 == e,
    }
}

/// The external data source.
///
/// `spec_response` is the source's content: what it holds, or which error it
/// reports, for each (schema key, locale) pair. A `request` call issues
/// exactly one lookup of that pair and returns its response unchanged.
pub trait DataSource {
    /// The response the source gives for a (schema key, locale) pair.
    spec fn spec_response(&self, key: SchemaKey, locale: LocaleView) -> Result<Seq<u8>, DataError>;

    /// Issues one request for the pair and hands back the response.
    fn request(&self, key: SchemaKey, locale: &Locale) -> (r: Result<Vec<u8>, DataError>)
        ensures
            response_matches(self.spec_response(key, locale@), r),
    ;
}

/// One record of an [`InMemorySource`].
#[derive(Debug)]
pub struct SourceRecord {
    /// The schema key the record is stored under.
    pub key: SchemaKey,
    /// The locale the record is stored for.
    pub locale: Locale,
    /// The record itself.
    pub data: Vec<u8>,
}

/// A data source backed by a list of records held in memory.
///
/// A request is answered from the first record whose key and locale both
/// match, and with `DataUnavailable` where none does.
#[derive(Debug)]
pub struct InMemorySource {
    /// The records, searched in order.
    pub records: Vec<SourceRecord>,
}

/// The response an in-memory record list gives for a (key, locale) pair:
/// the first matching record's bytes, or `DataUnavailable`.
pub open spec fn spec_find(
    records: Seq<SourceRecord>,
    key: SchemaKey,
    locale: LocaleView,
) -> Result<Seq<u8>, DataError>
    decreases records.len(),
{
    if records.len() == 0 {
        Err(DataError::DataUnavailable { key })
    } else if records[0].key == key && records[0].locale@ == locale {
        Ok(records[0].data@)
    } else {
        spec_find(records.drop_first(), key, locale)
    }
}

/// Copies a byte vector.
fn copy_bytes(v: &Vec<u8>) -> (r: Vec<u8>)
    ensures
        r@ == v@,
{
    let mut out: Vec<u8> = Vec::new();
    let mut i: usize = 0;
    while i < v.len()
        invariant
            i <= v@.len(),
            out@ == v@.subrange(0, i as int),
        decreases v@.len() - i,
    {
        out.push(v[i]);
        proof {
            assert(out@ =~= v@.subrange(0, i + 1 as int));
        }
        i += 1;
    }
    proof {
        assert(out@ =~= v@);
    }
    out
}

impl DataSource for InMemorySource {
    open spec fn spec_response(&self, key: SchemaKey, locale: LocaleView) -> Result<
        Seq<u8>,
        DataError,
    > {
        spec_find(self.records@, key, locale)
    }

    fn request(&self, key: SchemaKey, locale: &Locale) -> (r: Result<Vec<u8>, DataError>) {
        let n = self.records.len();
        let mut i: usize = 0;
        proof {
            assert(self.records@.skip(0) =~= self.records@);
        }
        while i < n
            invariant
                n == self.records@.len(),
                i <= n,
                spec_find(self.records@, key, locale@) == spec_find(
                    self.records@.skip(i as int),
                    key,
                    locale@,
                ),
            decreases n - i,
        {
            let record = &self.records[i];
            let key_matches = record.key == key;
            let locale_matches = locale_eq(&record.locale, locale);
            proof {
                assert(self.records@.skip(i as int)[0] == self.records@[i as int]);
            }
            if key_matches && locale_matches {
                return Ok(copy_bytes(&record.data));
            }
            proof {
                assert(self.records@.skip(i as int).drop_first() =~= self.records@.skip(
                    i + 1 as int,
                ));
            }
            i += 1;
        }
        proof {
            assert(self.records@.skip(n as int).len() == 0);
        }
        Err(DataError::DataUnavailable { key })
    }
}

} // verus!
