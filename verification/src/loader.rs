//! The two loading paths: statically specialized and runtime dispatched.
//!
//! Both paths issue exactly one request to the data source, keyed by the
//! calendar's data family and the requested category, and both return the
//! response the same way: the loaded bytes re-tagged as an [`ErasedPayload`],
//! or the source's error unchanged — no retry, no substitution. The dynamic
//! path selects the family through the dispatch table and reports a kind the
//! table does not cover as `UnsupportedCalendarKind`; it never fails
//! uncontrolled.

use crate::calendar::CldrCalendar;
use crate::error::DataError;
use crate::kind::{
    in_registry, schema_key_for, spec_dispatch_family, spec_schema_key, CalendarKind, DataCategory,
    SchemaKey,
};
use crate::payload::ErasedPayload;
use crate::source::{DataSource, Locale, LocaleView};
use vstd::prelude::*;

verus! {

/// What a load returns, as a function of the source's response for the
/// requested schema key: on success the response's bytes tagged by that key,
/// on failure the response's error, identically.
pub open spec fn spec_loaded(
    resp: Result<Seq<u8>, DataError>,
    key: SchemaKey,
    r: Result<ErasedPayload, DataError>,
) -> bool {
    match resp {
        Ok(data) => r is Ok && r->Ok_0.schema == key && r->Ok_0.data@ == data,
        Err(e) => r is Err && r->Err_0 == e,
    }
}

/// The schema key the typed path uses for calendar `C` and a category: the
/// same key the dynamic path derives from `C`'s kind.
pub open spec fn spec_typed_key<C: CldrCalendar>(category: DataCategory) -> SchemaKey {
    SchemaKey { family: spec_dispatch_family(C::spec_kind())->Some_0, category }
}

/// Issues the one request for a key and erases the response: the shared body
/// of every load path.
fn load_erased<S: DataSource>(source: &S, key: SchemaKey, locale: &Locale) -> (r: Result<
    ErasedPayload,
    DataError,
>)
    ensures
        spec_loaded(source.spec_response(key, locale@), key, r),
{
    match source.request(key, locale) {
        Ok(data) => Ok(ErasedPayload::erase(key, data)),
        Err(e) => Err(e),
    }
}

/// Loads date length patterns for the statically-known calendar `C`.
pub fn load_lengths_for_cldr_calendar<C: CldrCalendar, S: DataSource>(
    source: &S,
    locale: &Locale,
) -> (r: Result<ErasedPayload, DataError>)
    ensures
        spec_loaded(
            source.spec_response(spec_typed_key::<C>(DataCategory::Lengths), locale@),
            spec_typed_key::<C>(DataCategory::Lengths),
            r,
        ),
{
    let family = C::data_family();
    load_erased(source, SchemaKey { family, category: DataCategory::Lengths }, locale)
}

/// Loads date symbols for the statically-known calendar `C`.
pub fn load_symbols_for_cldr_calendar<C: CldrCalendar, S: DataSource>(
    source: &S,
    locale: &Locale,
) -> (r: Result<ErasedPayload, DataError>)
    ensures
        spec_loaded(
            source.spec_response(spec_typed_key::<C>(DataCategory::Symbols), locale@),
            spec_typed_key::<C>(DataCategory::Symbols),
            r,
        ),
{
    let family = C::data_family();
    load_erased(source, SchemaKey { family, category: DataCategory::Symbols }, locale)
}

/// What the dynamic path returns for a kind: where the dispatch table covers
/// the kind, exactly what a load through its schema key returns; everywhere
/// else the explicit `UnsupportedCalendarKind` error carrying the kind.
pub open spec fn spec_dynamic_loaded<S: DataSource>(
    source: S,
    locale: LocaleView,
    kind: CalendarKind,
    category: DataCategory,
    r: Result<ErasedPayload, DataError>,
) -> bool {
    match spec_schema_key(kind, category) {
        Some(key) => spec_loaded(source.spec_response(key, locale), key, r),
        None => r == Err::<ErasedPayload, DataError>(
            DataError::UnsupportedCalendarKind { kind },
        ),
    }
}

/// Shared body of the runtime-dispatched load paths.
fn load_for_any_calendar_kind<S: DataSource>(
    source: &S,
    locale: &Locale,
    kind: CalendarKind,
    category: DataCategory,
) -> (r: Result<ErasedPayload, DataError>)
    ensures
        spec_dynamic_loaded(*source, locale@, kind, category, r),
{
    match schema_key_for(kind, category) {
        Some(key) => load_erased(source, key, locale),
        None => Err(DataError::UnsupportedCalendarKind { kind }),
    }
}

/// Loads date length patterns for a calendar kind known only at run time.
pub fn load_lengths_for_any_calendar_kind<S: DataSource>(
    source: &S,
    locale: &Locale,
    kind: CalendarKind,
) -> (r: Result<ErasedPayload, DataError>)
    ensures
        spec_dynamic_loaded(*source, locale@, kind, DataCategory::Lengths, r),
{
    load_for_any_calendar_kind(source, locale, kind, DataCategory::Lengths)
}

/// Loads date symbols for a calendar kind known only at run time.
pub fn load_symbols_for_any_calendar_kind<S: DataSource>(
    source: &S,
    locale: &Locale,
    kind: CalendarKind,
) -> (r: Result<ErasedPayload, DataError>)
    ensures
        spec_dynamic_loaded(*source, locale@, kind, DataCategory::Symbols, r),
{
    load_for_any_calendar_kind(source, locale, kind, DataCategory::Symbols)
}

/// The dynamic path is exhaustive over the kinds: for every kind and
/// category it either loads through a schema key — behaving exactly as a
/// load of that key — or returns the explicit `UnsupportedCalendarKind`
/// error for that kind; there is no third outcome, for any sentinel value
/// included.
pub proof fn lemma_dynamic_load_total<S: DataSource>(
    source: S,
    locale: LocaleView,
    kind: CalendarKind,
    category: DataCategory,
    r: Result<ErasedPayload, DataError>,
)
    requires
        spec_dynamic_loaded(source, locale, kind, category, r),
    ensures
        kind != CalendarKind::Iso ==> spec_loaded(
            source.spec_response(spec_schema_key(kind, category)->Some_0, locale),
            spec_schema_key(kind, category)->Some_0,
            r,
        ),
        kind == CalendarKind::Iso ==> r == Err::<ErasedPayload, DataError>(
            DataError::UnsupportedCalendarKind { kind },
        ),
{
}

/// Erasure round trip: the typed path for calendar `C` and the dynamic path
/// for `C`'s kind request the same schema key, so against one source and
/// locale their results carry identical content — the same tag and bytes on
/// success, the identical error on failure.
pub proof fn lemma_erasure_round_trip<C: CldrCalendar, S: DataSource>(
    source: S,
    locale: LocaleView,
    category: DataCategory,
    typed: Result<ErasedPayload, DataError>,
    dynamic: Result<ErasedPayload, DataError>,
)
    requires
        spec_loaded(
            source.spec_response(spec_typed_key::<C>(category), locale),
            spec_typed_key::<C>(category),
            typed,
        ),
        spec_dynamic_loaded(source, locale, C::spec_kind(), category, dynamic),
    ensures
        typed is Ok <==> dynamic is Ok,
        typed is Ok ==> typed->Ok_0.schema == dynamic->Ok_0.schema && typed->Ok_0.data@
            == dynamic->Ok_0.data@,
        typed is Err ==> typed->Err_0 == dynamic->Err_0,
{
    C::kind_in_registry();
    assert(in_registry(C::spec_kind()));
    assert(spec_schema_key(C::spec_kind(), category) == Some(spec_typed_key::<C>(category)));
}

} // verus!
