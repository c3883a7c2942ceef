//! The closed set of calendar kinds, and the dispatch table that maps each
//! kind to the schema keys its data is requested under.

use vstd::prelude::*;

verus! {

/// A calendar system that a locale identifier can refer to.
///
/// The set is closed and fixed at build time; equality is by identity.
/// `Iso` is the reference calendar used for conversions between the others:
/// no formatting data is stored for it, so the data-loading dispatch reports
/// it as unsupported rather than routing it anywhere.
#[derive(Clone, Copy, Debug, PartialEq, Eq, Structural)]
pub enum CalendarKind {
    Buddhist,
    Chinese,
    Coptic,
    Dangi,
    Ethiopian,
    EthiopianAmeteAlem,
    Gregorian,
    Hebrew,
    Indian,
    IslamicCivil,
    IslamicObservational,
    IslamicTabular,
    IslamicUmmAlQura,
    Iso,
    Japanese,
    JapaneseExtended,
    Persian,
    Roc,
}

/// A family of data schemas in the external data source.
///
/// Distinct calendar kinds may share a family: the four Islamic kinds load
/// from the `Islamic` family, and the Amete Alem variant shares `Ethiopian`
/// with the Ethiopian calendar — those pairs are display variants over
/// identical underlying data, not distinct datasets.
#[derive(Clone, Copy, Debug, PartialEq, Eq, Structural)]
pub enum DataFamily {
    Buddhist,
    Chinese,
    Coptic,
    Dangi,
    Ethiopian,
    Gregorian,
    Hebrew,
    Indian,
    Islamic,
    Japanese,
    JapaneseExtended,
    Persian,
    Roc,
}

/// A category of calendar data: length patterns or symbols.
#[derive(Clone, Copy, Debug, PartialEq, Eq, Structural)]
pub enum DataCategory {
    Lengths,
    Symbols,
}

/// A versioned identifier naming a data shape in the external data source.
///
/// A key is a (family, category) pair; the source stores and versions each
/// key's records independently, so distinct families use distinct keys even
/// where the record shapes coincide.
#[derive(Clone, Copy, Debug, PartialEq, Eq, Structural)]
pub struct SchemaKey {
    pub family: DataFamily,
    pub category: DataCategory,
}

/// The dispatch table from a calendar kind to the data family its requests
/// are keyed by: `None` exactly for the kinds no data can be loaded for.
pub open spec fn spec_dispatch_family(kind: CalendarKind) -> Option<DataFamily> {
    match kind {
        CalendarKind::Buddhist => Some(DataFamily::Buddhist),
        CalendarKind::Chinese => Some(DataFamily::Chinese),
        CalendarKind::Coptic => Some(DataFamily::Coptic),
        CalendarKind::Dangi => Some(DataFamily::Dangi),
        CalendarKind::Ethiopian => Some(DataFamily::Ethiopian),
        CalendarKind::EthiopianAmeteAlem => Some(DataFamily::Ethiopian),
        CalendarKind::Gregorian => Some(DataFamily::Gregorian),
        CalendarKind::Hebrew => Some(DataFamily::Hebrew),
        CalendarKind::Indian => Some(DataFamily::Indian),
        CalendarKind::IslamicCivil => Some(DataFamily::Islamic),
        CalendarKind::IslamicObservational => Some(DataFamily::Islamic),
        CalendarKind::IslamicTabular => Some(DataFamily::Islamic),
        CalendarKind::IslamicUmmAlQura => Some(DataFamily::Islamic),
        CalendarKind::Iso => None,
        CalendarKind::Japanese => Some(DataFamily::Japanese),
        CalendarKind::JapaneseExtended => Some(DataFamily::JapaneseExtended),
        CalendarKind::Persian => Some(DataFamily::Persian),
        CalendarKind::Roc => Some(DataFamily::Roc),
    }
}

/// True of the kinds that have a registry entry of their own — a canonical
/// identifier with an acceptance rule, and a typed loading path.
///
/// The Amete Alem variant has none: it is addressed through Ethiopian's
/// entry, as a display variant. `Iso` has none either.
pub open spec fn in_registry(kind: CalendarKind) -> bool {
    kind != CalendarKind::EthiopianAmeteAlem && kind != CalendarKind::Iso
}

/// The schema key a kind's data is requested under for a category, where the
/// dispatch table covers the kind.
pub open spec fn spec_schema_key(kind: CalendarKind, category: DataCategory) -> Option<
    SchemaKey,
> {
    match spec_dispatch_family(kind) {
        Some(family) => Some(SchemaKey { family, category }),
        None => None,
    }
}

/// Executable form of the dispatch table.
pub fn dispatch_family(kind: CalendarKind) -> (r: Option<DataFamily>)
    ensures
        r == spec_dispatch_family(kind),
{
    match kind {
        CalendarKind::Buddhist => Some(DataFamily::Buddhist),
        CalendarKind::Chinese => Some(DataFamily::Chinese),
        CalendarKind::Coptic => Some(DataFamily::Coptic),
        CalendarKind::Dangi => Some(DataFamily::Dangi),
        CalendarKind::Ethiopian => Some(DataFamily::Ethiopian),
        CalendarKind::EthiopianAmeteAlem => Some(DataFamily::Ethiopian),
        CalendarKind::Gregorian => Some(DataFamily::Gregorian),
        CalendarKind::Hebrew => Some(DataFamily::Hebrew),
        CalendarKind::Indian => Some(DataFamily::Indian),
        CalendarKind::IslamicCivil => Some(DataFamily::Islamic),
        CalendarKind::IslamicObservational => Some(DataFamily::Islamic),
        CalendarKind::IslamicTabular => Some(DataFamily::Islamic),
        CalendarKind::IslamicUmmAlQura => Some(DataFamily::Islamic),
        CalendarKind::Iso => None,
        CalendarKind::Japanese => Some(DataFamily::Japanese),
        CalendarKind::JapaneseExtended => Some(DataFamily::JapaneseExtended),
        CalendarKind::Persian => Some(DataFamily::Persian),
        CalendarKind::Roc => Some(DataFamily::Roc),
    }
}

/// Executable form of [`spec_schema_key`].
pub fn schema_key_for(kind: CalendarKind, category: DataCategory) -> (r: Option<SchemaKey>)
    ensures
        r == spec_schema_key(kind, category),
{
    match dispatch_family(kind) {
        Some(family) => Some(SchemaKey { family, category }),
        None => None,
    }
}

/// The registry and the dispatch table cover the kinds together, with no
/// drift: every registered kind has a dispatch entry; the Amete Alem display
/// variant routes to the same family as Ethiopian; and the only kind the
/// dispatch leaves uncovered is the `Iso` reference calendar, which is
/// reported as unsupported rather than loaded.
pub proof fn lemma_dispatch_registry_complete(kind: CalendarKind)
    ensures
        in_registry(kind) ==> spec_dispatch_family(kind) is Some,
        spec_dispatch_family(CalendarKind::EthiopianAmeteAlem) == spec_dispatch_family(
            CalendarKind::Ethiopian,
        ),
        spec_dispatch_family(kind) is None <==> kind == CalendarKind::Iso,
{
}

} // verus!
