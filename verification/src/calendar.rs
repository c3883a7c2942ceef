//! The statically-dispatched face of the calendar registry.
//!
//! One marker type per CLDR calendar implements [`CldrCalendar`], so a caller
//! that knows its calendar at compile time can load data with zero dispatch
//! overhead. Each implementation is proved against the same registry
//! functions the runtime-dispatched path uses, so the two paths cannot
//! drift apart: the canonical identifier, the acceptance rule and the data
//! family of a calendar type are exactly those of its kind.
//!
//! The Amete Alem display variant has no calendar type of its own — it is
//! reached only through the runtime path, which routes it to Ethiopian's
//! data family.

use crate::identifier::{accepts, canonical_identifier, spec_accepts, spec_canonical_identifier};
use crate::kind::{in_registry, spec_dispatch_family, CalendarKind, DataFamily};
use vstd::prelude::*;

verus! {

/// Sealing marker for [`CldrCalendar`]: implemented exactly by the calendar
/// types of this registry, so the registry's variant set stays closed.
pub trait InternalCldrCalendar {

}

/// A calendar that can be found in CLDR.
///
/// The contract of every method is stated over the kind-level registry
/// functions, which makes each implementation's agreement with the
/// runtime-dispatched path a verified fact rather than a convention.
pub trait CldrCalendar: InternalCldrCalendar {
    /// The kind this calendar type stands for.
    spec fn spec_kind() -> CalendarKind;

    /// Every CLDR calendar type stands for a kind with a registry entry.
    proof fn kind_in_registry()
        ensures
            in_registry(Self::spec_kind()),
    ;

    /// The kind value, for handing to the runtime-dispatched path.
    fn kind() -> (k: CalendarKind)
        ensures
            k == Self::spec_kind(),
    ;

    /// The default BCP-47 identifier: the canonical identifier under which
    /// this calendar's skeleton data is loaded. For the Islamic calendars
    /// that override their acceptance rule this value serves skeleton
    /// loading only and is not itself accepted.
    fn default_bcp47_identifier() -> (r: &'static str)
        ensures
            r@ == spec_canonical_identifier(Self::spec_kind()),
    ;

    /// The family of schema keys this calendar's data is requested under.
    fn data_family() -> (f: DataFamily)
        ensures
            Some(f) == spec_dispatch_family(Self::spec_kind()),
    ;

    /// Checks whether a given BCP-47 identifier is allowed to be used with
    /// this calendar.
    fn is_identifier_allowed_for_calendar(value: &str) -> (r: bool)
        ensures
            r == spec_accepts(Self::spec_kind(), value@),
    ;
}

/// The Thai solar (Buddhist) calendar.
pub struct Buddhist;

/// The traditional Chinese lunisolar calendar.
pub struct Chinese;

/// The Coptic calendar.
pub struct Coptic;

/// The Korean (Dangi) lunisolar calendar.
pub struct Dangi;

/// The Ethiopian calendar, covering the Amete Alem display variant too.
pub struct Ethiopian;

/// The Gregorian calendar.
pub struct Gregorian;

/// The Hebrew calendar.
pub struct Hebrew;

/// The Indian national calendar.
pub struct Indian;

/// The civil (Friday-epoch tabular) Islamic calendar.
pub struct IslamicCivil;

/// The observational Islamic calendar.
pub struct IslamicObservational;

/// The Thursday-epoch tabular Islamic calendar.
pub struct IslamicTabular;

/// The Umm al-Qura Islamic calendar.
pub struct IslamicUmmAlQura;

/// The Japanese calendar, modern eras only.
pub struct Japanese;

/// The Japanese calendar with all historical eras.
pub struct JapaneseExtended;

/// The Persian (Solar Hijri) calendar.
pub struct Persian;

/// The Republic of China calendar.
pub struct Roc;

impl InternalCldrCalendar for Buddhist {

}

impl CldrCalendar for Buddhist {
    open spec fn spec_kind() -> CalendarKind {
        CalendarKind::Buddhist
    }

    proof fn kind_in_registry() {
    }

    fn kind() -> CalendarKind {
        CalendarKind::Buddhist
    }

    fn default_bcp47_identifier() -> &'static str {
        canonical_identifier(CalendarKind::Buddhist)
    }

    fn data_family() -> DataFamily {
        DataFamily::Buddhist
    }

    fn is_identifier_allowed_for_calendar(value: &str) -> bool {
        accepts(CalendarKind::Buddhist, value)
    }
}

impl InternalCldrCalendar for Chinese {

}

impl CldrCalendar for Chinese {
    open spec fn spec_kind() -> CalendarKind {
        CalendarKind::Chinese
    }

    proof fn kind_in_registry() {
    }

    fn kind() -> CalendarKind {
        CalendarKind::Chinese
    }

    fn default_bcp47_identifier() -> &'static str {
        canonical_identifier(CalendarKind::Chinese)
    }

    fn data_family() -> DataFamily {
        DataFamily::Chinese
    }

    fn is_identifier_allowed_for_calendar(value: &str) -> bool {
        accepts(CalendarKind::Chinese, value)
    }
}

impl InternalCldrCalendar for Coptic {

}

impl CldrCalendar for Coptic {
    open spec fn spec_kind() -> CalendarKind {
        CalendarKind::Coptic
    }

    proof fn kind_in_registry() {
    }

    fn kind() -> CalendarKind {
        CalendarKind::Coptic
    }

    fn default_bcp47_identifier() -> &'static str {
        canonical_identifier(CalendarKind::Coptic)
    }

    fn data_family() -> DataFamily {
        DataFamily::Coptic
    }

    fn is_identifier_allowed_for_calendar(value: &str) -> bool {
        accepts(CalendarKind::Coptic, value)
    }
}

impl InternalCldrCalendar for Dangi {

}

impl CldrCalendar for Dangi {
    open spec fn spec_kind() -> CalendarKind {
        CalendarKind::Dangi
    }

    proof fn kind_in_registry() {
    }

    fn kind() -> CalendarKind {
        CalendarKind::Dangi
    }

    fn default_bcp47_identifier() -> &'static str {
        canonical_identifier(CalendarKind::Dangi)
    }

    fn data_family() -> DataFamily {
        DataFamily::Dangi
    }

    fn is_identifier_allowed_for_calendar(value: &str) -> bool {
        accepts(CalendarKind::Dangi, value)
    }
}

impl InternalCldrCalendar for Ethiopian {

}

impl CldrCalendar for Ethiopian {
    open spec fn spec_kind() -> CalendarKind {
        CalendarKind::Ethiopian
    }

    proof fn kind_in_registry() {
    }

    fn kind() -> CalendarKind {
        CalendarKind::Ethiopian
    }

    fn default_bcp47_identifier() -> &'static str {
        canonical_identifier(CalendarKind::Ethiopian)
    }

    fn data_family() -> DataFamily {
        DataFamily::Ethiopian
    }

    fn is_identifier_allowed_for_calendar(value: &str) -> bool {
        accepts(CalendarKind::Ethiopian, value)
    }
}

impl InternalCldrCalendar for Gregorian {

}

impl CldrCalendar for Gregorian {
    open spec fn spec_kind() -> CalendarKind {
        CalendarKind::Gregorian
    }

    proof fn kind_in_registry() {
    }

    fn kind() -> CalendarKind {
        CalendarKind::Gregorian
    }

    fn default_bcp47_identifier() -> &'static str {
        canonical_identifier(CalendarKind::Gregorian)
    }

    fn data_family() -> DataFamily {
        DataFamily::Gregorian
    }

    fn is_identifier_allowed_for_calendar(value: &str) -> bool {
        accepts(CalendarKind::Gregorian, value)
    }
}

impl InternalCldrCalendar for Hebrew {

}

impl CldrCalendar for Hebrew {
    open spec fn spec_kind() -> CalendarKind {
        CalendarKind::Hebrew
    }

    proof fn kind_in_registry() {
    }

    fn kind() -> CalendarKind {
        CalendarKind::Hebrew
    }

    fn default_bcp47_identifier() -> &'static str {
        canonical_identifier(CalendarKind::Hebrew)
    }

    fn data_family() -> DataFamily {
        DataFamily::Hebrew
    }

    fn is_identifier_allowed_for_calendar(value: &str) -> bool {
        accepts(CalendarKind::Hebrew, value)
    }
}

impl InternalCldrCalendar for Indian {

}

impl CldrCalendar for Indian {
    open spec fn spec_kind() -> CalendarKind {
        CalendarKind::Indian
    }

    proof fn kind_in_registry() {
    }

    fn kind() -> CalendarKind {
        CalendarKind::Indian
    }

    fn default_bcp47_identifier() -> &'static str {
        canonical_identifier(CalendarKind::Indian)
    }

    fn data_family() -> DataFamily {
        DataFamily::Indian
    }

    fn is_identifier_allowed_for_calendar(value: &str) -> bool {
        accepts(CalendarKind::Indian, value)
    }
}

impl InternalCldrCalendar for IslamicCivil {

}

impl CldrCalendar for IslamicCivil {
    open spec fn spec_kind() -> CalendarKind {
        CalendarKind::IslamicCivil
    }

    proof fn kind_in_registry() {
    }

    fn kind() -> CalendarKind {
        CalendarKind::IslamicCivil
    }

    fn default_bcp47_identifier() -> &'static str {
        canonical_identifier(CalendarKind::IslamicCivil)
    }

    fn data_family() -> DataFamily {
        DataFamily::Islamic
    }

    fn is_identifier_allowed_for_calendar(value: &str) -> bool {
        accepts(CalendarKind::IslamicCivil, value)
    }
}

impl InternalCldrCalendar for IslamicObservational {

}

impl CldrCalendar for IslamicObservational {
    open spec fn spec_kind() -> CalendarKind {
        CalendarKind::IslamicObservational
    }

    proof fn kind_in_registry() {
    }

    fn kind() -> CalendarKind {
        CalendarKind::IslamicObservational
    }

    fn default_bcp47_identifier() -> &'static str {
        canonical_identifier(CalendarKind::IslamicObservational)
    }

    fn data_family() -> DataFamily {
        DataFamily::Islamic
    }

    fn is_identifier_allowed_for_calendar(value: &str) -> bool {
        accepts(CalendarKind::IslamicObservational, value)
    }
}

impl InternalCldrCalendar for IslamicTabular {

}

impl CldrCalendar for IslamicTabular {
    open spec fn spec_kind() -> CalendarKind {
        CalendarKind::IslamicTabular
    }

    proof fn kind_in_registry() {
    }

    fn kind() -> CalendarKind {
        CalendarKind::IslamicTabular
    }

    fn default_bcp47_identifier() -> &'static str {
        canonical_identifier(CalendarKind::IslamicTabular)
    }

    fn data_family() -> DataFamily {
        DataFamily::Islamic
    }

    fn is_identifier_allowed_for_calendar(value: &str) -> bool {
        accepts(CalendarKind::IslamicTabular, value)
    }
}

impl InternalCldrCalendar for IslamicUmmAlQura {

}

impl CldrCalendar for IslamicUmmAlQura {
    open spec fn spec_kind() -> CalendarKind {
        CalendarKind::IslamicUmmAlQura
    }

    proof fn kind_in_registry() {
    }

    fn kind() -> CalendarKind {
        CalendarKind::IslamicUmmAlQura
    }

    fn default_bcp47_identifier() -> &'static str {
        canonical_identifier(CalendarKind::IslamicUmmAlQura)
    }

    fn data_family() -> DataFamily {
        DataFamily::Islamic
    }

    fn is_identifier_allowed_for_calendar(value: &str) -> bool {
        accepts(CalendarKind::IslamicUmmAlQura, value)
    }
}

impl InternalCldrCalendar for Japanese {

}

impl CldrCalendar for Japanese {
    open spec fn spec_kind() -> CalendarKind {
        CalendarKind::Japanese
    }

    proof fn kind_in_registry() {
    }

    fn kind() -> CalendarKind {
        CalendarKind::Japanese
    }

    fn default_bcp47_identifier() -> &'static str {
        canonical_identifier(CalendarKind::Japanese)
    }

    fn data_family() -> DataFamily {
        DataFamily::Japanese
    }

    fn is_identifier_allowed_for_calendar(value: &str) -> bool {
        accepts(CalendarKind::Japanese, value)
    }
}

impl InternalCldrCalendar for JapaneseExtended {

}

impl CldrCalendar for JapaneseExtended {
    open spec fn spec_kind() -> CalendarKind {
        CalendarKind::JapaneseExtended
    }

    proof fn kind_in_registry() {
    }

    fn kind() -> CalendarKind {
        CalendarKind::JapaneseExtended
    }

    fn default_bcp47_identifier() -> &'static str {
        canonical_identifier(CalendarKind::JapaneseExtended)
    }

    fn data_family() -> DataFamily {
        DataFamily::JapaneseExtended
    }

    fn is_identifier_allowed_for_calendar(value: &str) -> bool {
        accepts(CalendarKind::JapaneseExtended, value)
    }
}

impl InternalCldrCalendar for Persian {

}

impl CldrCalendar for Persian {
    open spec fn spec_kind() -> CalendarKind {
        CalendarKind::Persian
    }

    proof fn kind_in_registry() {
    }

    fn kind() -> CalendarKind {
        CalendarKind::Persian
    }

    fn default_bcp47_identifier() -> &'static str {
        canonical_identifier(CalendarKind::Persian)
    }

    fn data_family() -> DataFamily {
        DataFamily::Persian
    }

    fn is_identifier_allowed_for_calendar(value: &str) -> bool {
        accepts(CalendarKind::Persian, value)
    }
}

impl InternalCldrCalendar for Roc {

}

impl CldrCalendar for Roc {
    open spec fn spec_kind() -> CalendarKind {
        CalendarKind::Roc
    }

    proof fn kind_in_registry() {
    }

    fn kind() -> CalendarKind {
        CalendarKind::Roc
    }

    fn default_bcp47_identifier() -> &'static str {
        canonical_identifier(CalendarKind::Roc)
    }

    fn data_family() -> DataFamily {
        DataFamily::Roc
    }

    fn is_identifier_allowed_for_calendar(value: &str) -> bool {
        accepts(CalendarKind::Roc, value)
    }
}

} // verus!
