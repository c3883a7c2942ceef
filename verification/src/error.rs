//! The error taxonomy of the subsystem.
//!
//! No operation here retries or substitutes: every error is surfaced
//! verbatim, and every variant carries the offending schema key, calendar
//! kind or attribute, so that a caller can report precisely what failed.

use crate::kind::{CalendarKind, SchemaKey};
use vstd::prelude::*;

verus! {

/// A supplemental week attribute, named in fallback-resolution errors.
#[derive(Clone, Copy, Debug, PartialEq, Eq, Structural)]
pub enum WeekAttribute {
    FirstDay,
    MinDays,
    WeekendStart,
    WeekendEnd,
}

/// An error of this subsystem, or of the external data source behind it.
#[derive(Clone, Copy, Debug, PartialEq, Eq, Structural)]
pub enum DataError {
    /// The requested (schema key, locale) pair is absent from the data
    /// source. Reported by the source and surfaced unchanged.
    DataUnavailable { key: SchemaKey },
    /// The data source does not serve the schema key at all. Reported by the
    /// source and surfaced unchanged.
    UnsupportedSchema { key: SchemaKey },
    /// The data source failed to reach its backing store. Reported by the
    /// source and surfaced unchanged.
    Io,
    /// Dynamic dispatch received a calendar kind absent from its table. The
    /// kind is reported explicitly, never silently rerouted to another kind.
    UnsupportedCalendarKind { kind: CalendarKind },
    /// The supplemental source data lack even a default-territory entry for
    /// a required attribute: a data-integrity defect in the source tables,
    /// not a routine not-found condition.
    MissingDefaultEntry { attribute: WeekAttribute },
}

} // verus!
