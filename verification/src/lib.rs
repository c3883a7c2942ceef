//! Calendar-kind registry and locale data loading.
//!
//! This library resolves which calendar system a BCP-47 calendar subtag may
//! refer to and loads the locale-specific data that date formatting needs.
//! It has three parts:
//!
//! - a read-only registry over a closed set of calendar kinds, giving each
//!   kind its canonical identifier, its identifier-acceptance rule and the
//!   schema keys its data is stored under ([`kind`], [`identifier`],
//!   [`calendar`]);
//! - two loading paths over an abstract data source — one specialized to a
//!   statically known calendar, one dispatching on a runtime kind value — both
//!   returning the same type-erased payload ([`source`], [`loader`],
//!   [`payload`]);
//! - a region-then-default fallback resolver for supplemental week metadata
//!   ([`week_data`]).

pub mod calendar;
pub mod error;
pub mod identifier;
pub mod kind;
pub mod loader;
pub mod payload;
pub mod source;
pub mod week_data;
