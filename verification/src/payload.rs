//! The type-erased data payload.

use crate::kind::SchemaKey;
use vstd::prelude::*;

verus! {

/// An owned, loaded data record tagged by the schema key it was requested
/// under, with no static calendar-type association.
///
/// One payload is created per load call; ownership passes to the caller, and
/// the value is never mutated after creation. The record's bytes are opaque
/// to this subsystem: loading only re-tags them.
#[derive(Debug)]
pub struct ErasedPayload {
    /// The schema key the record was requested under.
    pub schema: SchemaKey,
    /// The loaded record itself.
    pub data: Vec<u8>,
}

impl ErasedPayload {
    /// Tags a loaded record with its schema key. The bytes are moved, not
    /// copied: erasure is a reinterpretation of the loaded value.
    pub fn erase(schema: SchemaKey, data: Vec<u8>) -> (r: ErasedPayload)
        ensures
            r.schema == schema,
            r.data == data,
    {
        ErasedPayload { schema, data }
    }
}

} // verus!
