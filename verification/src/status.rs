use vstd::prelude::*;

verus! {

/// A successful list response, carrying the JSON array of books.
pub const STATUS_OK: u16 = 200;

/// A successful create: exactly one row was inserted.
pub const STATUS_CREATED: u16 = 201;

/// A successful update or delete, and the liveness probe's one answer.
pub const STATUS_NO_CONTENT: u16 = 204;

/// An update or delete that found no row with the given id, or an
/// insert whose affected-row count was not one.
pub const STATUS_BAD_REQUEST: u16 = 400;

/// A connection-acquisition or statement-execution failure.
pub const STATUS_INTERNAL_ERROR: u16 = 500;

} // verus!
