//! Decoder for a binary, record-oriented test-data interchange format
//! produced by semiconductor test equipment.  A sequential byte stream of
//! length-prefixed, typed records is turned into a structured in-memory
//! aggregate: lot-level fields, wafers, parts, test definitions, test
//! results and bin records.  The decoder auto-detects byte order from the
//! file-attributes record, supplies documented defaults for omitted
//! trailing fields, and tolerates malformed records without aborting the
//! rest of the stream.

pub mod model;
pub mod types;
pub mod reader;
pub mod parser;
pub mod laws;
