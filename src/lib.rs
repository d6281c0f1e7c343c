//! A read-only boundary over parsed IATA BCBP ("bar-coded boarding pass") records: records are
//! created from raw bytes, duplicated, compared, hashed and released, and every field of the
//! document, of its security block and of each flight leg is handed out as a length-exact byte
//! buffer.

pub mod boundary;
pub mod dump;
pub mod external;
pub mod field_id;
pub mod ingest;
pub mod record;

pub use boundary::{
    BcbpCopyDebugDesc, BcbpCopyField, BcbpCopyFlightLegField, BcbpCopySecurityField,
    BcbpCreateCopy, BcbpCreateWithCString, BcbpDestroy, BcbpDestroyString, BcbpGetNumberOfLegs,
    BcbpHash, BcbpIsEqual,
};
pub use field_id::{BcbpFieldId, BcbpFlightLegFieldId, BcbpSecurityFieldId};
pub use record::{BoardingPass, FlightLeg, SecurityBlock};
