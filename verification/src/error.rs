//! The failures that registry operations report.

use sled::Error as StoreFault;
use vstd::prelude::*;

verus! {

/// `sled::Error`, carried through as an opaque value.
#[verifier::external_type_specification]
#[verifier::external_body]
pub struct ExStoreFault(StoreFault);

/// `bincode::ErrorKind`, carried through as an opaque value.
#[verifier::external_type_specification]
#[verifier::external_body]
pub struct ExBincodeErrorKind(bincode::ErrorKind);

/// Every way in which a registry operation can fail. The kinds stay apart:
/// a fault of the store is never reported as a missing record, and bytes
/// that do not decode are never reported as a fault of the store. No
/// operation ends the process: each failure is returned to the caller.
#[derive(Debug)]
pub enum Error {
    /// The durable store reported a fault: on open, read, write or flush.
    Db(StoreFault),
    /// A record could not be encoded, or stored bytes could not be decoded.
    Bincode(bincode::Error),
    /// A record was to be created under a name that is taken; the name.
    ApiAlreadyExists(String),
    /// The registry was to be initialised a second time.
    CellSetError,
}

} // verus!
