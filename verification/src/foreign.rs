//! Declarations that let verified code hold values of standard and outside
//! types it never looks inside.

use std::path::PathBuf;
use std::time::SystemTime;

use vstd::prelude::*;

verus! {

/// A filesystem path, carried through unchanged.
#[verifier::external_type_specification]
#[verifier::external_body]
pub struct ExPathBuf(PathBuf);

/// A wall-clock timestamp, carried through unchanged.
#[verifier::external_type_specification]
#[verifier::external_body]
pub struct ExSystemTime(SystemTime);

/// `PathBuf::clone`: a clone denotes the same path as the original.
pub assume_specification[ <PathBuf as Clone>::clone ](p: &PathBuf) -> (r: PathBuf)
    ensures
        r == *p,
;

/// `SystemTime::clone`: `SystemTime` is `Copy`, so a clone is the same instant.
pub assume_specification[ <SystemTime as Clone>::clone ](t: &SystemTime) -> (r: SystemTime)
    ensures
        r == *t,
;

/// reqwest's HTTP client handle, carried through to the code that sends
/// requests with it.
#[verifier::external_type_specification]
#[verifier::external_body]
pub struct ExHttpClient(reqwest::Client);

/// `reqwest::Client::clone`: nothing is claimed of the handle it returns
/// (it shares the original's connection pool).
pub assume_specification[ <reqwest::Client as Clone>::clone ](c: &reqwest::Client) -> reqwest::Client;

} // verus!
