//! The one decision in the worker-service probe that is not I/O: reading an
//! HTTP status probe's output.  Running the probe, spawning the service and
//! checking the installation paths all belong to the shell outside the
//! crate.

use vstd::prelude::*;
use crate::text;

verus! {

/// Whether a status probe's output reports success: its trimmed output is
/// exactly the HTTP status 200.
pub fn http_status_ok(output: &str) -> (r: bool)
    ensures
        r == (text::trimmed_of(output@) == "200"@),
{
    let trimmed = text::trim_str(output);
    text::str_eq(trimmed.as_str(), "200")
}

} // verus!
