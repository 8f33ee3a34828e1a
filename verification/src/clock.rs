//! The wall clock.

use vstd::prelude::*;

verus! {

/// `chrono::Local::now` reads the system clock and gives the current time
/// in the local time zone; `chrono::DateTime::to_rfc3339` writes it as an
/// RFC 3339 string such as `1996-12-19T16:39:57-08:00`. The result depends
/// on when and where it is asked for, so nothing is claimed of it.
#[verifier::external_body]
pub(crate) fn local_timestamp() -> (text: String) {
    chrono::Local::now().to_rfc3339()
}

} // verus!

