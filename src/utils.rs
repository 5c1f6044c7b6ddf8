//! Project revisions.

use vstd::prelude::*;
use crate::text::{i64_text, int_text};

verus! {

/// Relies on `chrono::Utc::now` and `DateTime::timestamp_millis`: the time now, in
/// milliseconds since the Unix epoch. Nothing is known of its value.
#[verifier::external_body]
fn now_millis() -> i64 {
    chrono::Utc::now().timestamp_millis()
}

/// A fresh project revision: the time now, in milliseconds since the Unix epoch, in
/// decimal.
pub fn get_revision() -> (r: String)
    ensures
        exists|ms: i64| r@ == int_text(ms as int),
{
    let ms = now_millis();
    i64_text(ms)
}

} // verus!
