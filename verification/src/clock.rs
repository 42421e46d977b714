//! Wall-clock readings and the progress artifact's file name.

use vstd::prelude::*;

verus! {

/// Relies on `chrono::Local::now` and `chrono::DateTime::to_rfc3339` for the
/// current wall-clock instant in RFC 3339 form. The value depends on the
/// clock, so nothing is promised of it.
#[verifier::external_body]
pub(crate) fn now_rfc3339() -> String {
    chrono::Local::now().to_rfc3339()
}

/// Relies on `chrono::Local::now` and `chrono::format::DelayedFormat` for the
/// current wall-clock instant as a compact `YYYYMMDD.HHMMSS` stamp. The value
/// depends on the clock, so nothing is promised of it.
#[verifier::external_body]
pub(crate) fn now_file_stamp() -> String {
    chrono::Local::now().format("%Y%m%d.%H%M%S").to_string()
}

/// The name of the progress artifact for a run whose start time rendered as
/// the given stamp.
pub fn progress_file_name(stamp: &str) -> (r: String)
    ensures
        r@ == "progresso."@ + stamp@ + ".xml"@,
{
    let mut name = String::from_str("progresso.");
    name.append(stamp);
    name.append(".xml");
    name
}

/// The name of the progress artifact, derived once from the run's start time.
pub fn new_progress_file_name() -> (r: String)
    ensures
        exists|stamp: Seq<char>| r@ == "progresso."@ + stamp + ".xml"@,
{
    let stamp = now_file_stamp();
    progress_file_name(stamp.as_str())
}

} // verus!
