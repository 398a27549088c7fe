//! The checkpoint rendering rule: every upstream status code is displayed
//! verbatim, except the delivery code `GTMS_SIGNED`, which is displayed as
//! the fixed label `Received`.

use vstd::prelude::*;

verus! {

/// The display label for an upstream status code: the code itself, unless it
/// is the delivery code `GTMS_SIGNED`, which reads `Received`.
pub open spec fn spec_display_label(status_raw: Seq<char>) -> Seq<char> {
    if status_raw == "GTMS_SIGNED"@ {
        "Received"@
    } else {
        status_raw
    }
}

/// Exact string comparison, used to test a status code against the one
/// special-cased value.
pub fn str_equal(a: &str, b: &str) -> (r: bool)
    ensures
        r == (a@ == b@),
{
    let sa: String = a.to_owned();
    let sb: String = b.to_owned();
    sa == sb
}

/// Law: a status code other than `GTMS_SIGNED` is displayed unchanged.
pub proof fn lemma_label_keeps_other_codes(status_raw: Seq<char>)
    requires
        status_raw != "GTMS_SIGNED"@,
    ensures
        spec_display_label(status_raw) == status_raw,
{
}

/// Law: `GTMS_SIGNED` is displayed as exactly `Received`.
pub proof fn lemma_label_maps_signed()
    ensures
        spec_display_label("GTMS_SIGNED"@) == "Received"@,
{
}

/// Maps a raw upstream status code to the label shown to the user.
pub fn display_label(status_raw: &str) -> (r: String)
    ensures
        r@ == spec_display_label(status_raw@),
{
    if str_equal(status_raw, "GTMS_SIGNED") {
        "Received".to_owned()
    } else {
        status_raw.to_owned()
    }
}

} // verus!
