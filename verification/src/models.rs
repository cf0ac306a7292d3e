//! Which model pack provides a detector, and where packs are downloaded from.

use vstd::prelude::*;
use crate::text::{chars_of, concat3, contains, contains_chars};

verus! {

pub const RELEASE_BASE: &'static str = "https://github.com/deepinsight/insightface/releases/download/v0.7";

/// The download URL of a model pack.
pub fn zip_url(pack_name: &str) -> (r: String)
    ensures
        r@ == RELEASE_BASE@ + "/"@ + pack_name@ + ".zip"@,
{
    let mut out = concat3(RELEASE_BASE, "/", pack_name);
    out.append(".zip");
    out
}

/// The pack that ships a detector model: the large pack for the `10g`
/// detector, the small one otherwise.
pub fn model_pack(detector_name: &str) -> (r: &'static str)
    ensures
        r@ == (if contains(detector_name@, "10g"@) {
            "buffalo_l"@
        } else {
            "buffalo_sc"@
        }),
{
    if contains_chars(&chars_of(detector_name), &chars_of("10g")) {
        "buffalo_l"
    } else {
        "buffalo_sc"
    }
}

/// The archive name a pack is downloaded to.
pub fn pack_archive_name(pack_name: &str) -> (r: String)
    ensures
        r@ == pack_name@ + ".zip"@,
{
    let mut out = String::from_str(pack_name);
    out.append(".zip");
    out
}

/// Whether an archive entry is a model to extract.
pub fn is_model_entry(name: &str) -> (r: bool)
    ensures
        r == crate::text::ends_with(name@, ".onnx"@),
{
    crate::text::has_suffix(&chars_of(name), &chars_of(".onnx"))
}

} // verus!
